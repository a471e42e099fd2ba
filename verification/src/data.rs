//! Structured output: JSON and TOML as one kind of tree.
//!
//! `serde_json` and `toml` read the text; what they read is opened level by
//! level and becomes a [`Data`], which holds what the backends look at.

use vstd::prelude::*;

use crate::text::{self, Deep};

verus! {

/// A tree of texts and whole numbers.
#[derive(Debug)]
pub enum Data {
    Text(String),
    /// A whole number that is not negative.
    Count(u64),
    List(Vec<Data>),
    /// Names and values, in the order of the reader.
    Table(Vec<(String, Data)>),
    /// Anything else, and what is missing.
    Other,
}

/// The model of a [`Data`].
pub enum DataView {
    Text(Seq<char>),
    Count(u64),
    List(Seq<DataView>),
    Table(Seq<(Seq<char>, DataView)>),
    Other,
}

impl Data {
    /// The model of the tree.
    pub open spec fn tree(self) -> DataView
        decreases self,
    {
        match self {
            Data::Text(s) => DataView::Text(s@),
            Data::Count(n) => DataView::Count(n),
            Data::List(items) => DataView::List(
                Seq::new(
                    items@.len(),
                    |i: int|
                        if 0 <= i < items@.len() {
                            items@[i].tree()
                        } else {
                            DataView::Other
                        },
                ),
            ),
            Data::Table(entries) => DataView::Table(
                Seq::new(
                    entries@.len(),
                    |i: int|
                        if 0 <= i < entries@.len() {
                            (entries@[i].0@, entries@[i].1.tree())
                        } else {
                            (seq![], DataView::Other)
                        },
                ),
            ),
            Data::Other => DataView::Other,
        }
    }
}

impl View for Data {
    type V = DataView;

    open spec fn view(&self) -> DataView {
        self.tree()
    }
}

impl DataView {
    pub open spec fn text(self) -> Option<Seq<char>> {
        match self {
            DataView::Text(s) => Some(s),
            _ => None,
        }
    }

    pub open spec fn count(self) -> Option<u64> {
        match self {
            DataView::Count(n) => Some(n),
            _ => None,
        }
    }

    pub open spec fn items(self) -> Option<Seq<DataView>> {
        match self {
            DataView::List(items) => Some(items),
            _ => None,
        }
    }

    pub open spec fn entries(self) -> Option<Seq<(Seq<char>, DataView)>> {
        match self {
            DataView::Table(entries) => Some(entries),
            _ => None,
        }
    }

    /// The value of `key` in a table.
    pub open spec fn find(self, key: Seq<char>) -> Option<DataView> {
        match self {
            DataView::Table(entries) => lookup(entries, key),
            _ => None,
        }
    }

    /// The value of `key` in a table, or nothing of interest.
    pub open spec fn get(self, key: Seq<char>) -> DataView {
        match self.find(key) {
            Some(value) => value,
            None => DataView::Other,
        }
    }

    /// The last item of a list, or nothing of interest.
    pub open spec fn last(self) -> DataView {
        match self {
            DataView::List(items) => if items.len() > 0 {
                items.last()
            } else {
                DataView::Other
            },
            _ => DataView::Other,
        }
    }
}

/// The value of `key` among the entries.
pub open spec fn lookup(entries: Seq<(Seq<char>, DataView)>, key: Seq<char>) -> Option<DataView>
    decreases entries.len(),
{
    if entries.len() == 0 {
        None
    } else if entries[0].0 == key {
        Some(entries[0].1)
    } else {
        lookup(entries.skip(1), key)
    }
}

impl Data {
    pub fn text(&self) -> (r: Option<&String>)
        ensures
            r.deep() == self@.text(),
    {
        match self {
            Data::Text(s) => Some(s),
            _ => None,
        }
    }

    /// The text of a tree, copied.
    pub fn string(&self) -> (r: Option<String>)
        ensures
            r.deep() == self@.text(),
    {
        match self {
            Data::Text(s) => Some(text::copy(s)),
            _ => None,
        }
    }

    pub fn count(&self) -> (r: Option<u64>)
        ensures
            r == self@.count(),
    {
        match self {
            Data::Count(n) => Some(*n),
            _ => None,
        }
    }

    pub fn items(&self) -> (r: Option<&Vec<Data>>)
        ensures
            match r {
                Some(items) => self@.items() == Some(items@.deep()),
                None => self@.items() is None,
            },
    {
        match self {
            Data::List(items) => {
                assert(self@.items()->0 =~= items@.deep());
                Some(items)
            },
            _ => None,
        }
    }

    pub fn entries(&self) -> (r: Option<&Vec<(String, Data)>>)
        ensures
            match r {
                Some(entries) => self@.entries() == Some(entries@.deep()),
                None => self@.entries() is None,
            },
    {
        match self {
            Data::Table(entries) => {
                assert(self@.entries()->0 =~= entries@.deep());
                Some(entries)
            },
            _ => None,
        }
    }

    pub fn find(&self, key: &str) -> (r: Option<&Data>)
        ensures
            r.deep() == self@.find(key@),
    {
        let entries = match self.entries() {
            Some(entries) => entries,
            None => {
                return None;
            },
        };
        let ghost all = entries@.deep();
        let mut i: usize = 0;
        assert(all.skip(0) =~= all);
        while i < entries.len()
            invariant
                i <= entries.len(),
                all == entries@.deep(),
                self@.find(key@) == lookup(all, key@),
                lookup(all, key@) == lookup(all.skip(i as int), key@),
            decreases entries.len() - i,
        {
            assert(all.skip(i as int)[0] == entries@[i as int]@);
            if text::equal(&entries[i].0, key) {
                return Some(&entries[i].1);
            }
            assert(all.skip(i as int).skip(1) =~= all.skip(i + 1));
            i += 1;
        }
        None
    }

    /// The text of `key` in a table, copied.
    pub fn string_of(&self, key: &str) -> (r: Option<String>)
        ensures
            r.deep() == self@.get(key@).text(),
    {
        match self.find(key) {
            Some(value) => value.string(),
            None => None,
        }
    }

    /// The text of `key` in a table.
    pub fn text_of(&self, key: &str) -> (r: Option<&String>)
        ensures
            r.deep() == self@.get(key@).text(),
    {
        match self.find(key) {
            Some(value) => value.text(),
            None => None,
        }
    }

    /// The list of `key` in a table.
    pub fn items_of(&self, key: &str) -> (r: Option<&Vec<Data>>)
        ensures
            match r {
                Some(items) => self@.get(key@).items() == Some(items@.deep()),
                None => self@.get(key@).items() is None,
            },
    {
        match self.find(key) {
            Some(value) => value.items(),
            None => None,
        }
    }
}

/// What `f` makes of the items of a list, without those of which it makes
/// nothing.
pub fn select<P: View, F: Fn(&Data) -> Option<P>>(
    items: &[Data],
    f: F,
    Ghost(g): Ghost<spec_fn(DataView) -> Option<P::V>>,
) -> (r: Vec<P>)
    requires
        forall|d: &Data| #[trigger] f.requires((d,)),
        forall|d: &Data, p: Option<P>| #[trigger] f.ensures((d,), p) ==> p.deep() == g(d@),
    ensures
        r@.deep() == crate::rows::select(items@.deep(), g),
{
    let mut out: Vec<P> = crate::rows::empty();
    let mut i: usize = 0;
    let ghost all = items@.deep();
    while i < items.len()
        invariant
            i <= items.len(),
            forall|d: &Data| #[trigger] f.requires((d,)),
            forall|d: &Data, p: Option<P>| #[trigger] f.ensures((d,), p) ==> p.deep() == g(d@),
            all == items@.deep(),
            out@.deep() == crate::rows::select(all.take(i as int), g),
        decreases items.len() - i,
    {
        assert(all.take(i + 1).drop_last() =~= all.take(i as int));
        assert(all.take(i + 1).last() == items@[i as int]@);
        if let Some(p) = f(&items[i]) {
            crate::rows::push(&mut out, p);
        }
        i += 1;
    }
    assert(all.take(all.len() as int) =~= all);
    out
}

// ---------------------------------------------------------------------- JSON

/// A JSON value as `serde_json` holds it.
#[verifier::external_type_specification]
#[verifier::external_body]
pub struct ExJsonValue(serde_json::Value);

/// A JSON number as `serde_json` holds it.
#[verifier::external_type_specification]
#[verifier::external_body]
pub struct ExJsonNumber(serde_json::Number);

/// What a JSON value holds.
pub uninterp spec fn json_model(value: serde_json::Value) -> DataView;

/// What `Number::as_u64` says of a JSON number.
pub uninterp spec fn json_count(number: serde_json::Number) -> Option<u64>;

/// What `serde_json::from_str` reads from a text: what the value holds, or
/// the message of the error.
pub uninterp spec fn json_text(text: Seq<char>) -> Result<DataView, Seq<char>>;

/// One level of a JSON value.
enum JsonNode {
    Text(String),
    Number(serde_json::Number),
    List(Vec<serde_json::Value>),
    Table(Vec<(String, serde_json::Value)>),
    Other,
}

/// `serde_json::from_str` into a `Value`. It claims that what is read, or the
/// message of the error, depends on the text alone.
#[verifier::external_body]
fn read_json(text: &str) -> (r: Result<serde_json::Value, String>)
    ensures
        match r {
            Ok(value) => json_text(text@) == Ok::<DataView, Seq<char>>(json_model(value)),
            Err(message) => json_text(text@) == Err::<DataView, Seq<char>>(message@),
        },
{
    serde_json::from_str::<serde_json::Value>(text).map_err(|error| error.to_string())
}

/// Takes a `serde_json::Value` apart by its variants. It claims that a value
/// holds what its variant carries: a string its characters, an array its
/// items in order, an object its keys and values in the order in which
/// `into_iter` of `serde_json::Map` hands them out.
#[verifier::external_body]
fn open_json(value: serde_json::Value) -> (r: JsonNode)
    ensures
        json_model(value) == match r {
            JsonNode::Text(s) => DataView::Text(s@),
            JsonNode::Number(n) => match json_count(n) {
                Some(count) => DataView::Count(count),
                None => DataView::Other,
            },
            JsonNode::List(items) => DataView::List(
                items@.map_values(|v: serde_json::Value| json_model(v)),
            ),
            JsonNode::Table(entries) => DataView::Table(
                entries@.map_values(|e: (String, serde_json::Value)| (e.0@, json_model(e.1))),
            ),
            JsonNode::Other => DataView::Other,
        },
{
    match value {
        serde_json::Value::String(s) => JsonNode::Text(s),
        serde_json::Value::Number(n) => JsonNode::Number(n),
        serde_json::Value::Array(items) => JsonNode::List(items),
        serde_json::Value::Object(entries) => JsonNode::Table(entries.into_iter().collect()),
        serde_json::Value::Bool(_) => JsonNode::Other,
        serde_json::Value::Null => JsonNode::Other,
    }
}

/// `serde_json::Number::as_u64`: the number, if it is a whole one that fits 64
/// bits without a sign. Which numbers those are is only named.
#[verifier::external_body]
fn count_json(number: &serde_json::Number) -> (r: Option<u64>)
    ensures
        r == json_count(*number),
{
    number.as_u64()
}

/// Turns a JSON value into a tree, level by level.
fn json_data(value: serde_json::Value) -> (r: Data)
    ensures
        r@ == json_model(value),
    decreases json_model(value),
{
    let ghost model = json_model(value);
    match open_json(value) {
        JsonNode::Text(s) => Data::Text(s),
        JsonNode::Number(n) => match count_json(&n) {
            Some(count) => Data::Count(count),
            None => Data::Other,
        },
        JsonNode::List(values) => {
            let mut items: Vec<Data> = Vec::new();
            let ghost all = values@;
            for item in it: values
                invariant
                    all == it.seq(),
                    model == DataView::List(
                        all.map_values(|v: serde_json::Value| json_model(v)),
                    ),
                    model == json_model(value),
                    items@.len() == it.index(),
                    forall|i: int|
                        0 <= i < items@.len() ==> (#[trigger] items@[i]).tree() == json_model(
                            all[i],
                        ),
            {
                assert(model->List_0[it.index() as int] == json_model(item));
                assert(decreases_to!(model => model->List_0[it.index() as int]));
                items.push(json_data(item));
            }
            let r = Data::List(items);
            assert(r@->List_0 =~= model->List_0);
            r
        },
        JsonNode::Table(values) => {
            let mut entries: Vec<(String, Data)> = Vec::new();
            let ghost all = values@;
            for entry in it: values
                invariant
                    all == it.seq(),
                    model == DataView::Table(
                        all.map_values(
                            |e: (String, serde_json::Value)| (e.0@, json_model(e.1)),
                        ),
                    ),
                    model == json_model(value),
                    entries@.len() == it.index(),
                    forall|i: int|
                        0 <= i < entries@.len() ==> (#[trigger] entries@[i]).0@ == all[i].0@
                            && entries@[i].1.tree() == json_model(all[i].1),
            {
                let (key, item) = entry;
                assert(model->Table_0[it.index() as int].1 == json_model(item));
                assert(decreases_to!(model => model->Table_0[it.index() as int].1));
                entries.push((key, json_data(item)));
            }
            let r = Data::Table(entries);
            assert(r@->Table_0 =~= model->Table_0);
            r
        },
        JsonNode::Other => Data::Other,
    }
}

/// The model of a reading.
pub open spec fn reading(r: Result<Data, String>) -> Result<DataView, Seq<char>> {
    match r {
        Ok(data) => Ok(data@),
        Err(message) => Err(message@),
    }
}

/// Reads JSON.
pub fn parse_json(text: &str) -> (r: Result<Data, String>)
    ensures
        reading(r) == json_text(text@),
{
    match read_json(text) {
        Ok(value) => Ok(json_data(value)),
        Err(message) => Err(message),
    }
}

// ---------------------------------------------------------------------- TOML

/// A TOML value as `toml` holds it.
#[verifier::external_type_specification]
#[verifier::external_body]
pub struct ExTomlValue(toml::Value);

/// What a TOML value holds; of its numbers, dates and truth values nothing.
pub uninterp spec fn toml_model(value: toml::Value) -> DataView;

/// What `toml::from_str` reads from a text: what the document holds, or the
/// message of the error.
pub uninterp spec fn toml_text(text: Seq<char>) -> Result<DataView, Seq<char>>;

/// One level of a TOML value.
enum TomlNode {
    Text(String),
    List(Vec<toml::Value>),
    Table(Vec<(String, toml::Value)>),
    Other,
}

/// `toml::from_str` into a `Value`. It claims that what is read, or the
/// message of the error, depends on the text alone.
#[verifier::external_body]
fn read_toml(text: &str) -> (r: Result<toml::Value, String>)
    ensures
        match r {
            Ok(value) => toml_text(text@) == Ok::<DataView, Seq<char>>(toml_model(value)),
            Err(message) => toml_text(text@) == Err::<DataView, Seq<char>>(message@),
        },
{
    toml::from_str::<toml::Value>(text).map_err(|error| error.to_string())
}

/// Takes a `toml::Value` apart by its variants. It claims that a value holds
/// what its variant carries: a string its characters, an array its items in
/// order, a table its keys and values in the order in which `into_iter` of
/// `toml::Table` hands them out.
#[verifier::external_body]
fn open_toml(value: toml::Value) -> (r: TomlNode)
    ensures
        toml_model(value) == match r {
            TomlNode::Text(s) => DataView::Text(s@),
            TomlNode::List(items) => DataView::List(
                items@.map_values(|v: toml::Value| toml_model(v)),
            ),
            TomlNode::Table(entries) => DataView::Table(
                entries@.map_values(|e: (String, toml::Value)| (e.0@, toml_model(e.1))),
            ),
            TomlNode::Other => DataView::Other,
        },
{
    match value {
        toml::Value::String(s) => TomlNode::Text(s),
        toml::Value::Array(items) => TomlNode::List(items),
        toml::Value::Table(entries) => TomlNode::Table(entries.into_iter().collect()),
        toml::Value::Integer(_) => TomlNode::Other,
        toml::Value::Float(_) => TomlNode::Other,
        toml::Value::Boolean(_) => TomlNode::Other,
        toml::Value::Datetime(_) => TomlNode::Other,
    }
}

/// Turns a TOML value into a tree, level by level.
fn toml_data(value: toml::Value) -> (r: Data)
    ensures
        r@ == toml_model(value),
    decreases toml_model(value),
{
    let ghost model = toml_model(value);
    match open_toml(value) {
        TomlNode::Text(s) => Data::Text(s),
        TomlNode::List(values) => {
            let mut items: Vec<Data> = Vec::new();
            let ghost all = values@;
            for item in it: values
                invariant
                    all == it.seq(),
                    model == DataView::List(all.map_values(|v: toml::Value| toml_model(v))),
                    model == toml_model(value),
                    items@.len() == it.index(),
                    forall|i: int|
                        0 <= i < items@.len() ==> (#[trigger] items@[i]).tree() == toml_model(
                            all[i],
                        ),
            {
                assert(model->List_0[it.index() as int] == toml_model(item));
                assert(decreases_to!(model => model->List_0[it.index() as int]));
                items.push(toml_data(item));
            }
            let r = Data::List(items);
            assert(r@->List_0 =~= model->List_0);
            r
        },
        TomlNode::Table(values) => {
            let mut entries: Vec<(String, Data)> = Vec::new();
            let ghost all = values@;
            for entry in it: values
                invariant
                    all == it.seq(),
                    model == DataView::Table(
                        all.map_values(|e: (String, toml::Value)| (e.0@, toml_model(e.1))),
                    ),
                    model == toml_model(value),
                    entries@.len() == it.index(),
                    forall|i: int|
                        0 <= i < entries@.len() ==> (#[trigger] entries@[i]).0@ == all[i].0@
                            && entries@[i].1.tree() == toml_model(all[i].1),
            {
                let (key, item) = entry;
                assert(model->Table_0[it.index() as int].1 == toml_model(item));
                assert(decreases_to!(model => model->Table_0[it.index() as int].1));
                entries.push((key, toml_data(item)));
            }
            let r = Data::Table(entries);
            assert(r@->Table_0 =~= model->Table_0);
            r
        },
        TomlNode::Other => Data::Other,
    }
}

/// Reads TOML.
pub fn parse_toml(text: &str) -> (r: Result<Data, String>)
    ensures
        reading(r) == toml_text(text@),
{
    match read_toml(text) {
        Ok(value) => Ok(toml_data(value)),
        Err(message) => Err(message),
    }
}

} // verus!
