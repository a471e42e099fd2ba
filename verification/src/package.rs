//! What is known of a package.

use vstd::prelude::*;

use crate::rows;
use crate::text::{self, chars, Deep, Pieces, Text};

verus! {

/// Whether a package is on the system.
#[derive(Clone, Copy, Debug, PartialEq, Eq, Structural)]
pub enum InstallState {
    Unknown,
    Available,
    Installed,
    /// Installed, and a newer version is known.
    Upgradable,
}

/// The model of a package: what every backend can say of one.
pub struct PackageView {
    pub name: Seq<char>,
    pub version: Option<Seq<char>>,
    pub latest_version: Option<Seq<char>>,
    pub description: Option<Seq<char>>,
    pub homepage: Option<Seq<char>>,
    pub license: Option<Seq<char>>,
    pub architecture: Option<Seq<char>>,
    pub origin: Option<Seq<char>>,
    pub dependencies: Option<Seq<Seq<char>>>,
    pub download_size: Option<u64>,
    pub installed_size: Option<u64>,
    /// The chart that a release was made from.
    pub chart: Option<Seq<char>>,
    /// The version of the application in a chart.
    pub app_version: Option<Seq<char>>,
    pub state: InstallState,
}

impl PackageView {
    /// A package of which nothing is known.
    pub open spec fn blank() -> PackageView {
        PackageView {
            name: seq![],
            version: None,
            latest_version: None,
            description: None,
            homepage: None,
            license: None,
            architecture: None,
            origin: None,
            dependencies: None,
            download_size: None,
            installed_size: None,
            chart: None,
            app_version: None,
            state: InstallState::Unknown,
        }
    }

    /// A package of which the name and the state are known.
    pub open spec fn named(name: Seq<char>, state: InstallState) -> PackageView {
        PackageView { name, state, ..PackageView::blank() }
    }

    /// A package of which the name, a version and the state are known.
    pub open spec fn versioned(
        name: Seq<char>,
        version: Option<Seq<char>>,
        state: InstallState,
    ) -> PackageView {
        PackageView { name, version, state, ..PackageView::blank() }
    }
}

/// The model of a list of strings that may be unknown.
pub open spec fn maybe_strings(o: Option<Vec<String>>) -> Option<Seq<Seq<char>>> {
    match o {
        Some(v) => Some(v@.deep()),
        None => None,
    }
}

/// Everything known of a package, borrowed from it.
#[derive(Clone, Copy, Debug)]
pub struct Details<'a> {
    pub name: &'a str,
    pub version: Option<&'a String>,
    pub latest_version: Option<&'a String>,
    pub description: Option<&'a String>,
    pub homepage: Option<&'a String>,
    pub license: Option<&'a String>,
    pub architecture: Option<&'a String>,
    pub origin: Option<&'a String>,
    pub dependencies: Option<&'a Vec<String>>,
    pub download_size: Option<u64>,
    pub installed_size: Option<u64>,
    pub chart: Option<&'a String>,
    pub app_version: Option<&'a String>,
    pub state: InstallState,
}

impl<'a> View for Details<'a> {
    type V = PackageView;

    open spec fn view(&self) -> PackageView {
        PackageView {
            name: self.name@,
            version: self.version.deep(),
            latest_version: self.latest_version.deep(),
            description: self.description.deep(),
            homepage: self.homepage.deep(),
            license: self.license.deep(),
            architecture: self.architecture.deep(),
            origin: self.origin.deep(),
            dependencies: match self.dependencies {
                Some(v) => Some(v@.deep()),
                None => None,
            },
            download_size: self.download_size,
            installed_size: self.installed_size,
            chart: self.chart.deep(),
            app_version: self.app_version.deep(),
            state: self.state,
        }
    }
}

impl<'a> Details<'a> {
    /// The details of a package of which the name and the state are known.
    pub fn of(name: &'a str, state: InstallState) -> (r: Details<'a>)
        ensures
            r@ == PackageView::named(name@, state),
    {
        Details {
            name,
            version: None,
            latest_version: None,
            description: None,
            homepage: None,
            license: None,
            architecture: None,
            origin: None,
            dependencies: None,
            download_size: None,
            installed_size: None,
            chart: None,
            app_version: None,
            state,
        }
    }
}

fn as_text<'a>(o: Option<&'a String>) -> (r: Option<&'a str>)
    ensures
        r.deep() == o.deep(),
{
    match o {
        Some(s) => Some(s.as_str()),
        None => None,
    }
}

/// A package as its manager describes it.
pub trait Package: View<V = PackageView> + Sized {
    /// The identifier of the manager.
    spec fn manager_id() -> Seq<char>;

    fn manager(&self) -> (r: &'static str)
        ensures
            r@ == Self::manager_id(),
    ;

    /// Everything that is known.
    fn details(&self) -> (r: Details<'_>)
        ensures
            r@ == self@,
    ;

    fn name(&self) -> (r: &str)
        ensures
            r@ == self@.name,
    {
        self.details().name
    }

    fn version(&self) -> (r: Option<&str>)
        ensures
            r.deep() == self@.version,
    {
        as_text(self.details().version)
    }

    fn latest_version(&self) -> (r: Option<&str>)
        ensures
            r.deep() == self@.latest_version,
    {
        as_text(self.details().latest_version)
    }

    fn description(&self) -> (r: Option<&str>)
        ensures
            r.deep() == self@.description,
    {
        as_text(self.details().description)
    }

    fn homepage(&self) -> (r: Option<&str>)
        ensures
            r.deep() == self@.homepage,
    {
        as_text(self.details().homepage)
    }

    fn license(&self) -> (r: Option<&str>)
        ensures
            r.deep() == self@.license,
    {
        as_text(self.details().license)
    }

    fn architecture(&self) -> (r: Option<&str>)
        ensures
            r.deep() == self@.architecture,
    {
        as_text(self.details().architecture)
    }

    fn origin(&self) -> (r: Option<&str>)
        ensures
            r.deep() == self@.origin,
    {
        as_text(self.details().origin)
    }

    fn dependencies(&self) -> (r: Option<&Vec<String>>)
        ensures
            match r {
                Some(v) => self@.dependencies == Some(v@.deep()),
                None => self@.dependencies is None,
            },
    {
        self.details().dependencies
    }

    fn download_size(&self) -> (r: Option<u64>)
        ensures
            r == self@.download_size,
    {
        self.details().download_size
    }

    fn installed_size(&self) -> (r: Option<u64>)
        ensures
            r == self@.installed_size,
    {
        self.details().installed_size
    }

    fn state(&self) -> (r: InstallState)
        ensures
            r == self@.state,
    {
        self.details().state
    }
}

/// Every package is in the state.
pub open spec fn all_in(packages: Seq<PackageView>, state: InstallState) -> bool {
    forall|i: int| 0 <= i < packages.len() ==> (#[trigger] packages[i]).state == state
}

/// Every package has a name.
pub open spec fn all_named(packages: Seq<PackageView>) -> bool {
    forall|i: int| 0 <= i < packages.len() ==> (#[trigger] packages[i]).name.len() > 0
}

/// Packages, with the one that is being read if it has a name by now.
pub open spec fn closed(packages: Seq<PackageView>, current: Option<PackageView>) -> Seq<
    PackageView,
> {
    match current {
        Some(package) => if package.name.len() > 0 {
            packages.push(package)
        } else {
            packages
        },
        None => packages,
    }
}

/// Adds the package that was being read, if it has a name.
pub fn close<P: Package>(packages: &mut Vec<P>, current: Option<P>)
    ensures
        final(packages)@.deep() == closed(old(packages)@.deep(), current.deep()),
{
    if let Some(package) = current {
        if !is_nameless(&package) {
            rows::push(packages, package);
        }
    }
}

/// Whether a package has no name.
pub fn is_nameless<P: Package>(package: &P) -> (r: bool)
    ensures
        r == (package@.name.len() == 0),
{
    chars(package.name()).len() == 0
}

/// A dependency without its constraint.
pub open spec fn dependency_name(dep: Seq<char>) -> Option<Seq<char>> {
    dep.words().nth(0)
}

fn name_of_dependency(dep: &[char]) -> (r: Option<String>)
    ensures
        r.deep() == dependency_name(dep@),
{
    text::maybe_string(text::nth(&text::words(dep), 0))
}

/// The names in a list of dependencies that are parted by commas.
pub open spec fn dependency_names(value: Seq<char>) -> Seq<Seq<char>> {
    rows::select(value.split(","@), |dep: Seq<char>| dependency_name(dep))
}

pub fn names_of_dependencies(value: &[char]) -> (r: Vec<String>)
    ensures
        r@.deep() == dependency_names(value@),
{
    rows::select_lines(
        &text::split(value, ","),
        name_of_dependency,
        Ghost(|dep: Seq<char>| dependency_name(dep)),
    )
}

} // verus!
