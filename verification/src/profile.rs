//! What a manager is and what it can do.

use vstd::prelude::*;

verus! {

/// The world a manager's packages belong to.
#[derive(Clone, Copy, Debug, PartialEq, Eq, Structural)]
pub enum ManagerKind {
    /// The distribution's own packages.
    System,
    /// Packages that run on any distribution.
    Universal,
    /// The packages of one programming language.
    Language,
    Other,
}

/// What a manager can be asked to do.
#[derive(Clone, Copy, Debug, PartialEq, Eq, Structural)]
pub enum Operation {
    Install,
    Remove,
    Upgrade,
    Refresh,
    ListInstalled,
    Info,
    Search,
    ListOutdated,
}

impl Operation {
    /// Whether the operation changes what is installed, or what the manager
    /// knows of its repositories.
    pub open spec fn changes(self) -> bool {
        self is Install || self is Remove || self is Upgrade || self is Refresh
    }

    /// Whether the operation changes anything.
    pub fn mutates(self) -> (r: bool)
        ensures
            r == self.changes(),
    {
        matches!(
            self,
            Operation::Install | Operation::Remove | Operation::Upgrade | Operation::Refresh
        )
    }
}

/// Which optional operations a manager offers.
#[derive(Clone, Copy, Debug, PartialEq, Eq, Structural)]
pub struct Capabilities {
    pub install: bool,
    pub remove: bool,
    pub list_installed: bool,
    pub info: bool,
    pub search: bool,
    pub refresh: bool,
    pub upgrade: bool,
    pub list_outdated: bool,
    /// A request may name a version.
    pub pin_version: bool,
}

impl Capabilities {
    /// Install, remove, list and info.
    pub open spec fn basic() -> Capabilities {
        Capabilities {
            install: true,
            remove: true,
            list_installed: true,
            info: true,
            search: false,
            refresh: false,
            upgrade: false,
            list_outdated: false,
            pin_version: false,
        }
    }

    /// Whether the operation is offered.
    pub open spec fn allows(self, operation: Operation) -> bool {
        match operation {
            Operation::Install => self.install,
            Operation::Remove => self.remove,
            Operation::Upgrade => self.upgrade,
            Operation::Refresh => self.refresh,
            Operation::ListInstalled => self.list_installed,
            Operation::Info => self.info,
            Operation::Search => self.search,
            Operation::ListOutdated => self.list_outdated,
        }
    }

    /// Whether the operation is offered.
    pub fn offers(self, operation: Operation) -> (r: bool)
        ensures
            r == self.allows(operation),
    {
        match operation {
            Operation::Install => self.install,
            Operation::Remove => self.remove,
            Operation::Upgrade => self.upgrade,
            Operation::Refresh => self.refresh,
            Operation::ListInstalled => self.list_installed,
            Operation::Info => self.info,
            Operation::Search => self.search,
            Operation::ListOutdated => self.list_outdated,
        }
    }
}

/// Install, remove, list and info: what nearly every manager offers.
pub fn basic_capabilities() -> (r: Capabilities)
    ensures
        r == Capabilities::basic(),
{
    Capabilities {
        install: true,
        remove: true,
        list_installed: true,
        info: true,
        search: false,
        refresh: false,
        upgrade: false,
        list_outdated: false,
        pin_version: false,
    }
}

/// What a manager says of itself.
#[derive(Clone, Copy, Debug)]
pub struct Profile {
    /// The identifier of the backend.
    pub id: &'static str,
    /// The name to show.
    pub display_name: &'static str,
    pub kind: ManagerKind,
    /// Managers that share a package database share this identifier.
    pub database_id: &'static str,
    pub capabilities: Capabilities,
    /// Whether changes ask for the credentials of another user.
    pub elevates: bool,
}

impl Profile {
    /// Whether the operation will ask for the credentials of another user.
    pub fn needs_elevation(&self, operation: Operation) -> (r: bool)
        ensures
            r == (self.elevates && operation.changes()),
    {
        self.elevates && operation.mutates()
    }
}

} // verus!
