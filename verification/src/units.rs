//! Units of the service manager: identity, status snapshot, and the
//! field-preserving update applied on every periodic refresh.

use vstd::prelude::*;
use vstd::string::StrSliceExecFns;
use crate::strings::is_substring;
use crate::strings::lower_of;
use crate::strings::str_contains;
use crate::strings::str_eq;

verus! {

/// The unit name with a trailing `.service` stripped, if present.
pub open spec fn spec_short_name(name: Seq<char>) -> Seq<char> {
    if name.len() >= 8 && name.skip(name.len() - 8) == ".service"@ {
        name.take(name.len() - 8)
    } else {
        name
    }
}

/// Namespace a single unit belongs to.
#[derive(Debug, Clone, Copy, PartialEq, Eq, Hash, Structural)]
pub enum UnitScope {
    Global,
    User,
}

/// Which namespaces a listing request covers (possibly several).
#[derive(Debug, Clone, Copy, PartialEq, Eq, Structural)]
pub enum Scope {
    Global,
    User,
    All,
}

/// Just enough info to fully identify a unit.
#[derive(Debug, Clone, PartialEq, Eq, Hash)]
pub struct UnitId {
    pub name: String,
    pub scope: UnitScope,
}

impl UnitId {
    /// An equal copy (derived `Clone` carries no specification).
    pub fn duplicate(&self) -> (r: UnitId)
        ensures
            r == *self,
    {
        UnitId { name: self.name.clone(), scope: self.scope }
    }

    /// Structural equality, usable in verified code.
    pub fn same(&self, other: &UnitId) -> (r: bool)
        ensures
            r == (self.name@ == other.name@ && self.scope == other.scope),
    {
        self.name == other.name && self.scope == other.scope
    }
}

/// One unit together with the status fields shown in the list.
#[derive(Debug, Clone, PartialEq, Eq)]
pub struct UnitWithStatus {
    /// The primary unit name.
    pub name: String,
    /// System or user namespace.
    pub scope: UnitScope,
    /// The human readable description.
    pub description: String,
    /// The unit file path, resolved lazily; resolution itself may fail.
    pub file_path: Option<Result<String, String>>,
    /// Whether the unit file has been loaded successfully.
    pub load_state: String,
    /// What the unit is doing now (`active`, `inactive`, `failed`, ...).
    pub activation_state: String,
    /// A finer-grained, unit-type-specific version of the activation state.
    pub sub_state: String,
    /// Whether the unit starts automatically; populated only when needed.
    pub enablement_state: Option<String>,
}

impl UnitWithStatus {
    pub open spec fn spec_is_active(&self) -> bool {
        self.activation_state@ == "active"@
    }

    pub open spec fn spec_is_failed(&self) -> bool {
        self.activation_state@ == "failed"@
    }

    pub open spec fn spec_is_not_found(&self) -> bool {
        self.load_state@ == "not-found"@
    }

    pub open spec fn spec_is_enabled(&self) -> bool {
        self.load_state@ == "loaded"@ && self.activation_state@ == "active"@
    }

    pub fn is_active(&self) -> (r: bool)
        ensures
            r == self.spec_is_active(),
    {
        str_eq(self.activation_state.as_str(), "active")
    }

    pub fn is_failed(&self) -> (r: bool)
        ensures
            r == self.spec_is_failed(),
    {
        str_eq(self.activation_state.as_str(), "failed")
    }

    pub fn is_not_found(&self) -> (r: bool)
        ensures
            r == self.spec_is_not_found(),
    {
        str_eq(self.load_state.as_str(), "not-found")
    }

    pub fn is_enabled(&self) -> (r: bool)
        ensures
            r == self.spec_is_enabled(),
    {
        str_eq(self.load_state.as_str(), "loaded") && str_eq(self.activation_state.as_str(), "active")
    }

    /// Case-insensitive substring match of a search string (already
    /// lowercased) against the short name.
    pub open spec fn spec_matches_search(&self, search: Seq<char>) -> bool {
        is_substring(lower_of(spec_short_name(self.name@)), lower_of(search))
    }

    /// The unit name without its `.service` suffix, if it has one.
    pub fn short_name<'a>(&'a self) -> (r: &'a str)
        ensures
            r@ == spec_short_name(self.name@),
    {
        let n = self.name.as_str().unicode_len();
        if n >= 8 {
            let suffix = self.name.as_str().substring_char(n - 8, n);
            assert(suffix@ =~= self.name@.skip(n - 8));
            if str_eq(suffix, ".service") {
                let r = self.name.as_str().substring_char(0, n - 8);
                assert(r@ =~= self.name@.take(n - 8));
                return r;
            }
        }
        self.name.as_str()
    }

    /// Whether this unit's short name contains `search`, case-insensitively.
    pub fn matches_search(&self, search: &str) -> (r: bool)
        ensures
            r == self.spec_matches_search(search@),
    {
        let name_lower = crate::strings::lowercase(self.short_name());
        let search_lower = crate::strings::lowercase(search);
        str_contains(name_lower.as_str(), search_lower.as_str())
    }

    /// The identity of this unit.
    pub fn id(&self) -> (r: UnitId)
        ensures
            r == (UnitId { name: self.name, scope: self.scope }),
    {
        UnitId { name: self.name.clone(), scope: self.scope }
    }

    /// True when `other` is a snapshot of the same unit.
    pub fn same_id(&self, other: &UnitId) -> (r: bool)
        ensures
            r == (self.name@ == other.name@ && self.scope == other.scope),
    {
        self.name == other.name && self.scope == other.scope
    }

    /// An equal copy (derived `Clone` carries no specification).
    pub fn duplicate(&self) -> (r: UnitWithStatus)
        ensures
            r == *self,
    {
        UnitWithStatus {
            name: self.name.clone(),
            scope: self.scope,
            description: self.description.clone(),
            file_path: dup_path(&self.file_path),
            load_state: self.load_state.clone(),
            activation_state: self.activation_state.clone(),
            sub_state: self.sub_state.clone(),
            enablement_state: dup_opt_string(&self.enablement_state),
        }
    }

    /// Refresh the status fields from a fresher snapshot while keeping what
    /// the snapshot cannot carry: the cached unit file path and the
    /// enablement state.
    pub fn update(&mut self, other: UnitWithStatus)
        ensures
            final(self).name == old(self).name,
            final(self).scope == old(self).scope,
            final(self).file_path == old(self).file_path,
            final(self).enablement_state == old(self).enablement_state,
            final(self).description == other.description,
            final(self).load_state == other.load_state,
            final(self).activation_state == other.activation_state,
            final(self).sub_state == other.sub_state,
    {
        self.description = other.description;
        self.load_state = other.load_state;
        self.activation_state = other.activation_state;
        self.sub_state = other.sub_state;
    }
}

/// A status snapshot freshly received from the service manager: the lazily
/// resolved fields start out absent.
pub fn to_unit_status(
    name: String,
    description: String,
    load_state: String,
    activation_state: String,
    sub_state: String,
    scope: UnitScope,
) -> (r: UnitWithStatus)
    ensures
        r == (UnitWithStatus {
            name,
            scope,
            description,
            file_path: None::<Result<String, String>>,
            load_state,
            activation_state,
            sub_state,
            enablement_state: None::<String>,
        }),
{
    UnitWithStatus {
        name,
        scope,
        description,
        file_path: None,
        load_state,
        activation_state,
        sub_state,
        enablement_state: None,
    }
}

fn dup_opt_string(o: &Option<String>) -> (r: Option<String>)
    ensures
        r == *o,
{
    match o {
        Some(s) => Some(s.clone()),
        None => None,
    }
}

fn dup_path(o: &Option<Result<String, String>>) -> (r: Option<Result<String, String>>)
    ensures
        r == *o,
{
    match o {
        Some(Ok(s)) => Some(Ok(s.clone())),
        Some(Err(s)) => Some(Err(s.clone())),
        None => None,
    }
}

} // verus!
