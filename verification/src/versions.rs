//! Version catalog entries and their classification.
//!
//! The category of a version is a pure function of its identifier string and,
//! when a catalog supplies one, its declared type string. Classification runs
//! in two modes: `calculate` consults the declared type, `guess` works from
//! the identifier alone and is used when no authoritative type is known.

use vstd::prelude::*;
use vstd::string::*;
use crate::text::spec_starts_with;
use crate::text::str_starts_with;
use crate::text::str_contains_char;
use crate::text::str_eq;

verus! {

/// The category of a version catalog entry.
#[derive(Debug, Clone, Copy, PartialEq, Eq, Hash, Structural)]
pub enum ListEntryKind {
    Release,
    Snapshot,
    Preclassic,
    Classic,
    Indev,
    Infdev,
    Alpha,
    Beta,
    AprilFools,
    Special,
}

/// Classification from the identifier alone: the fixed prefix rules in
/// priority order, then the snapshot heuristic (an identifier containing
/// `w`), then release.
pub open spec fn spec_guess(id: Seq<char>) -> ListEntryKind {
    if spec_starts_with(id, "b1."@) {
        ListEntryKind::Beta
    } else if spec_starts_with(id, "a1."@) {
        ListEntryKind::Alpha
    } else if spec_starts_with(id, "inf-"@) {
        ListEntryKind::Infdev
    } else if spec_starts_with(id, "in-"@) {
        ListEntryKind::Indev
    } else if spec_starts_with(id, "pc-"@) {
        ListEntryKind::Preclassic
    } else if spec_starts_with(id, "c0."@) {
        ListEntryKind::Classic
    } else if id.contains('w') {
        ListEntryKind::Snapshot
    } else {
        ListEntryKind::Release
    }
}

/// Classification from the identifier and a declared type: a declared
/// `special` or `april-fools` wins, then the same prefix rules as guessing,
/// then a declared `snapshot`, then release.
pub open spec fn spec_calculate(id: Seq<char>, ty: Seq<char>) -> ListEntryKind {
    if ty == "special"@ {
        ListEntryKind::Special
    } else if ty == "april-fools"@ {
        ListEntryKind::AprilFools
    } else if spec_starts_with(id, "b1."@) {
        ListEntryKind::Beta
    } else if spec_starts_with(id, "a1."@) {
        ListEntryKind::Alpha
    } else if spec_starts_with(id, "inf-"@) {
        ListEntryKind::Infdev
    } else if spec_starts_with(id, "in-"@) {
        ListEntryKind::Indev
    } else if spec_starts_with(id, "pc-"@) {
        ListEntryKind::Preclassic
    } else if spec_starts_with(id, "c0."@) {
        ListEntryKind::Classic
    } else if ty == "snapshot"@ {
        ListEntryKind::Snapshot
    } else {
        ListEntryKind::Release
    }
}

/// The categories of versions that predate the modern era.
pub open spec fn spec_is_old(k: ListEntryKind) -> bool {
    match k {
        ListEntryKind::Alpha => true,
        ListEntryKind::Beta => true,
        ListEntryKind::Classic => true,
        ListEntryKind::Preclassic => true,
        ListEntryKind::Indev => true,
        ListEntryKind::Infdev => true,
        _ => false,
    }
}

/// Whether a version is expected to have a server counterpart: every
/// category but the in-development ones (pre-classic, indev, infdev), which
/// never shipped server builds.
pub open spec fn spec_supports_server(id: Seq<char>) -> bool {
    match spec_guess(id) {
        ListEntryKind::Preclassic => false,
        ListEntryKind::Indev => false,
        ListEntryKind::Infdev => false,
        _ => true,
    }
}

impl ListEntryKind {
    /// Classify a version from its identifier alone (no declared type is
    /// available); falls back to release rather than failing.
    pub fn guess(id: &str) -> (k: ListEntryKind)
        ensures
            k == spec_guess(id@),
    {
        if str_starts_with(id, "b1.") {
            ListEntryKind::Beta
        } else if str_starts_with(id, "a1.") {
            ListEntryKind::Alpha
        } else if str_starts_with(id, "inf-") {
            ListEntryKind::Infdev
        } else if str_starts_with(id, "in-") {
            ListEntryKind::Indev
        } else if str_starts_with(id, "pc-") {
            ListEntryKind::Preclassic
        } else if str_starts_with(id, "c0.") {
            ListEntryKind::Classic
        } else if str_contains_char(id, 'w') {
            ListEntryKind::Snapshot
        } else {
            ListEntryKind::Release
        }
    }

    /// Classify a version from its identifier and the type string a catalog
    /// declared for it.
    pub fn calculate(id: &str, ty: &str) -> (k: ListEntryKind)
        ensures
            k == spec_calculate(id@, ty@),
    {
        if str_eq(ty, "special") {
            ListEntryKind::Special
        } else if str_eq(ty, "april-fools") {
            ListEntryKind::AprilFools
        } else if str_starts_with(id, "b1.") {
            ListEntryKind::Beta
        } else if str_starts_with(id, "a1.") {
            ListEntryKind::Alpha
        } else if str_starts_with(id, "inf-") {
            ListEntryKind::Infdev
        } else if str_starts_with(id, "in-") {
            ListEntryKind::Indev
        } else if str_starts_with(id, "pc-") {
            ListEntryKind::Preclassic
        } else if str_starts_with(id, "c0.") {
            ListEntryKind::Classic
        } else if str_eq(ty, "snapshot") {
            ListEntryKind::Snapshot
        } else {
            ListEntryKind::Release
        }
    }

    /// Is this an "old" version category?
    pub fn is_old(&self) -> (r: bool)
        ensures
            r == spec_is_old(*self),
    {
        match self {
            ListEntryKind::Alpha
            | ListEntryKind::Beta
            | ListEntryKind::Classic
            | ListEntryKind::Preclassic
            | ListEntryKind::Indev
            | ListEntryKind::Infdev => true,
            _ => false,
        }
    }

    /// The categories selected by default: every one but snapshots and
    /// special versions, in the order the category picker lists them.
    pub fn default_selected() -> (r: Vec<ListEntryKind>)
        ensures
            r@ == seq![
                ListEntryKind::Release,
                ListEntryKind::Beta,
                ListEntryKind::Alpha,
                ListEntryKind::Infdev,
                ListEntryKind::Indev,
                ListEntryKind::Classic,
                ListEntryKind::Preclassic,
                ListEntryKind::AprilFools,
            ],
            forall|k: ListEntryKind| #[trigger] r@.contains(k)
                <==> (k != ListEntryKind::Snapshot && k != ListEntryKind::Special),
    {
        let mut v: Vec<ListEntryKind> = Vec::new();
        v.push(ListEntryKind::Release);
        v.push(ListEntryKind::Beta);
        v.push(ListEntryKind::Alpha);
        v.push(ListEntryKind::Infdev);
        v.push(ListEntryKind::Indev);
        v.push(ListEntryKind::Classic);
        v.push(ListEntryKind::Preclassic);
        v.push(ListEntryKind::AprilFools);
        proof {
            assert forall|k: ListEntryKind| #[trigger] v@.contains(k)
                implies (k != ListEntryKind::Snapshot && k != ListEntryKind::Special) by {
                let i = choose|i: int| 0 <= i < v@.len() && v@[i] == k;
            }
            assert forall|k: ListEntryKind|
                k != ListEntryKind::Snapshot && k != ListEntryKind::Special
                implies #[trigger] v@.contains(k) by {
                match k {
                    ListEntryKind::Release => assert(v@[0] == k),
                    ListEntryKind::Beta => assert(v@[1] == k),
                    ListEntryKind::Alpha => assert(v@[2] == k),
                    ListEntryKind::Infdev => assert(v@[3] == k),
                    ListEntryKind::Indev => assert(v@[4] == k),
                    ListEntryKind::Classic => assert(v@[5] == k),
                    ListEntryKind::Preclassic => assert(v@[6] == k),
                    ListEntryKind::AprilFools => assert(v@[7] == k),
                    _ => assert(false),
                }
            }
        }
        v
    }

    /// The category's human-readable name.
    pub fn display_name(&self) -> (r: String)
        ensures
            r@ == spec_kind_name(*self),
    {
        match self {
            ListEntryKind::Release => String::from_str("Release"),
            ListEntryKind::Snapshot => String::from_str("Snapshot"),
            ListEntryKind::Preclassic => String::from_str("Pre-classic"),
            ListEntryKind::Classic => String::from_str("Classic"),
            ListEntryKind::Indev => String::from_str("Indev"),
            ListEntryKind::Infdev => String::from_str("Infdev"),
            ListEntryKind::Alpha => String::from_str("Alpha"),
            ListEntryKind::Beta => String::from_str("Beta"),
            ListEntryKind::AprilFools => String::from_str("April Fools"),
            ListEntryKind::Special => String::from_str("Special"),
        }
    }
}

/// The human-readable name of each version category.
pub open spec fn spec_kind_name(k: ListEntryKind) -> Seq<char> {
    match k {
        ListEntryKind::Release => "Release"@,
        ListEntryKind::Snapshot => "Snapshot"@,
        ListEntryKind::Preclassic => "Pre-classic"@,
        ListEntryKind::Classic => "Classic"@,
        ListEntryKind::Indev => "Indev"@,
        ListEntryKind::Infdev => "Infdev"@,
        ListEntryKind::Alpha => "Alpha"@,
        ListEntryKind::Beta => "Beta"@,
        ListEntryKind::AprilFools => "April Fools"@,
        ListEntryKind::Special => "Special"@,
    }
}

/// Whether a version is expected to have a server counterpart, judged from
/// its identifier.
pub fn guess_if_supports_server(id: &str) -> (r: bool)
    ensures
        r == spec_supports_server(id@),
{
    match ListEntryKind::guess(id) {
        ListEntryKind::Preclassic | ListEntryKind::Indev | ListEntryKind::Infdev => false,
        _ => true,
    }
}

/// A version catalog entry: the identifier, whether a server build is
/// expected to exist, and the entry's category.
#[derive(Debug, Clone)]
pub struct ListEntry {
    pub name: String,
    pub supports_server: bool,
    pub kind: ListEntryKind,
}

impl ListEntry {
    /// An entry for a version known only by its identifier: the category is
    /// guessed from the identifier.
    pub fn new(name: String) -> (r: Self)
        ensures
            r.name@ == name@,
            r.kind == spec_guess(name@),
            r.supports_server == spec_supports_server(name@),
    {
        let kind = ListEntryKind::guess(name.as_str());
        let supports_server = guess_if_supports_server(name.as_str());
        ListEntry { name, supports_server, kind }
    }

    /// An entry for a version whose catalog declared a type string: the
    /// category is calculated from both.
    pub fn with_kind(name: String, ty: &str) -> (r: Self)
        ensures
            r.name@ == name@,
            r.kind == spec_calculate(name@, ty@),
            r.supports_server == spec_supports_server(name@),
    {
        let kind = ListEntryKind::calculate(name.as_str(), ty);
        let supports_server = guess_if_supports_server(name.as_str());
        ListEntry { name, supports_server, kind }
    }
}

impl PartialEq for ListEntry {
    fn eq(&self, other: &Self) -> bool {
        str_eq(self.name.as_str(), other.name.as_str())
            && self.supports_server == other.supports_server
            && self.kind == other.kind
    }
}

impl vstd::std_specs::cmp::PartialEqSpecImpl for ListEntry {
    open spec fn obeys_eq_spec() -> bool {
        true
    }

    open spec fn eq_spec(&self, other: &Self) -> bool {
        self.name@ == other.name@ && self.supports_server == other.supports_server
            && self.kind == other.kind
    }
}

/// In guess mode, a declared-type override can never appear: guessing an
/// identifier agrees with calculating it against a declared type that is
/// neither `special`, `april-fools` nor `snapshot`.
pub proof fn lemma_guess_agrees_with_calculate(id: Seq<char>, ty: Seq<char>)
    requires
        ty != "special"@,
        ty != "april-fools"@,
        ty != "snapshot"@,
        !id.contains('w'),
    ensures
        spec_guess(id) == spec_calculate(id, ty),
{
}

} // verus!
