//! Identity of a mod across store backends.
//!
//! A mod reference is either a Modrinth id or a Curseforge id, each wrapping
//! an opaque identifier string. The stable external encoding writes Modrinth
//! ids verbatim and Curseforge ids with a `CF:` prefix; parsing checks the
//! `CF:` prefix first.

use vstd::prelude::*;
use vstd::string::*;
use crate::text::spec_starts_with;
use crate::text::str_starts_with;

verus! {

/// Which store a mod comes from.
#[derive(Debug, Clone, Copy, PartialEq, Eq, Structural)]
pub enum StoreBackendType {
    Modrinth,
    Curseforge,
}

/// A mod's identity: the backend it comes from and its identifier there.
#[derive(Debug, Clone, Hash)]
pub enum ModId {
    Modrinth(String),
    Curseforge(String),
}

/// The mathematical value of a [`ModId`]: the same two variants over
/// character sequences.
pub enum ModIdView {
    Modrinth(Seq<char>),
    Curseforge(Seq<char>),
}

impl View for ModId {
    type V = ModIdView;

    open spec fn view(&self) -> ModIdView {
        match self {
            ModId::Modrinth(n) => ModIdView::Modrinth(n@),
            ModId::Curseforge(n) => ModIdView::Curseforge(n@),
        }
    }
}

/// The backend a mod id belongs to.
pub open spec fn spec_backend(v: ModIdView) -> StoreBackendType {
    match v {
        ModIdView::Modrinth(_) => StoreBackendType::Modrinth,
        ModIdView::Curseforge(_) => StoreBackendType::Curseforge,
    }
}

/// The identifier string inside a mod id, without any encoding.
pub open spec fn spec_internal_id(v: ModIdView) -> Seq<char> {
    match v {
        ModIdView::Modrinth(n) => n,
        ModIdView::Curseforge(n) => n,
    }
}

/// The external encoding of a mod id: Modrinth ids verbatim, Curseforge ids
/// behind a `CF:` prefix.
pub open spec fn spec_index_str(v: ModIdView) -> Seq<char> {
    match v {
        ModIdView::Modrinth(n) => n,
        ModIdView::Curseforge(n) => "CF:"@ + n,
    }
}

/// Parsing of the external encoding: a `CF:` prefix marks a Curseforge id
/// and is stripped; anything else is a Modrinth id.
pub open spec fn spec_from_index_str(s: Seq<char>) -> ModIdView {
    if spec_starts_with(s, "CF:"@) {
        ModIdView::Curseforge(s.subrange("CF:"@.len() as int, s.len() as int))
    } else {
        ModIdView::Modrinth(s)
    }
}

impl ModId {
    /// The identifier string inside this mod id, without any encoding.
    pub fn get_internal_id(&self) -> (r: &str)
        ensures
            r@ == spec_internal_id(self@),
    {
        match self {
            ModId::Modrinth(n) => n.as_str(),
            ModId::Curseforge(n) => n.as_str(),
        }
    }

    /// The external encoding of this mod id.
    pub fn get_index_str(&self) -> (r: String)
        ensures
            r@ == spec_index_str(self@),
    {
        match self {
            ModId::Modrinth(n) => n.clone(),
            ModId::Curseforge(n) => String::from_str("CF:").concat(n.as_str()),
        }
    }

    /// The backend this mod id belongs to.
    pub fn get_backend(&self) -> (r: StoreBackendType)
        ensures
            r == spec_backend(self@),
    {
        match self {
            ModId::Modrinth(_) => StoreBackendType::Modrinth,
            ModId::Curseforge(_) => StoreBackendType::Curseforge,
        }
    }

    /// Parse the external encoding: a `CF:` prefix marks a Curseforge id and
    /// is stripped; anything else is taken as a Modrinth id.
    pub fn from_index_str(n: &str) -> (r: Self)
        ensures
            r@ == spec_from_index_str(n@),
    {
        if str_starts_with(n, "CF:") {
            proof {
                reveal_strlit("CF:");
            }
            let len = n.unicode_len();
            let rest = n.substring_char(3, len);
            ModId::Curseforge(rest.to_owned())
        } else {
            ModId::Modrinth(n.to_owned())
        }
    }

    /// Build a mod id from an identifier string and a backend.
    pub fn from_pair(n: &str, t: StoreBackendType) -> (r: Self)
        ensures
            spec_backend(r@) == t,
            spec_internal_id(r@) == n@,
    {
        match t {
            StoreBackendType::Modrinth => ModId::Modrinth(n.to_owned()),
            StoreBackendType::Curseforge => ModId::Curseforge(n.to_owned()),
        }
    }

    /// Split a mod id into its identifier string and its backend.
    pub fn to_pair(self) -> (r: (String, StoreBackendType))
        ensures
            r.0@ == spec_internal_id(self@),
            r.1 == spec_backend(self@),
    {
        let backend = match &self {
            ModId::Modrinth(_) => StoreBackendType::Modrinth,
            ModId::Curseforge(_) => StoreBackendType::Curseforge,
        };
        match self {
            ModId::Modrinth(n) => (n, backend),
            ModId::Curseforge(n) => (n, backend),
        }
    }
}

impl PartialEq for ModId {
    fn eq(&self, other: &Self) -> bool {
        match (self, other) {
            (ModId::Modrinth(a), ModId::Modrinth(b)) => crate::text::str_eq(a.as_str(), b.as_str()),
            (ModId::Curseforge(a), ModId::Curseforge(b)) => crate::text::str_eq(a.as_str(), b.as_str()),
            _ => false,
        }
    }
}

impl Eq for ModId {}

impl vstd::std_specs::cmp::PartialEqSpecImpl for ModId {
    open spec fn obeys_eq_spec() -> bool {
        true
    }

    open spec fn eq_spec(&self, other: &Self) -> bool {
        self@ == other@
    }
}

/// Encoding then parsing gives the mod id back, for every Curseforge id and
/// for every Modrinth id that does not itself begin with the reserved `CF:`
/// prefix (such an id's encoding is indistinguishable from a Curseforge one).
pub proof fn lemma_index_str_round_trip(v: ModIdView)
    requires
        v is Modrinth ==> !spec_starts_with(spec_internal_id(v), "CF:"@),
    ensures
        spec_from_index_str(spec_index_str(v)) == v,
{
    reveal_strlit("CF:");
    match v {
        ModIdView::Modrinth(_) => {
        }
        ModIdView::Curseforge(n) => {
            let s = "CF:"@ + n;
            assert(s.subrange(0, 3) =~= "CF:"@);
            assert(s.subrange(3, s.len() as int) =~= n);
        }
    }
}

/// Parsing then encoding gives the string back: the external encoding is a
/// left inverse of parsing on every string.
pub proof fn lemma_from_index_str_round_trip(s: Seq<char>)
    ensures
        spec_index_str(spec_from_index_str(s)) == s,
{
    reveal_strlit("CF:");
    if spec_starts_with(s, "CF:"@) {
        assert("CF:"@ + s.subrange(3, s.len() as int) =~= s);
    }
}

/// A mod chosen in the mod list: either one downloaded from a store (with a
/// known backend identity) or a file placed into the mods folder by hand.
#[derive(Debug, Clone, Hash)]
pub enum SelectedMod {
    Downloaded { name: String, id: ModId },
    Local { file_name: String },
}

/// The mathematical value of a [`SelectedMod`].
pub enum SelectedModView {
    Downloaded { name: Seq<char>, id: ModIdView },
    Local { file_name: Seq<char> },
}

impl View for SelectedMod {
    type V = SelectedModView;

    open spec fn view(&self) -> SelectedModView {
        match self {
            SelectedMod::Downloaded { name, id } => SelectedModView::Downloaded {
                name: name@,
                id: id@,
            },
            SelectedMod::Local { file_name } => SelectedModView::Local {
                file_name: file_name@,
            },
        }
    }
}

impl SelectedMod {
    /// Pair a display name with an optional backend identity: with an id the
    /// mod counts as downloaded, without one the name is taken as the file
    /// name of a local mod.
    pub fn from_pair(name: String, id: Option<ModId>) -> (r: Self)
        ensures
            match id {
                Some(i) => r@ == (SelectedModView::Downloaded { name: name@, id: i@ }),
                None => r@ == (SelectedModView::Local { file_name: name@ }),
            },
    {
        match id {
            Some(id) => SelectedMod::Downloaded { name, id },
            None => SelectedMod::Local { file_name: name },
        }
    }
}

impl PartialEq for SelectedMod {
    fn eq(&self, other: &Self) -> bool {
        match (self, other) {
            (
                SelectedMod::Downloaded { name: a, id: i },
                SelectedMod::Downloaded { name: b, id: j },
            ) => crate::text::str_eq(a.as_str(), b.as_str()) && *i == *j,
            (
                SelectedMod::Local { file_name: a },
                SelectedMod::Local { file_name: b },
            ) => crate::text::str_eq(a.as_str(), b.as_str()),
            _ => false,
        }
    }
}

impl Eq for SelectedMod {}

impl vstd::std_specs::cmp::PartialEqSpecImpl for SelectedMod {
    open spec fn obeys_eq_spec() -> bool {
        true
    }

    open spec fn eq_spec(&self, other: &Self) -> bool {
        self@ == other@
    }
}

} // verus!
