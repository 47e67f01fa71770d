//! Selection of an installed instance and resolution of its on-disk layout.
//!
//! An instance is a self-contained game installation, either a client
//! (`Instance`) or a server (`Server`), identified by name. Paths are
//! resolved relative to the launcher's root directory and use `/` as the
//! separator; the unverified shell joins them onto the real root with the
//! platform's path type.
//!
//! - instance root: `instances/<name>` or `servers/<name>`;
//! - game data root (the `.minecraft` folder): `instances/<name>/.minecraft`
//!   for a client, the instance root itself for a server (servers have no
//!   nested data directory).

use vstd::prelude::*;
use vstd::string::*;
use crate::text::str_eq;

verus! {

/// A chosen instance: a client installation or a server, by name.
#[derive(Debug, Clone, Hash)]
pub enum InstanceSelection {
    Instance(String),
    Server(String),
}

/// The mathematical value of an [`InstanceSelection`].
pub enum InstanceSelectionView {
    Instance(Seq<char>),
    Server(Seq<char>),
}

impl View for InstanceSelection {
    type V = InstanceSelectionView;

    open spec fn view(&self) -> InstanceSelectionView {
        match self {
            InstanceSelection::Instance(n) => InstanceSelectionView::Instance(n@),
            InstanceSelection::Server(n) => InstanceSelectionView::Server(n@),
        }
    }
}

/// The selection's name.
pub open spec fn spec_selection_name(v: InstanceSelectionView) -> Seq<char> {
    match v {
        InstanceSelectionView::Instance(n) => n,
        InstanceSelectionView::Server(n) => n,
    }
}

/// The launcher-side root of the selection, relative to the launcher
/// directory.
pub open spec fn spec_instance_path(v: InstanceSelectionView) -> Seq<char> {
    match v {
        InstanceSelectionView::Instance(n) => "instances/"@ + n,
        InstanceSelectionView::Server(n) => "servers/"@ + n,
    }
}

/// The game data root of the selection, relative to the launcher directory:
/// the nested `.minecraft` folder for a client, the instance root itself for
/// a server.
pub open spec fn spec_dot_minecraft_path(v: InstanceSelectionView) -> Seq<char> {
    match v {
        InstanceSelectionView::Instance(n) => "instances/"@ + n + "/.minecraft"@,
        InstanceSelectionView::Server(n) => "servers/"@ + n,
    }
}

impl InstanceSelection {
    /// Select the instance called `name`, as a server or a client. A name
    /// identifies a directory, so it is never empty.
    pub fn new(name: &str, is_server: bool) -> (r: Self)
        requires
            name@.len() >= 1,
        ensures
            r@ == if is_server {
                InstanceSelectionView::Server(name@)
            } else {
                InstanceSelectionView::Instance(name@)
            },
    {
        if is_server {
            InstanceSelection::Server(name.to_owned())
        } else {
            InstanceSelection::Instance(name.to_owned())
        }
    }

    /// The path where launcher-specific things for this selection are
    /// stored, relative to the launcher directory.
    pub fn get_instance_path(&self) -> (r: String)
        ensures
            r@ == spec_instance_path(self@),
    {
        match self {
            InstanceSelection::Instance(name) => {
                String::from_str("instances/").concat(name.as_str())
            }
            InstanceSelection::Server(name) => {
                String::from_str("servers/").concat(name.as_str())
            }
        }
    }

    /// The path where files used by the game itself are stored (the
    /// `.minecraft` folder), relative to the launcher directory. For a
    /// server this is the instance path itself.
    pub fn get_dot_minecraft_path(&self) -> (r: String)
        ensures
            r@ == spec_dot_minecraft_path(self@),
    {
        match self {
            InstanceSelection::Instance(name) => {
                String::from_str("instances/").concat(name.as_str()).concat("/.minecraft")
            }
            InstanceSelection::Server(name) => {
                String::from_str("servers/").concat(name.as_str())
            }
        }
    }

    /// The selection's name.
    pub fn get_name(&self) -> (r: &str)
        ensures
            r@ == spec_selection_name(self@),
    {
        match self {
            InstanceSelection::Instance(name) => name.as_str(),
            InstanceSelection::Server(name) => name.as_str(),
        }
    }

    /// Is this a server selection?
    pub fn is_server(&self) -> (r: bool)
        ensures
            r == (self@ is Server),
    {
        match self {
            InstanceSelection::Server(_) => true,
            InstanceSelection::Instance(_) => false,
        }
    }

    /// Rename the selection in place, keeping its kind. A name identifies a
    /// directory, so it is never empty.
    pub fn set_name(&mut self, name: &str)
        requires
            name@.len() >= 1,
        ensures
            final(self)@ == match old(self)@ {
                InstanceSelectionView::Instance(_) => InstanceSelectionView::Instance(name@),
                InstanceSelectionView::Server(_) => InstanceSelectionView::Server(name@),
            },
    {
        match self {
            InstanceSelection::Instance(n) => {
                *n = name.to_owned();
            }
            InstanceSelection::Server(n) => {
                *n = name.to_owned();
            }
        }
    }

    /// The selection as a `(name, is_server)` pair.
    pub fn get_pair(&self) -> (r: (&str, bool))
        ensures
            r.0@ == spec_selection_name(self@),
            r.1 == (self@ is Server),
    {
        (self.get_name(), self.is_server())
    }
}

impl PartialEq for InstanceSelection {
    fn eq(&self, other: &Self) -> bool {
        match (self, other) {
            (InstanceSelection::Instance(a), InstanceSelection::Instance(b)) => {
                str_eq(a.as_str(), b.as_str())
            }
            (InstanceSelection::Server(a), InstanceSelection::Server(b)) => {
                str_eq(a.as_str(), b.as_str())
            }
            _ => false,
        }
    }
}

impl Eq for InstanceSelection {}

impl vstd::std_specs::cmp::PartialEqSpecImpl for InstanceSelection {
    open spec fn obeys_eq_spec() -> bool {
        true
    }

    open spec fn eq_spec(&self, other: &Self) -> bool {
        self@ == other@
    }
}

/// For a server, the game data root and the launcher-side instance root are
/// one and the same directory.
pub proof fn lemma_server_paths_coincide(v: InstanceSelectionView)
    requires
        v is Server,
    ensures
        spec_dot_minecraft_path(v) == spec_instance_path(v),
{
}

} // verus!
