//! Orchestration of creating an instance from a remote template and
//! installing its mod loader, observable through progress events.
//!
//! The fetch itself, the creation of game files and the loader installer are
//! outside collaborators; this module fixes the order of the steps, the
//! progress events each step posts, and the decision which loader (if any)
//! to install. The unverified shell performs the steps in the order given
//! here and forwards each event to the optional observer.

use vstd::prelude::*;
use vstd::string::*;
use crate::text::spec_lower;
use crate::text::str_eq_ignore_ascii_case;
use crate::versions::ListEntry;
use crate::versions::spec_calculate;
use crate::versions::spec_supports_server;

verus! {

/// A mod-loading framework that can be installed into an instance.
#[derive(Debug, Clone, Copy, PartialEq, Eq, Structural)]
pub enum Loader {
    Vanilla,
    Fabric,
    Forge,
    Quilt,
    Neoforge,
}

/// The loader a declared kind string names, compared without regard to
/// ASCII case; anything unrecognized means no loader (vanilla).
pub open spec fn spec_loader_from_kind(kind: Seq<char>) -> Loader {
    if spec_lower(kind) == spec_lower("fabric"@) {
        Loader::Fabric
    } else if spec_lower(kind) == spec_lower("forge"@) {
        Loader::Forge
    } else if spec_lower(kind) == spec_lower("quilt"@) {
        Loader::Quilt
    } else if spec_lower(kind) == spec_lower("neoforge"@) {
        Loader::Neoforge
    } else {
        Loader::Vanilla
    }
}

/// The loader a persisted instance configuration names. Unlike the remote
/// template's declared kind, the persisted value is the loader's exact
/// name, and anything else is malformed rather than vanilla.
pub open spec fn spec_loader_from_config(kind: Seq<char>) -> Option<Loader> {
    if kind == "Vanilla"@ {
        Some(Loader::Vanilla)
    } else if kind == "Fabric"@ {
        Some(Loader::Fabric)
    } else if kind == "Forge"@ {
        Some(Loader::Forge)
    } else if kind == "Quilt"@ {
        Some(Loader::Quilt)
    } else if kind == "Neoforge"@ {
        Some(Loader::Neoforge)
    } else {
        None
    }
}

impl Loader {
    /// The loader a persisted instance configuration names: the loader's
    /// exact name, or nothing for a malformed value.
    pub fn from_config_str(kind: &str) -> (r: Option<Loader>)
        ensures
            r == spec_loader_from_config(kind@),
    {
        if crate::text::str_eq(kind, "Vanilla") {
            Some(Loader::Vanilla)
        } else if crate::text::str_eq(kind, "Fabric") {
            Some(Loader::Fabric)
        } else if crate::text::str_eq(kind, "Forge") {
            Some(Loader::Forge)
        } else if crate::text::str_eq(kind, "Quilt") {
            Some(Loader::Quilt)
        } else if crate::text::str_eq(kind, "Neoforge") {
            Some(Loader::Neoforge)
        } else {
            None
        }
    }

    /// The loader a declared kind string names, without regard to ASCII
    /// case; anything unrecognized maps to vanilla.
    pub fn from_kind_str(kind: &str) -> (r: Loader)
        ensures
            r == spec_loader_from_kind(kind@),
    {
        if str_eq_ignore_ascii_case(kind, "fabric") {
            Loader::Fabric
        } else if str_eq_ignore_ascii_case(kind, "forge") {
            Loader::Forge
        } else if str_eq_ignore_ascii_case(kind, "quilt") {
            Loader::Quilt
        } else if str_eq_ignore_ascii_case(kind, "neoforge") {
            Loader::Neoforge
        } else {
            Loader::Vanilla
        }
    }
}

/// One progress event of a long-running job: how much is done out of how
/// much in all, an optional message, and whether this event closes the job.
#[derive(Debug, Clone)]
pub struct GenericProgress {
    pub done: usize,
    pub total: usize,
    pub message: Option<String>,
    pub has_finished: bool,
}

/// The mathematical value of a [`GenericProgress`].
pub struct GenericProgressView {
    pub done: int,
    pub total: int,
    pub message: Option<Seq<char>>,
    pub has_finished: bool,
}

impl View for GenericProgress {
    type V = GenericProgressView;

    open spec fn view(&self) -> GenericProgressView {
        GenericProgressView {
            done: self.done as int,
            total: self.total as int,
            message: match self.message {
                Some(ref m) => Some(m@),
                None => None,
            },
            has_finished: self.has_finished,
        }
    }
}

/// The loader section of a remote instance template: the declared kind
/// string and an optional version (none meaning the latest).
#[derive(Debug, Clone)]
pub struct LoaderConfig {
    pub kind: String,
    pub version: Option<String>,
}

/// A remote instance template: the instance's name, its game version with
/// the catalog's declared type, and an optional loader section.
#[derive(Debug, Clone)]
pub struct DefaultInstanceConfig {
    pub name: String,
    pub version: String,
    pub version_type: String,
    pub loader: Option<LoaderConfig>,
}

/// The declared loader kind of a template, if a loader section is present.
pub open spec fn spec_loader_kind_of(c: &DefaultInstanceConfig) -> Option<Seq<char>> {
    match c.loader {
        Some(ref lc) => Some(lc.kind@),
        None => None,
    }
}

/// The loader version a template asks for, if its loader section names one
/// (none means the latest).
pub open spec fn spec_loader_version_of(c: &DefaultInstanceConfig) -> Option<Seq<char>> {
    match c.loader {
        Some(ref lc) => match lc.version {
            Some(ref v) => Some(v@),
            None => None,
        },
        None => None,
    }
}

/// Does an installation driven by a template with this declared loader kind
/// include a loader-install step? Only when a section is present and its
/// kind names a loader other than vanilla.
pub open spec fn spec_install_has_loader_step(loader_kind: Option<Seq<char>>) -> bool {
    match loader_kind {
        Some(k) => spec_loader_from_kind(k) != Loader::Vanilla,
        None => false,
    }
}

impl DefaultInstanceConfig {
    /// The catalog entry of the template's game version, classified from
    /// the identifier and the declared type.
    pub fn version_entry(&self) -> (r: ListEntry)
        ensures
            r.name@ == self.version@,
            r.kind == spec_calculate(self.version@, self.version_type@),
            r.supports_server == spec_supports_server(self.version@),
    {
        ListEntry::with_kind(self.version.clone(), self.version_type.as_str())
    }

    /// The loader to install for this template, with the version the
    /// section asks for (none meaning the latest): the loader its section
    /// names, unless there is no section or the kind is unrecognized or
    /// names vanilla — then nothing is to be installed.
    pub fn loader_to_install(&self) -> (r: Option<(Loader, Option<String>)>)
        ensures
            (r is Some) == spec_install_has_loader_step(spec_loader_kind_of(self)),
            r matches Some(p) ==> {
                &&& match spec_loader_kind_of(self) {
                    Some(k) => p.0 == spec_loader_from_kind(k),
                    None => false,
                }
                &&& (match p.1 {
                    Some(ref v) => Some(v@),
                    None => None,
                }) == spec_loader_version_of(self)
            },
    {
        match &self.loader {
            None => None,
            Some(lc) => {
                let l = Loader::from_kind_str(lc.kind.as_str());
                if l == Loader::Vanilla {
                    None
                } else {
                    Some((l, lc.version.clone()))
                }
            }
        }
    }
}

/// How many steps an instance installation reports progress out of.
pub const INSTALL_TOTAL: usize = 3;

/// The progress events an installation posts, in order: one before fetching
/// the template, one before creating the instance, one before installing
/// the loader (only when the template names a loader other than vanilla, so
/// that an install really follows), and a closing one.
pub open spec fn spec_install_events(
    name: Seq<char>,
    loader_kind: Option<Seq<char>>,
) -> Seq<GenericProgressView> {
    let head = seq![
        GenericProgressView {
            done: 0,
            total: 3,
            message: Some("Fetching instance config..."@),
            has_finished: false,
        },
        GenericProgressView {
            done: 1,
            total: 3,
            message: Some("Creating instance '"@ + name + "'..."@),
            has_finished: false,
        },
    ];
    let mid = match loader_kind {
        Some(k) => if spec_loader_from_kind(k) != Loader::Vanilla {
            seq![
                GenericProgressView {
                    done: 2,
                    total: 3,
                    message: Some("Installing "@ + k + " loader..."@),
                    has_finished: false,
                },
            ]
        } else {
            Seq::empty()
        },
        None => Seq::empty(),
    };
    let tail = seq![
        GenericProgressView {
            done: 3,
            total: 3,
            message: Some("Done!"@),
            has_finished: true,
        },
    ];
    head + mid + tail
}

/// The first progress event of any installation, posted before the template
/// has been fetched (and so before the rest of the sequence is known).
pub fn install_fetch_event() -> (r: GenericProgress)
    ensures
        forall|name: Seq<char>, loader_kind: Option<Seq<char>>|
            r@ == #[trigger] spec_install_events(name, loader_kind)[0],
{
    GenericProgress {
        done: 0,
        total: INSTALL_TOTAL,
        message: Some(String::from_str("Fetching instance config...")),
        has_finished: false,
    }
}

/// The progress events an installation driven by `config` posts, in order.
pub fn install_progress_events(config: &DefaultInstanceConfig) -> (r: Vec<GenericProgress>)
    ensures
        r@.map_values(|e: GenericProgress| e@)
            == spec_install_events(config.name@, spec_loader_kind_of(config)),
{
    let mut r: Vec<GenericProgress> = Vec::new();
    r.push(GenericProgress {
        done: 0,
        total: INSTALL_TOTAL,
        message: Some(String::from_str("Fetching instance config...")),
        has_finished: false,
    });
    r.push(GenericProgress {
        done: 1,
        total: INSTALL_TOTAL,
        message: Some(
            String::from_str("Creating instance '").concat(config.name.as_str()).concat("'..."),
        ),
        has_finished: false,
    });
    if let Some(lc) = &config.loader {
        if Loader::from_kind_str(lc.kind.as_str()) != Loader::Vanilla {
            r.push(GenericProgress {
                done: 2,
                total: INSTALL_TOTAL,
                message: Some(
                    String::from_str("Installing ").concat(lc.kind.as_str()).concat(" loader..."),
                ),
                has_finished: false,
            });
        }
    }
    r.push(GenericProgress {
        done: 3,
        total: INSTALL_TOTAL,
        message: Some(String::from_str("Done!")),
        has_finished: true,
    });
    proof {
        assert(r@.map_values(|e: GenericProgress| e@)
            =~= spec_install_events(config.name@, spec_loader_kind_of(config)));
    }
    r
}

/// The progress contract of an installation: `done` counts are monotone and
/// never exceed the fixed total, every event reports the same total, only
/// the last event closes the job, and it does so exactly at `done == total`.
pub proof fn lemma_install_events_well_shaped(name: Seq<char>, loader_kind: Option<Seq<char>>)
    ensures
        spec_install_events(name, loader_kind).len()
            == if spec_install_has_loader_step(loader_kind) {
            4int
        } else {
            3int
        },
        forall|i: int, j: int|
            0 <= i <= j < spec_install_events(name, loader_kind).len()
                ==> spec_install_events(name, loader_kind)[i].done
                <= spec_install_events(name, loader_kind)[j].done,
        forall|i: int|
            0 <= i < spec_install_events(name, loader_kind).len()
                ==> (#[trigger] spec_install_events(name, loader_kind)[i]).total == 3
                && spec_install_events(name, loader_kind)[i].done <= 3,
        spec_install_events(name, loader_kind).last().has_finished,
        spec_install_events(name, loader_kind).last().done == 3,
        forall|i: int|
            0 <= i < spec_install_events(name, loader_kind).len() - 1
                ==> !(#[trigger] spec_install_events(name, loader_kind)[i]).has_finished,
{
}

} // verus!
