//! Resolution of the game jar to launch, and recognition of special jars.
//!
//! Paths are plain strings with `/` separators, relative to whatever base
//! their contract names; the unverified shell joins them onto real
//! directories and performs the existence checks, handing the outcome in as
//! a boolean.

use vstd::prelude::*;
use vstd::string::*;
use crate::text::spec_starts_with;
use crate::text::spec_ends_with;
use crate::text::spec_is_blank;
use crate::text::str_starts_with;
use crate::text::str_ends_with;
use crate::text::str_is_blank;
use crate::text::str_eq;

verus! {

/// What the version's details file says about the version's identity: its
/// identifier, and an optional preferred identifier that overrides it (used
/// by renamed or custom versions).
#[derive(Debug, Clone)]
pub struct VersionDetails {
    pub id: String,
    pub preferred_id: Option<String>,
}

/// The identifier that names the version's jar: the preferred identifier if
/// one is present, the plain identifier otherwise.
pub open spec fn spec_details_id(id: Seq<char>, preferred: Option<Seq<char>>) -> Seq<char> {
    match preferred {
        Some(p) => p,
        None => id,
    }
}

impl VersionDetails {
    /// The identifier that names this version's jar.
    pub fn get_id(&self) -> (r: &str)
        ensures
            r@ == spec_details_id(self.id@, match self.preferred_id {
                Some(ref p) => Some(p@),
                None => None,
            }),
    {
        match &self.preferred_id {
            Some(p) => p.as_str(),
            None => self.id.as_str(),
        }
    }
}

/// The jar of version `id` inside an instance directory:
/// `<instance_dir>/.minecraft/versions/<id>/<id>.jar`.
pub open spec fn spec_version_jar_path(instance_dir: Seq<char>, id: Seq<char>) -> Seq<char> {
    instance_dir + "/.minecraft/versions/"@ + id + "/"@ + id + ".jar"@
}

/// The jar to launch. The resolution order:
/// 1. a custom jar name that is not blank resolves under the launcher's
///    `custom_jars` directory;
/// 2. else an explicit override jar path (such as an installed Optifine
///    jar) is used as given;
/// 3. else the jar named by the details' preferred identifier, if that path
///    exists on disk (`preferred_jar_exists` reports the check), falling
///    back to the jar named by the plain identifier.
pub open spec fn spec_jar_path(
    details_id: Seq<char>,
    details_preferred: Option<Seq<char>>,
    instance_dir: Seq<char>,
    optifine_jar: Option<Seq<char>>,
    custom_jar: Option<Seq<char>>,
    preferred_jar_exists: bool,
) -> Seq<char> {
    if custom_jar matches Some(c) && !spec_is_blank(c) {
        "custom_jars/"@ + custom_jar->0
    } else if optifine_jar matches Some(_) {
        optifine_jar->0
    } else if preferred_jar_exists {
        spec_version_jar_path(instance_dir, spec_details_id(details_id, details_preferred))
    } else {
        spec_version_jar_path(instance_dir, details_id)
    }
}

/// Resolve the jar to launch.
///
/// `instance_dir` is the instance's directory; the result is relative to the
/// launcher directory in the custom-jar case, and otherwise relative to
/// wherever `instance_dir` (or the override jar path) is relative to.
/// `preferred_jar_exists` must report whether the jar named by the details'
/// preferred identifier exists on disk.
pub fn get_jar_path(
    version_json: &VersionDetails,
    instance_dir: &str,
    optifine_jar: Option<&str>,
    custom_jar: Option<&str>,
    preferred_jar_exists: bool,
) -> (r: String)
    ensures
        r@ == spec_jar_path(
            version_json.id@,
            match version_json.preferred_id {
                Some(ref p) => Some(p@),
                None => None,
            },
            instance_dir@,
            match optifine_jar {
                Some(p) => Some(p@),
                None => None,
            },
            match custom_jar {
                Some(c) => Some(c@),
                None => None,
            },
            preferred_jar_exists,
        ),
{
    if let Some(custom_jar_path) = custom_jar {
        if !str_is_blank(custom_jar_path) {
            return String::from_str("custom_jars/").concat(custom_jar_path);
        }
    }
    if let Some(optifine_path) = optifine_jar {
        return optifine_path.to_owned();
    }
    let id = if preferred_jar_exists {
        version_json.get_id()
    } else {
        version_json.id.as_str()
    };
    let r = String::from_str(instance_dir)
        .concat("/.minecraft/versions/")
        .concat(id)
        .concat("/")
        .concat(id)
        .concat(".jar");
    proof {
        assert(r@ =~= spec_version_jar_path(instance_dir@, id@));
    }
    r
}

/// The name of a Forge server's launch jar: `forge-<...>-shim.jar`.
pub open spec fn spec_is_shim_name(s: Seq<char>) -> bool {
    spec_starts_with(s, "forge-"@) && spec_ends_with(s, "-shim.jar"@)
}

/// Does this file name look like a Forge server's launch jar?
pub fn is_forge_shim_name(name: &str) -> (r: bool)
    ensures
        r == spec_is_shim_name(name@),
{
    str_starts_with(name, "forge-") && str_ends_with(name, "-shim.jar")
}

/// Find the launch jar of a Forge server among the file names of its
/// directory: the first name of the shape `forge-<...>-shim.jar`, or `None`
/// if no name matches.
pub fn find_forge_shim_file(names: &Vec<String>) -> (r: Option<String>)
    ensures
        match r {
            Some(n) => exists|i: int|
                0 <= i < names@.len() && names@[i]@ == n@
                    && spec_is_shim_name(#[trigger] names@[i]@)
                    && (forall|j: int| 0 <= j < i ==> !spec_is_shim_name(#[trigger] names@[j]@)),
            None => forall|j: int|
                0 <= j < names@.len() ==> !spec_is_shim_name(#[trigger] names@[j]@),
        },
{
    let mut i: usize = 0;
    while i < names.len()
        invariant
            i <= names@.len(),
            forall|j: int| 0 <= j < i ==> !spec_is_shim_name(#[trigger] names@[j]@),
        decreases names@.len() - i,
    {
        if is_forge_shim_name(names[i].as_str()) {
            return Some(names[i].clone());
        }
        i += 1;
    }
    None
}

/// Versions for which a uniquely packaged Optifine build exists.
#[derive(Debug, Clone, Copy, PartialEq, Eq, Structural)]
pub enum OptifineUniqueVersion {
    V1_5_2,
    V1_2_5,
    B1_7_3,
    B1_6_6,
    Forge,
}

/// Which uniquely packaged Optifine build a version identifier calls for,
/// if any.
pub open spec fn spec_optifine_from_version(v: Seq<char>) -> Option<OptifineUniqueVersion> {
    if v == "1.5.2"@ {
        Some(OptifineUniqueVersion::V1_5_2)
    } else if v == "1.2.5"@ {
        Some(OptifineUniqueVersion::V1_2_5)
    } else if v == "b1.7.3"@ {
        Some(OptifineUniqueVersion::B1_7_3)
    } else if v == "b1.6.6"@ {
        Some(OptifineUniqueVersion::B1_6_6)
    } else {
        None
    }
}

/// The download location of each uniquely packaged Optifine build, and
/// whether it is a direct download (no ad page in between). The Forge
/// variant has no direct location at all.
pub open spec fn spec_optifine_url(v: OptifineUniqueVersion) -> Seq<char> {
    match v {
        OptifineUniqueVersion::V1_5_2 => "https://optifine.net/adloadx?f=OptiFine_1.5.2_HD_U_D5.zip"@,
        OptifineUniqueVersion::V1_2_5 => "https://optifine.net/adloadx?f=OptiFine_1.5.2_HD_U_D2.zip"@,
        OptifineUniqueVersion::B1_7_3 => "https://b2.mcarchive.net/file/mcarchive/47df260a369eb2f79750ec24e4cfd9da93b9aac076f97a1332302974f19e6024/OptiFine_1_7_3_HD_G.zip"@,
        OptifineUniqueVersion::B1_6_6 => "https://optifine.net/adloadx?f=beta_OptiFog_Optimine_1.6.6.zip"@,
        OptifineUniqueVersion::Forge => ""@,
    }
}

impl OptifineUniqueVersion {
    /// Which uniquely packaged Optifine build this version identifier calls
    /// for, if any.
    pub fn from_version(version: &str) -> (r: Option<Self>)
        ensures
            r == spec_optifine_from_version(version@),
    {
        if str_eq(version, "1.5.2") {
            Some(OptifineUniqueVersion::V1_5_2)
        } else if str_eq(version, "1.2.5") {
            Some(OptifineUniqueVersion::V1_2_5)
        } else if str_eq(version, "b1.7.3") {
            Some(OptifineUniqueVersion::B1_7_3)
        } else if str_eq(version, "b1.6.6") {
            Some(OptifineUniqueVersion::B1_6_6)
        } else {
            None
        }
    }

    /// The download location of this build, and whether it is a direct
    /// download. Only the Forge variant has no location, so it is excluded.
    pub fn get_url(&self) -> (r: (&'static str, bool))
        requires
            *self != OptifineUniqueVersion::Forge,
        ensures
            r.0@ == spec_optifine_url(*self),
            r.1 == (*self == OptifineUniqueVersion::B1_7_3),
    {
        match self {
            OptifineUniqueVersion::V1_5_2 => (
                "https://optifine.net/adloadx?f=OptiFine_1.5.2_HD_U_D5.zip",
                false,
            ),
            OptifineUniqueVersion::V1_2_5 => (
                "https://optifine.net/adloadx?f=OptiFine_1.5.2_HD_U_D2.zip",
                false,
            ),
            OptifineUniqueVersion::B1_7_3 => (
                "https://b2.mcarchive.net/file/mcarchive/47df260a369eb2f79750ec24e4cfd9da93b9aac076f97a1332302974f19e6024/OptiFine_1_7_3_HD_G.zip",
                true,
            ),
            OptifineUniqueVersion::B1_6_6 => (
                "https://optifine.net/adloadx?f=beta_OptiFog_Optimine_1.6.6.zip",
                false,
            ),
            OptifineUniqueVersion::Forge => ("", false),
        }
    }
}

} // verus!
