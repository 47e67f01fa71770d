//! Core logic of a game-launcher: instance selection and path resolution,
//! version classification, mod identity, bounded concurrent job scheduling,
//! retry bookkeeping, and mod-loader install orchestration.

mod install;
mod jar;
mod jobs;
mod logs;
mod modid;
mod selection;
mod versions;
mod text;

pub use jobs::JobRunner;
pub use jobs::RetryState;
pub use jobs::lemma_in_flight_bounded;
pub use jobs::lemma_first_error_wins;
pub use jobs::lemma_retry_attempt_ceiling;
pub use jobs::lemma_retry_failure_exhausts;
pub use jobs::DEFAULT_JOB_LIMIT;
pub use jobs::REDUCED_JOB_LIMIT;
pub use jobs::MAX_ATTEMPTS;
pub use modid::StoreBackendType;
pub use modid::ModId;
pub use modid::ModIdView;
pub use modid::SelectedMod;
pub use modid::SelectedModView;
pub use modid::spec_backend;
pub use modid::spec_internal_id;
pub use modid::spec_index_str;
pub use modid::spec_from_index_str;
pub use modid::lemma_index_str_round_trip;
pub use modid::lemma_from_index_str_round_trip;
pub use versions::ListEntryKind;
pub use versions::ListEntry;
pub use versions::spec_guess;
pub use versions::spec_calculate;
pub use versions::spec_is_old;
pub use versions::spec_supports_server;
pub use versions::spec_kind_name;
pub use versions::guess_if_supports_server;
pub use versions::lemma_guess_agrees_with_calculate;
pub use selection::InstanceSelection;
pub use selection::InstanceSelectionView;
pub use selection::spec_selection_name;
pub use selection::spec_instance_path;
pub use selection::spec_dot_minecraft_path;
pub use selection::lemma_server_paths_coincide;
pub use jar::VersionDetails;
pub use jar::spec_details_id;
pub use jar::spec_version_jar_path;
pub use jar::spec_jar_path;
pub use jar::get_jar_path;
pub use jar::spec_is_shim_name;
pub use jar::is_forge_shim_name;
pub use jar::find_forge_shim_file;
pub use jar::OptifineUniqueVersion;
pub use jar::spec_optifine_from_version;
pub use jar::spec_optifine_url;
pub use install::Loader;
pub use install::spec_loader_from_kind;
pub use install::spec_loader_from_config;
pub use install::spec_loader_version_of;
pub use install::spec_install_has_loader_step;
pub use install::GenericProgress;
pub use install::GenericProgressView;
pub use install::LoaderConfig;
pub use install::DefaultInstanceConfig;
pub use install::spec_loader_kind_of;
pub use install::INSTALL_TOTAL;
pub use install::spec_install_events;
pub use install::install_progress_events;
pub use install::install_fetch_event;
pub use install::lemma_install_events_well_shaped;
pub use logs::spec_replace_all;
pub use logs::spec_redact;
pub use logs::replace_all;
pub use logs::redact_line;
pub use text::spec_starts_with;
pub use text::spec_ends_with;
pub use text::spec_lower;
pub use text::spec_lower_char;
pub use text::spec_is_space;
pub use text::spec_is_blank;
pub use text::str_starts_with;
pub use text::str_ends_with;
pub use text::str_contains_char;
pub use text::str_eq;
pub use text::str_is_blank;
pub use text::lower_char;
pub use text::str_eq_ignore_ascii_case;
