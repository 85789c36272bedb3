//! Safe broker for the ChronDB native engine.
//!
//! The native engine is an opaque shared library reached through a C call
//! surface. This crate holds the verified core around that surface: the
//! error taxonomy, the provisioning decisions (where the artifact lives,
//! which platform archive to fetch), argument validation, the translation
//! of native return conventions into typed results, and the registry that
//! shares one worker per resource identity. The process-level plumbing
//! (dynamic loading, threads, channels, file and network I/O) lives in the
//! surrounding application layer and drives these functions.

mod broker;
mod document;
mod error;
mod session;
mod setup;

pub use broker::{
    id_eq, lemma_keep_alive_preserves_workers, lemma_one_worker_per_identity,
    lemma_second_acquire_reuses_worker, resource_identity,
    same_identity, Broker, ReleaseAction, ResourceId, WorkerEntry, FFI_THREAD_STACK_SIZE,
};

pub use document::{json_wf, parse_document, serialize_document};
pub use error::ChronDBError;
pub use session::{
    contains_nul, delete_result, dispatch_command, get_result, history_result, isolate_result,
    last_error_or, lemma_close_idempotent, lemma_missing_result_asymmetry,
    lemma_nul_rejected_before_native, list_by_prefix_result, list_by_table_result, open_result,
    optional_arg, put_command, put_result, query_command, query_result, replay_commands,
    validate_command, validate_open_paths, close_step, CloseActions, Command,
    NativeOutcome, Reply, SessionState,
};
pub use setup::{
    build_download_url, ensure_library_installed, get_lib_name, get_library_dir, get_platform,
    home_lib_dir, library_exists_in_dir, library_path_candidates, library_probe_candidates,
    pick_extracted_dir, require_install_dir, require_platform, version_is_dev, SetupCache,
    TargetArch, TargetOs,
};
