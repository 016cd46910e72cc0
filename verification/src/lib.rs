mod config;
mod errors;
mod init;
mod pipeline;
mod reconcile;
mod store;
mod watch;

pub use config::{
    clone_contract_spec, resolve_environment, workspace_has_contract, ContractSpec,
    ContractSpecView, Environment, EnvironmentSection, MutationPolicy, NetworkDescriptor,
    NetworkDescriptorView, WorkspaceContract, WorkspaceContractView,
};
pub use init::{
    copy_example_contracts, copy_file, copy_file_model, default_contract_dir,
    default_project_name, example_contract_dir, first_quote, frontend_template, join_path, joined,
    path_exists_in, rename_cargo_toml_remove, sdk_match_len, sdk_pattern_prefix, sdk_replaced,
    sdk_replacement, toml_well_formed, update_workspace_cargo_toml, Cmd, EmbeddedFileEntry,
    EmbeddedFileEntryView, FileAction, FileActionView, InitError, InitErrorView,
};
pub use pipeline::{
    client_import_path, client_package_path, commit_contract, contract_steps,
    contracts_to_process, exit_code, lemma_idempotent_rerun, lemma_name_le_refl,
    lemma_name_le_total, lemma_name_le_trans, lemma_pinned_plan_bypasses_deploy,
    lemma_policy_failure_writes_nothing, lemma_skip_steps_deploy_nothing, name_le,
    ordered_contracts_to_process, plan_model, planned_steps, run_failed, should_persist,
    should_persist_model, sorted_by_name, steps_model, with_client, ContractReport, StepKind,
};
pub use reconcile::{
    alias_model, deployment_record, lemma_no_record_installs, lemma_pinned_id_decides,
    lemma_policy_refuses_silent_redeploy, lemma_unchanged_fingerprint_skips, needs_build,
    opt_rec_view, opt_str_view, reconcile_contract, reconcile_model, resolve_alias,
    ContractAction, ContractActionView,
};
pub use store::{
    clone_record, entry_matches, stored_at, FingerprintRecord, FingerprintRecordView,
    FingerprintStore, StoreEntry, StoreEntryView,
};
pub use errors::{
    contract_failure_message, policy_error_message, unknown_contract_message,
    unknown_environment_message, BuildError, ConfigError, ContractFailure, DeployError,
    NetworkError, PolicyError,
};
pub use watch::{
    effective_rpc_url, lemma_early_timer_is_ignored, lemma_no_concurrent_builds,
    lemma_only_cancel_stops, lemma_two_edits_one_build, probe_step, watch_model, watch_step,
    ChangeKind, HealthProbe, ProbeDirective, WatchDirective, WatchEvent, WatchPhase, WatchState,
};
