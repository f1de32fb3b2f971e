//! Live reconfiguration of a long-running service.
//!
//! The library holds the configuration model, the store that keeps the one
//! live configuration snapshot, and the reload coordinator: the state machine
//! that every reload request, whether raised by a file change or by an
//! external signal, goes through. Reading files, parsing TOML, watching the
//! file system and listening for signals are left to the program around it,
//! which hands the outcomes to the coordinator as plain values.

mod config;
mod reload;
mod store;

pub use config::{
    default_gas_price, gas_price_or_default, text_of, BotConfig, BotConfigView, Config,
    DEFAULT_GAS_PRICE,
};
pub use reload::{
    after_outcome, after_request, after_step, after_steps, error_view,
    handle_config_reload, lemma_failure_keeps_store, lemma_racing_reloads_keep_one_state,
    lemma_triggers_are_equivalent, lemma_unchanged_file_keeps_config, outcome_view,
    CoordinatorView, ReloadCoordinator, ReloadError, ReloadErrorView, ReloadStep, ReloadTrigger,
};
pub use store::{lemma_replace_is_monotonic, next_version, replaced, ConfigStore, StoreView};
