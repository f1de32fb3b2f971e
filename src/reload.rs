use vstd::prelude::*;

use crate::config::{BotConfigView, Config};
use crate::store::{replaced, ConfigStore, StoreView};

verus! {

/// What raised a reload request. Both kinds go through the same handler and
/// lead to the same state.
#[derive(Debug, Clone, Copy, PartialEq, Eq, Structural)]
pub enum ReloadTrigger {
    FileChanged,
    Signal,
}

/// Why a reload attempt failed. The text is the message of the underlying
/// read or parse error.
#[derive(Debug)]
pub enum ReloadError {
    Unreadable(String),
    Unparseable(String),
}

pub enum ReloadErrorView {
    Unreadable(Seq<char>),
    Unparseable(Seq<char>),
}

impl View for ReloadError {
    type V = ReloadErrorView;

    open spec fn view(&self) -> ReloadErrorView {
        match self {
            ReloadError::Unreadable(m) => ReloadErrorView::Unreadable(m@),
            ReloadError::Unparseable(m) => ReloadErrorView::Unparseable(m@),
        }
    }
}

impl ReloadError {
    /// A copy of the error.
    pub fn duplicate(&self) -> (r: ReloadError)
        ensures
            r@ == self@,
    {
        match self {
            ReloadError::Unreadable(m) => ReloadError::Unreadable(m.clone()),
            ReloadError::Unparseable(m) => ReloadError::Unparseable(m.clone()),
        }
    }
}

/// The outcome of reading and parsing the configuration file, as values.
pub open spec fn outcome_view(o: Result<Config, ReloadError>) -> Result<BotConfigView, ReloadErrorView> {
    match o {
        Ok(c) => Ok(c@),
        Err(e) => Err(e@),
    }
}

/// What a coordinator holds: the store, the advisory in-progress flag and
/// the error of the last failed attempt, cleared by the next success.
pub struct CoordinatorView {
    pub store: StoreView,
    pub reloading: bool,
    pub last_error: Option<ReloadErrorView>,
}

/// The state after a reload request, whatever raised it: the flag is set and
/// nothing else changes.
pub open spec fn after_request(v: CoordinatorView, trigger: ReloadTrigger) -> CoordinatorView {
    CoordinatorView { reloading: true, ..v }
}

/// The state after an attempt ends: a parsed configuration is installed and
/// the error cleared; a failure leaves the store as it was and is recorded.
/// Either way the flag is cleared.
pub open spec fn after_outcome(
    v: CoordinatorView,
    outcome: Result<BotConfigView, ReloadErrorView>,
) -> CoordinatorView {
    match outcome {
        Ok(c) => CoordinatorView { store: replaced(v.store, c), reloading: false, last_error: None },
        Err(e) => CoordinatorView { store: v.store, reloading: false, last_error: Some(e) },
    }
}

/// One step of the coordinator as seen from outside: a request, or the end
/// of an attempt with its outcome.
pub enum ReloadStep {
    Request(ReloadTrigger),
    Finish(Result<BotConfigView, ReloadErrorView>),
}

pub open spec fn after_step(v: CoordinatorView, step: ReloadStep) -> CoordinatorView {
    match step {
        ReloadStep::Request(t) => after_request(v, t),
        ReloadStep::Finish(o) => after_outcome(v, o),
    }
}

/// The state after the steps, taken in order.
pub open spec fn after_steps(v: CoordinatorView, steps: Seq<ReloadStep>) -> CoordinatorView
    decreases steps.len(),
{
    if steps.len() == 0 {
        v
    } else {
        after_step(after_steps(v, steps.drop_last()), steps.last())
    }
}

/// Coordinates reloads of the live configuration.
///
/// The in-progress flag is advisory: a request that comes while another
/// attempt runs is not refused or queued. Two attempts may then overlap; the
/// last one to finish decides the snapshot, and the first one to finish
/// clears the flag while the other still runs.
#[derive(Debug)]
pub struct ReloadCoordinator {
    store: ConfigStore,
    reloading: bool,
    last_error: Option<ReloadError>,
}

pub open spec fn error_view(e: Option<ReloadError>) -> Option<ReloadErrorView> {
    match e {
        Some(x) => Some(x@),
        None => None,
    }
}

impl View for ReloadCoordinator {
    type V = CoordinatorView;

    closed spec fn view(&self) -> CoordinatorView {
        CoordinatorView { store: self.store@, reloading: self.reloading, last_error: error_view(self.last_error) }
    }
}

impl ReloadCoordinator {
    /// Starts from the outcome of the initial load. Without a configuration
    /// there is nothing to serve: a failed initial load is handed back and no
    /// coordinator is made.
    pub fn start(initial: Result<Config, ReloadError>) -> (r: Result<ReloadCoordinator, ReloadError>)
        ensures
            r.is_ok() <==> initial.is_ok(),
            initial.is_ok() ==> r.is_ok() && r.unwrap()@ == (CoordinatorView {
                store: StoreView { config: initial.unwrap()@, version: 0 },
                reloading: false,
                last_error: None,
            }),
            initial.is_err() ==> r.is_err() && r.unwrap_err()@ == initial.unwrap_err()@,
    {
        match initial {
            Ok(c) => Ok(ReloadCoordinator { store: ConfigStore::new(c), reloading: false, last_error: None }),
            Err(e) => Err(e),
        }
    }

    /// Takes a reload request: marks an attempt as in progress. The caller
    /// then reads and parses the file and hands the outcome to
    /// `handle_config_reload`.
    pub fn request_reload(&mut self, trigger: ReloadTrigger)
        ensures
            final(self)@ == after_request(old(self)@, trigger),
    {
        self.reloading = true;
    }

    /// A copy of the live configuration.
    pub fn read(&self) -> (r: Config)
        ensures
            r@ == self@.store.config,
    {
        self.store.read()
    }

    /// The number of successful reloads so far.
    pub fn version(&self) -> (r: u64)
        ensures
            r == self@.store.version,
    {
        self.store.version()
    }

    /// Whether an attempt is in progress.
    pub fn is_reloading(&self) -> (r: bool)
        ensures
            r == self@.reloading,
    {
        self.reloading
    }

    /// The error of the last failed attempt, if no success came after it.
    pub fn last_error(&self) -> (r: Option<ReloadError>)
        ensures
            error_view(r) == self@.last_error,
    {
        match &self.last_error {
            Some(e) => Some(e.duplicate()),
            None => None,
        }
    }
}

/// Ends a reload attempt with its outcome. A parsed configuration replaces
/// the live one; a read or parse failure leaves the live one in place, is
/// recorded and handed back. The in-progress flag is cleared either way.
pub fn handle_config_reload(
    coordinator: &mut ReloadCoordinator,
    outcome: Result<Config, ReloadError>,
) -> (r: Result<(), ReloadError>)
    ensures
        final(coordinator)@ == after_outcome(old(coordinator)@, outcome_view(outcome)),
        r.is_ok() <==> outcome.is_ok(),
        outcome.is_err() ==> r.is_err() && r.unwrap_err()@ == outcome.unwrap_err()@,
{
    let r = match outcome {
        Ok(c) => {
            coordinator.store.replace(c);
            coordinator.last_error = None;
            Ok(())
        },
        Err(e) => {
            coordinator.last_error = Some(e.duplicate());
            Err(e)
        },
    };
    coordinator.reloading = false;
    r
}

/// Reloading from an unchanged, valid file leaves the live configuration
/// equal to what it was.
pub proof fn lemma_unchanged_file_keeps_config(v: CoordinatorView, file: BotConfigView)
    requires
        file == v.store.config,
    ensures
        after_outcome(v, Ok(file)).store.config == v.store.config,
{
}

/// A failed attempt leaves the store exactly as it was, and the failure is
/// recorded.
pub proof fn lemma_failure_keeps_store(v: CoordinatorView, e: ReloadErrorView)
    ensures
        after_outcome(v, Err(e)).store == v.store,
        after_outcome(v, Err(e)).last_error == Some(e),
        !after_outcome(v, Err(e)).reloading,
{
}

/// A reload raised by a file change and one raised by the external signal
/// end in the same state for the same outcome.
pub proof fn lemma_triggers_are_equivalent(
    v: CoordinatorView,
    outcome: Result<BotConfigView, ReloadErrorView>,
)
    ensures
        after_request(v, ReloadTrigger::FileChanged) == after_request(v, ReloadTrigger::Signal),
        after_outcome(after_request(v, ReloadTrigger::FileChanged), outcome) == after_outcome(
            after_request(v, ReloadTrigger::Signal),
            outcome,
        ),
{
}

/// When the live configuration and every configuration that an attempt
/// parses are one of two states, then whatever the interleaving of requests
/// and outcomes, including overlapping attempts and failures, the live
/// configuration is one of those two states.
pub proof fn lemma_racing_reloads_keep_one_state(
    v: CoordinatorView,
    a: BotConfigView,
    b: BotConfigView,
    steps: Seq<ReloadStep>,
)
    requires
        v.store.config == a || v.store.config == b,
        forall|i: int|
            #![trigger steps[i]]
            0 <= i < steps.len() ==> match steps[i] {
                ReloadStep::Finish(Ok(c)) => c == a || c == b,
                _ => true,
            },
    ensures
        after_steps(v, steps).store.config == a || after_steps(v, steps).store.config == b,
    decreases steps.len(),
{
    if steps.len() > 0 {
        let prefix = steps.drop_last();
        assert forall|i: int| 0 <= i < prefix.len() implies match #[trigger] prefix[i] {
            ReloadStep::Finish(Ok(c)) => c == a || c == b,
            _ => true,
        } by {
            assert(prefix[i] == steps[i]);
        }
        lemma_racing_reloads_keep_one_state(v, a, b, prefix);
        assert(steps.last() == steps[steps.len() - 1]);
    }
}

} // verus!
