//! The registration and lifecycle orchestrator's decision core: a state
//! machine per loaded module that wires the host's config, init and
//! shutdown callbacks to the manager and enforces exactly-once default
//! initialization. The caller performs the actions this machine prescribes
//! and reports their outcomes back as status codes.

use vstd::prelude::*;

verus! {

/// Where a loaded module stands in its lifetime.
#[derive(Debug, Clone, Copy, PartialEq, Eq, Structural)]
pub enum LifecycleStage {
    /// The three host callbacks are registered; construction has not
    /// happened through the init callback yet.
    Registered,
    /// The init callback has run.
    Initialized,
    /// The shutdown callback has run; nothing may follow.
    ShutDown,
}

/// What the init callback must do.
#[derive(Debug, Clone, Copy, PartialEq, Eq, Structural)]
pub enum InitAction {
    /// No config callback ever fired: construct the plugins with no
    /// configuration, exactly once.
    ConstructDefault,
    /// A config callback already constructed the plugins: only call the
    /// manager's initialize, and do not construct again.
    InitializeOnly,
}

/// The per-module lifecycle state: the stage, and the flag recording
/// whether a config callback has fired.
#[derive(Debug, Clone, Copy, PartialEq, Eq, Structural)]
pub struct ModuleLifecycle {
    /// Where the module stands.
    pub stage: LifecycleStage,
    /// True from the first successful config callback on; it never goes
    /// back to false.
    pub config_seen: bool,
}

/// The state after a config callback: the flag is set, the stage is kept.
pub open spec fn spec_after_config(m: ModuleLifecycle) -> ModuleLifecycle {
    ModuleLifecycle { stage: m.stage, config_seen: true }
}

/// What the init callback does in state `m`: construct the defaults only
/// when no config callback was seen.
pub open spec fn spec_init_action(m: ModuleLifecycle) -> InitAction {
    if m.config_seen {
        InitAction::InitializeOnly
    } else {
        InitAction::ConstructDefault
    }
}

impl ModuleLifecycle {
    /// The state right after module load, once the three host callbacks are
    /// registered: no config seen yet.
    pub fn register() -> (r: ModuleLifecycle)
        ensures
            r.stage == LifecycleStage::Registered,
            !r.config_seen,
    {
        ModuleLifecycle { stage: LifecycleStage::Registered, config_seen: false }
    }

    /// Records one config callback. It may fire any number of times before
    /// the init callback; each time the caller hands the configuration to
    /// the manager's construction and registers the resulting instances.
    pub fn on_config(&mut self)
        requires
            old(self).stage == LifecycleStage::Registered,
        ensures
            *final(self) == spec_after_config(*old(self)),
    {
        self.config_seen = true;
    }

    /// Records the init callback, which fires at most once, and prescribes
    /// what it must do: construct the defaults exactly when no config
    /// callback ever fired, otherwise only initialize — never construct a
    /// second time.
    pub fn on_init(&mut self) -> (a: InitAction)
        requires
            old(self).stage == LifecycleStage::Registered,
        ensures
            a == spec_init_action(*old(self)),
            final(self).stage == LifecycleStage::Initialized,
            final(self).config_seen == old(self).config_seen,
    {
        self.stage = LifecycleStage::Initialized;
        if self.config_seen {
            InitAction::InitializeOnly
        } else {
            InitAction::ConstructDefault
        }
    }

    /// Records the shutdown callback, at module unload: the caller calls
    /// the manager's shutdown, and nothing may follow.
    pub fn on_shutdown(&mut self)
        requires
            old(self).stage != LifecycleStage::ShutDown,
        ensures
            final(self).stage == LifecycleStage::ShutDown,
            final(self).config_seen == old(self).config_seen,
    {
        self.stage = LifecycleStage::ShutDown;
    }
}

/// Exactly-once default construction: after a config callback has fired,
/// an init callback never constructs again; without one, the init callback
/// constructs the defaults.
pub proof fn lemma_init_constructs_exactly_once(m: ModuleLifecycle)
    ensures
        spec_init_action(spec_after_config(m)) == InitAction::InitializeOnly,
        !m.config_seen ==> spec_init_action(m) == InitAction::ConstructDefault,
{
}

/// The config flag only ever rises: no transition resets it.
pub proof fn lemma_config_seen_monotone(m: ModuleLifecycle)
    ensures
        spec_after_config(m).config_seen,
        spec_after_config(spec_after_config(m)) == spec_after_config(m),
{
}

} // verus!
