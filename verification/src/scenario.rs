//! Scenario configuration: what a run is named, how long it lasts, and which
//! control mode drives it. Error rates are carried in basis points
//! (hundredths of a percent), durations in milliseconds, so every setting is
//! a plain integer.

use vstd::prelude::*;
use vstd::string::StringExecFns;

verus! {

/// The error rate `saturate` aims for: 3%.
pub const DEFAULT_SATURATE_ERROR_RATE_BASIS_POINTS: u32 = 300;

/// The error rate `overload` aims for: 80%.
pub const DEFAULT_OVERLOAD_ERROR_RATE_BASIS_POINTS: u32 = 8000;

/// The control mode of a run.
#[derive(Clone, Copy, Debug, PartialEq, Eq, Structural)]
pub enum ScenarioKind {
    /// Invoke the scenario once, with no control loop.
    Once,
    /// Drive toward a goal rate (whole TPS).
    Tps(u32),
    /// Climb the rate until this error rate (basis points) is observed.
    Saturate(u32),
    /// Pin rate (whole TPS) and concurrency, with no feedback.
    Direct(u32, usize),
}

/// A run's name, bounded wall-clock duration, and control mode.
#[derive(Clone, Debug)]
pub struct ScenarioConfig {
    pub name: String,
    pub duration_millis: u64,
    pub kind: ScenarioKind,
}

impl ScenarioConfig {
    pub fn new(name: &str) -> (r: Self)
        ensures
            r.name@ == name@,
            r.duration_millis == 0,
            r.kind == ScenarioKind::Once,
    {
        ScenarioConfig {
            name: String::from_str(name),
            duration_millis: 0,
            kind: ScenarioKind::Once,
        }
    }

    /// The goal rate, when this is a goal-TPS run.
    pub fn goal_tps(&self) -> (r: Option<u32>)
        ensures
            r == (match self.kind {
                ScenarioKind::Tps(t) => Some(t),
                _ => None::<u32>,
            }),
    {
        match self.kind {
            ScenarioKind::Tps(t) => Some(t),
            _ => None,
        }
    }

    pub fn set_goal_tps(&mut self, goal_tps: u32)
        ensures
            final(self).name@ == old(self).name@,
            final(self).duration_millis == old(self).duration_millis,
            final(self).kind == ScenarioKind::Tps(goal_tps),
    {
        self.kind = ScenarioKind::Tps(goal_tps);
    }
}

/// What a finished run reports.
#[derive(Clone, Copy, Debug, PartialEq, Eq, Structural)]
pub struct RunStatistics {
    pub concurrency: usize,
    pub goal_tps: u32,
    pub stable: bool,
}

/// A load-test scenario: the user's repeatable body paired with the
/// configuration the engine runs it under.
pub struct Scenario<T> {
    pub func: T,
    pub config: ScenarioConfig,
}

impl<T> Scenario<T> {
    pub fn new(name: &str, func: T) -> (r: Self)
        ensures
            r.config.name@ == name@,
            r.config.duration_millis == 0,
            r.config.kind == ScenarioKind::Once,
    {
        Scenario { func, config: ScenarioConfig::new(name) }
    }
}

impl<T: Clone> Scenario<T> {
    /// The same scenario body under another configuration, as handed out to
    /// a peer.
    pub fn set_config(&self, config: ScenarioConfig) -> (r: Self)
        ensures
            r.config == config,
    {
        Scenario { func: self.func.clone(), config }
    }
}

/// The fluent configuration surface: each call fixes one aspect of the
/// configuration and leaves the rest as it was.
pub trait ConfigurableScenario: Sized {
    spec fn cfg(&self) -> ScenarioConfig;

    /// Climb the rate until the default 3% error rate is observed.
    fn saturate(self) -> (r: Self)
        ensures
            r.cfg().kind == ScenarioKind::Saturate(DEFAULT_SATURATE_ERROR_RATE_BASIS_POINTS),
            r.cfg().name@ == self.cfg().name@,
            r.cfg().duration_millis == self.cfg().duration_millis,
    ;

    /// Climb the rate until the default 80% error rate is observed.
    fn overload(self) -> (r: Self)
        ensures
            r.cfg().kind == ScenarioKind::Saturate(DEFAULT_OVERLOAD_ERROR_RATE_BASIS_POINTS),
            r.cfg().name@ == self.cfg().name@,
            r.cfg().duration_millis == self.cfg().duration_millis,
    ;

    /// Climb the rate until the given error rate (basis points) is observed.
    fn error_rate(self, error_rate_basis_points: u32) -> (r: Self)
        ensures
            r.cfg().kind == ScenarioKind::Saturate(error_rate_basis_points),
            r.cfg().name@ == self.cfg().name@,
            r.cfg().duration_millis == self.cfg().duration_millis,
    ;

    /// Run at the given goal rate.
    fn tps(self, tps: u32) -> (r: Self)
        ensures
            r.cfg().kind == ScenarioKind::Tps(tps),
            r.cfg().name@ == self.cfg().name@,
            r.cfg().duration_millis == self.cfg().duration_millis,
    ;

    /// Pin rate and concurrency directly, with no feedback.
    fn direct(self, tps_limit: u32, concurrency: usize) -> (r: Self)
        ensures
            r.cfg().kind == ScenarioKind::Direct(tps_limit, concurrency),
            r.cfg().name@ == self.cfg().name@,
            r.cfg().duration_millis == self.cfg().duration_millis,
    ;

    /// Run for the given wall-clock duration.
    fn duration(self, duration_millis: u64) -> (r: Self)
        ensures
            r.cfg().duration_millis == duration_millis,
            r.cfg().kind == self.cfg().kind,
            r.cfg().name@ == self.cfg().name@,
    ;
}

impl<T> ConfigurableScenario for Scenario<T> {
    open spec fn cfg(&self) -> ScenarioConfig {
        self.config
    }

    fn saturate(self) -> Self {
        Scenario {
            func: self.func,
            config: ScenarioConfig {
                kind: ScenarioKind::Saturate(DEFAULT_SATURATE_ERROR_RATE_BASIS_POINTS),
                ..self.config
            },
        }
    }

    fn overload(self) -> Self {
        Scenario {
            func: self.func,
            config: ScenarioConfig {
                kind: ScenarioKind::Saturate(DEFAULT_OVERLOAD_ERROR_RATE_BASIS_POINTS),
                ..self.config
            },
        }
    }

    fn error_rate(self, error_rate_basis_points: u32) -> Self {
        Scenario {
            func: self.func,
            config: ScenarioConfig {
                kind: ScenarioKind::Saturate(error_rate_basis_points),
                ..self.config
            },
        }
    }

    fn tps(self, tps: u32) -> Self {
        Scenario {
            func: self.func,
            config: ScenarioConfig { kind: ScenarioKind::Tps(tps), ..self.config },
        }
    }

    fn direct(self, tps_limit: u32, concurrency: usize) -> Self {
        Scenario {
            func: self.func,
            config: ScenarioConfig {
                kind: ScenarioKind::Direct(tps_limit, concurrency),
                ..self.config
            },
        }
    }

    fn duration(self, duration_millis: u64) -> Self {
        Scenario {
            func: self.func,
            config: ScenarioConfig { duration_millis, ..self.config },
        }
    }
}

} // verus!
