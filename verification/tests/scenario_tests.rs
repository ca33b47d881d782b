use balter::scenario::{
    ConfigurableScenario, Scenario, ScenarioConfig, ScenarioKind,
    DEFAULT_OVERLOAD_ERROR_RATE_BASIS_POINTS, DEFAULT_SATURATE_ERROR_RATE_BASIS_POINTS,
};

/// A fresh scenario: named, with no duration and no control mode yet.
#[test]
fn new_scenario_defaults() {
    let s = Scenario::new("checkout", ());
    assert_eq!(s.config.name, "checkout");
    assert_eq!(s.config.duration_millis, 0);
    assert_eq!(s.config.kind, ScenarioKind::Once);
}

/// The fluent surface fixes one aspect per call and keeps the rest.
#[test]
fn fluent_configuration() {
    let s = Scenario::new("checkout", ()).tps(632).duration(120_000);
    assert_eq!(s.config.kind, ScenarioKind::Tps(632));
    assert_eq!(s.config.duration_millis, 120_000);
    assert_eq!(s.config.name, "checkout");

    let s = Scenario::new("a", ()).saturate();
    assert_eq!(
        s.config.kind,
        ScenarioKind::Saturate(DEFAULT_SATURATE_ERROR_RATE_BASIS_POINTS)
    );
    let s = Scenario::new("a", ()).overload();
    assert_eq!(
        s.config.kind,
        ScenarioKind::Saturate(DEFAULT_OVERLOAD_ERROR_RATE_BASIS_POINTS)
    );
    let s = Scenario::new("a", ()).error_rate(2_500);
    assert_eq!(s.config.kind, ScenarioKind::Saturate(2_500));
    let s = Scenario::new("a", ()).direct(900, 16);
    assert_eq!(s.config.kind, ScenarioKind::Direct(900, 16));
}

/// goal_tps is the goal of a goal-TPS run and nothing else.
#[test]
fn goal_tps_accessor() {
    let mut c = ScenarioConfig::new("x");
    assert_eq!(c.goal_tps(), None);
    c.set_goal_tps(4_400);
    assert_eq!(c.goal_tps(), Some(4_400));
    assert_eq!(c.kind, ScenarioKind::Tps(4_400));
}

/// A scenario handed another configuration keeps its body and takes the
/// configuration as given.
#[test]
fn set_config_replaces_configuration() {
    let s = Scenario::new("origin", 7u32).tps(1_000).duration(30_000);
    let mut peer_config = s.config.clone();
    peer_config.set_goal_tps(600);
    let peer = s.set_config(peer_config);
    assert_eq!(peer.config.kind, ScenarioKind::Tps(600));
    assert_eq!(peer.config.duration_millis, 30_000);
    assert_eq!(peer.func, 7u32);
}
