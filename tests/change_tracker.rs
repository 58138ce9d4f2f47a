use yam_lib::change_tracker::{require_database_settings, resend_due, should_emit, QueryPoller, QueryTarget, ResendTimer};
use yam_lib::configuration::Configuration;

fn target(name: &str) -> QueryTarget {
    QueryTarget { name: name.to_string(), query: "select count(*) from t".to_string(), last_value: None }
}

#[test]
fn first_observation_emits() {
    assert!(should_emit(None, 5, false));
}

#[test]
fn changed_value_emits_and_same_value_is_silent() {
    assert!(should_emit(Some(4), 5, false));
    assert!(!should_emit(Some(5), 5, false));
    assert!(should_emit(Some(5), 5, true));
}

#[test]
fn resend_due_at_whole_interval() {
    assert!(!resend_due(3599, 60));
    assert!(resend_due(3600, 60));
    assert!(resend_due(0, 0));
    assert!(!resend_due(u64::MAX, u64::MAX));
    assert!(resend_due(u64::MAX, u64::MAX / 60));
}

#[test]
fn constant_value_alerts_once() {
    let mut t = target("users");
    let mut alerts = Vec::new();
    for _ in 0..5 {
        if let Some(a) = t.observe(Some(42), false) {
            alerts.push(a);
        }
    }
    assert_eq!(alerts, vec!["users:42".to_string()]);
}

#[test]
fn changing_value_alerts_every_cycle() {
    let mut t = target("cars");
    let mut n = 0;
    for v in [1i64, 2, 3, -4, 5] {
        if t.observe(Some(v), false).is_some() {
            n += 1;
        }
    }
    assert_eq!(n, 5);
    assert_eq!(t.observe(Some(-7), false), Some("cars:-7".to_string()));
}

#[test]
fn failed_query_keeps_value() {
    let mut t = target("users");
    assert_eq!(t.observe(Some(3), false), Some("users:3".to_string()));
    assert_eq!(t.observe(None, true), None);
    assert_eq!(t.last_value, Some(3));
    assert_eq!(t.observe(Some(3), false), None);
}

#[test]
fn timer_restarts_when_due() {
    let mut timer = ResendTimer::new(100, 1);
    assert!(!timer.start_cycle(159));
    assert_eq!(timer.last_resend, 100);
    assert!(timer.start_cycle(160));
    assert_eq!(timer.last_resend, 160);
    assert!(!timer.start_cycle(50));
}

#[test]
fn query_poller_from_config() {
    let c = Configuration::from_string(
        "SLEEP_SECONDS = 1\nRESEND_MINUTES = 1\nDATABASE_URL = \"mysql://\"\nDB_QUERIES = [[\"a\", \"q1\"], [\"b\", \"q2\"]]\n",
    )
    .unwrap();
    let mut p = QueryPoller::new(&c, 0).ok().unwrap();
    assert_eq!(p.targets.len(), 2);
    assert_eq!(p.targets[1].query, "q2");
    p.begin_cycle(10);
    assert!(!p.resend_now);
    assert_eq!(p.observe(0, Some(1)), Some("a:1".to_string()));
    assert_eq!(p.observe(1, None), None);
    assert_eq!(p.observe(0, Some(1)), None);
    p.begin_cycle(60);
    assert!(p.resend_now);
    assert_eq!(p.observe(0, Some(1)), Some("a:1".to_string()));
}

#[test]
fn query_poller_refused_without_database() {
    let c = Configuration::from_string("SLEEP_SECONDS = 1\nRESEND_MINUTES = 1\nDB_QUERIES = [[\"a\", \"q\"]]\n")
        .unwrap();
    assert_eq!(QueryPoller::new(&c, 0).err(), Some("Database not enabled in config".to_string()));
}

#[test]
fn database_settings_name_what_is_missing() {
    let none = Configuration::from_string("SLEEP_SECONDS = 1\nRESEND_MINUTES = 1\n").unwrap();
    assert_eq!(require_database_settings(&none).err(), Some("database url is not set".to_string()));
    let no_queries =
        Configuration::from_string("SLEEP_SECONDS = 1\nRESEND_MINUTES = 1\nDATABASE_URL = \"pg://\"\n").unwrap();
    assert_eq!(require_database_settings(&no_queries).err(), Some("db_queries is not set".to_string()));
    let both = Configuration::from_string(
        "SLEEP_SECONDS = 1\nRESEND_MINUTES = 1\nDATABASE_URL = \"pg://\"\nDB_QUERIES = [[\"a\", \"q\"]]\n",
    )
    .unwrap();
    assert!(require_database_settings(&both).is_ok());
}
