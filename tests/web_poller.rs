use yam_lib::configuration::Configuration;
use yam_lib::web_poller::{is_healthy, line_for, WebOutcome, WebPoller};

fn config(slack: bool) -> Configuration {
    let mut t = String::from("SLEEP_SECONDS = 1\nRESEND_MINUTES = 60\nMONITOR_URLS = [\"http://a\", \"http://b\"]\n");
    if slack {
        t.push_str("SLACK_URL = \"http://hook\"\n");
    }
    Configuration::from_string(&t).unwrap()
}

#[test]
fn ok_then_server_error_sends_both_lines() {
    let mut p = WebPoller::new(&config(true), 0).ok().unwrap();
    let r = p.finish_cycle(10, &vec![WebOutcome::Status(200), WebOutcome::Status(500)]);
    assert!(r.bad_result);
    assert!(r.send);
    assert_eq!(
        r.lines,
        vec!["http status for http://a is 200".to_string(), "http status for http://b is 500".to_string()]
    );
}

#[test]
fn healthy_cycle_sends_nothing_until_resend() {
    let mut p = WebPoller::new(&config(true), 0).ok().unwrap();
    let ok = vec![WebOutcome::Status(200), WebOutcome::Status(204)];
    let r = p.finish_cycle(10, &ok);
    assert!(!r.bad_result);
    assert!(!r.send);
    assert_eq!(r.lines.len(), 2);
    let r = p.finish_cycle(3600, &ok);
    assert!(r.send);
    let r = p.finish_cycle(3700, &ok);
    assert!(!r.send);
}

#[test]
fn connection_failure_is_unhealthy() {
    let mut p = WebPoller::new(&config(true), 0).ok().unwrap();
    let r = p.finish_cycle(1, &vec![WebOutcome::Failed("refused".to_string()), WebOutcome::Status(200)]);
    assert!(r.bad_result);
    assert_eq!(r.lines[0], "Error connecting to http://a. refused");
}

#[test]
fn without_notifications_nothing_is_sent() {
    let mut p = WebPoller::new(&config(false), 0).ok().unwrap();
    let r = p.finish_cycle(99999, &vec![WebOutcome::Status(500), WebOutcome::Status(500)]);
    assert!(r.bad_result);
    assert!(!r.send);
}

#[test]
fn web_poller_refused_without_urls() {
    let c = Configuration::from_string("SLEEP_SECONDS = 1\nRESEND_MINUTES = 1\n").unwrap();
    assert_eq!(WebPoller::new(&c, 0).err(), Some("Web monitoring is not configured".to_string()));
}

#[test]
fn health_classes() {
    assert!(is_healthy(&WebOutcome::Status(200)));
    assert!(is_healthy(&WebOutcome::Status(299)));
    assert!(!is_healthy(&WebOutcome::Status(301)));
    assert!(!is_healthy(&WebOutcome::Status(199)));
    assert_eq!(line_for(&"u".to_string(), &WebOutcome::Status(404)), "http status for u is 404");
}
