//! The web health poller's decisions: classifying responses, writing one
//! result line per URL, and deciding when a cycle's lines are sent.

use vstd::prelude::*;
use crate::change_tracker::{ResendTimer, elapsed_since, resend_due_spec};
use crate::configuration::Configuration;
use crate::text::{decimal_text, unsigned_text};

verus! {

/// What one GET gave: a response status, or the transport's error text.
pub enum WebOutcome {
    Status(u16),
    Failed(String),
}

/// A URL is healthy when it answered with a 2xx status.
pub open spec fn healthy(o: WebOutcome) -> bool {
    o matches WebOutcome::Status(c) && 200 <= c < 300
}

/// The result line written for `url` whatever its outcome.
pub open spec fn result_line(url: Seq<char>, o: WebOutcome) -> Seq<char> {
    match o {
        WebOutcome::Status(c) => "http status for "@ + url + " is "@ + decimal_text(c as int),
        WebOutcome::Failed(e) => "Error connecting to "@ + url + ". "@ + e@,
    }
}

/// Some URL of the cycle was unhealthy.
pub open spec fn any_unhealthy(outcomes: Seq<WebOutcome>) -> bool {
    exists|i: int| 0 <= i < outcomes.len() && !healthy(#[trigger] outcomes[i])
}

/// Whether a GET's outcome counts as healthy.
pub fn is_healthy(o: &WebOutcome) -> (r: bool)
    ensures
        r == healthy(*o),
{
    match o {
        WebOutcome::Status(c) => 200 <= *c && *c < 300,
        WebOutcome::Failed(_) => false,
    }
}

/// The result line for one URL.
pub fn line_for(url: &String, o: &WebOutcome) -> (r: String)
    ensures
        r@ == result_line(url@, *o),
{
    match o {
        WebOutcome::Status(c) => {
            let mut t = "http status for ".to_string();
            t.append(url.as_str());
            t.append(" is ");
            let code = unsigned_text(*c as u64);
            t.append(code.as_str());
            t
        },
        WebOutcome::Failed(e) => {
            let mut t = "Error connecting to ".to_string();
            t.append(url.as_str());
            t.append(". ");
            t.append(e.as_str());
            t
        },
    }
}

/// What a cycle of the web poller produced: whether some URL was unhealthy,
/// the result line of every URL in order, and whether the lines are sent.
pub struct CycleReport {
    pub bad_result: bool,
    pub lines: Vec<String>,
    pub send: bool,
}

/// The result lines of a cycle, and whether any URL was unhealthy.
pub fn summarize(urls: &Vec<String>, outcomes: &Vec<WebOutcome>) -> (r: (bool, Vec<String>))
    requires
        urls@.len() == outcomes@.len(),
    ensures
        r.0 == any_unhealthy(outcomes@),
        r.1@.len() == urls@.len(),
        forall|i: int| 0 <= i < urls@.len() ==> (#[trigger] r.1@[i])@ == result_line(urls@[i]@, outcomes@[i]),
{
    let mut bad = false;
    let mut lines: Vec<String> = Vec::new();
    let mut i: usize = 0;
    while i < urls.len()
        invariant
            urls@.len() == outcomes@.len(),
            i <= urls@.len(),
            lines@.len() == i,
            bad == exists|j: int| 0 <= j < i && !healthy(#[trigger] outcomes@[j]),
            forall|j: int| 0 <= j < i ==> (#[trigger] lines@[j])@ == result_line(urls@[j]@, outcomes@[j]),
        decreases urls@.len() - i,
    {
        if !is_healthy(&outcomes[i]) {
            bad = true;
        }
        let line = line_for(&urls[i], &outcomes[i]);
        lines.push(line);
        i = i + 1;
    }
    (bad, lines)
}

/// The web poller's state: the URLs in configured order, whether
/// notifications are enabled, and the resend timer shared by all URLs.
pub struct WebPoller {
    pub urls: Vec<String>,
    pub notify: bool,
    pub timer: ResendTimer,
}

impl WebPoller {
    /// A poller for the configured URLs; refused unless web monitoring is
    /// configured.
    pub fn new(config: &Configuration, now: u64) -> (r: Result<WebPoller, String>)
        ensures
            r is Ok <==> config.monitor_urls is Some,
            r matches Err(e) ==> e@ == "Web monitoring is not configured"@,
            r matches Ok(p) ==> {
                &&& p.urls@ == config.monitor_urls->Some_0@
                &&& p.notify == config.slack_url is Some
                &&& p.timer.last_resend == now
                &&& p.timer.resend_minutes == config.resend_status_minutes
            },
    {
        match &config.monitor_urls {
            None => Err("Web monitoring is not configured".to_string()),
            Some(u) => {
                let urls = u.clone();
                proof {
                    assert(urls@ =~= u@);
                }
                Ok(
                    WebPoller {
                        urls,
                        notify: config.is_slack_configured(),
                        timer: ResendTimer::new(now, config.resend_status_minutes),
                    },
                )
            },
        }
    }

    /// Ends a cycle at clock reading `now`, given the outcome of each URL in
    /// order. When notifications are enabled, the timer decides whether the
    /// status is due again, and the lines of all URLs are sent when some URL
    /// was unhealthy or the status was due; otherwise nothing is sent.
    pub fn finish_cycle(&mut self, now: u64, outcomes: &Vec<WebOutcome>) -> (r: CycleReport)
        requires
            outcomes@.len() == old(self).urls@.len(),
        ensures
            final(self).urls == old(self).urls,
            final(self).notify == old(self).notify,
            final(self).timer.resend_minutes == old(self).timer.resend_minutes,
            r.bad_result == any_unhealthy(outcomes@),
            r.lines@.len() == outcomes@.len(),
            forall|i: int|
                0 <= i < outcomes@.len() ==> (#[trigger] r.lines@[i])@ == result_line(
                    old(self).urls@[i]@,
                    outcomes@[i],
                ),
            ({
                let due = resend_due_spec(
                    elapsed_since(old(self).timer.last_resend, now),
                    old(self).timer.resend_minutes,
                );
                if old(self).notify {
                    &&& r.send == (r.bad_result || due)
                    &&& final(self).timer.last_resend == if due {
                        now
                    } else {
                        old(self).timer.last_resend
                    }
                } else {
                    !r.send && final(self).timer == old(self).timer
                }
            }),
    {
        let (bad_result, lines) = summarize(&self.urls, outcomes);
        let mut send = false;
        if self.notify {
            let due = self.timer.start_cycle(now);
            send = bad_result || due;
        }
        CycleReport { bad_result, lines, send }
    }
}

} // verus!
