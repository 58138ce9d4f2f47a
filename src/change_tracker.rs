//! The per-target decision of the cycle-driven pollers: whether an
//! observation warrants an alert, and the poller-wide resend timer.

use vstd::prelude::*;
use crate::configuration::Configuration;
use crate::text::{decimal_text, signed_text};

verus! {

/// The resend interval has run out once `elapsed_secs` reaches
/// `resend_minutes` whole minutes.
pub open spec fn resend_due_spec(elapsed_secs: u64, resend_minutes: u64) -> bool {
    elapsed_secs as int >= resend_minutes as int * 60
}

/// Whether `elapsed_secs` seconds cover the resend interval of
/// `resend_minutes` minutes.
pub fn resend_due(elapsed_secs: u64, resend_minutes: u64) -> (r: bool)
    ensures
        r == resend_due_spec(elapsed_secs, resend_minutes),
{
    proof {
        let e = elapsed_secs as int;
        let m = resend_minutes as int;
        assert(e >= m * 60 <==> e / 60 >= m) by (nonlinear_arith)
            requires
                e >= 0,
                m >= 0,
        ;
    }
    elapsed_secs / 60 >= resend_minutes
}

/// An observation is reported when it is the first one, when it differs from
/// the previous one, or when the resend interval has run out.
pub open spec fn should_emit_spec(previous: Option<i64>, current: i64, resend: bool) -> bool {
    previous is None || previous != Some(current) || resend
}

/// Whether observing `current` after `previous` warrants an alert.
pub fn should_emit(previous: Option<i64>, current: i64, resend: bool) -> (r: bool)
    ensures
        r == should_emit_spec(previous, current, resend),
{
    match previous {
        None => true,
        Some(p) => p != current || resend,
    }
}

/// The poller-wide resend timer: when the status was last resent, in seconds
/// of a monotonic clock, and the resend interval in minutes.
pub struct ResendTimer {
    pub last_resend: u64,
    pub resend_minutes: u64,
}

/// Seconds since `last`, or zero when the clock reads earlier than `last`.
pub open spec fn elapsed_since(last: u64, now: u64) -> u64 {
    if now >= last {
        (now - last) as u64
    } else {
        0
    }
}

impl ResendTimer {
    pub fn new(now: u64, resend_minutes: u64) -> (r: ResendTimer)
        ensures
            r.last_resend == now,
            r.resend_minutes == resend_minutes,
    {
        ResendTimer { last_resend: now, resend_minutes }
    }

    /// Called at the start of a cycle with the clock's reading: tells whether
    /// the status is due to be resent in this cycle, and if so restarts the
    /// interval from `now`.
    pub fn start_cycle(&mut self, now: u64) -> (due: bool)
        ensures
            due == resend_due_spec(elapsed_since(old(self).last_resend, now), old(self).resend_minutes),
            final(self).resend_minutes == old(self).resend_minutes,
            final(self).last_resend == if due {
                now
            } else {
                old(self).last_resend
            },
    {
        let elapsed = if now >= self.last_resend {
            now - self.last_resend
        } else {
            0
        };
        let due = resend_due(elapsed, self.resend_minutes);
        if due {
            self.last_resend = now;
        }
        due
    }
}

/// One named scalar query and the last value it returned.
pub struct QueryTarget {
    pub name: String,
    pub query: String,
    pub last_value: Option<i64>,
}

/// The text of the alert for query `name` returning `value`.
pub open spec fn query_alert_text(name: Seq<char>, value: i64) -> Seq<char> {
    name + ":"@ + decimal_text(value as int)
}

/// `after` and `alert` are what observing `outcome` gives for `before`, in a
/// cycle where `resend` tells whether the resend interval ran out.
pub open spec fn observed(
    before: QueryTarget,
    outcome: Option<i64>,
    resend: bool,
    after: QueryTarget,
    alert: Option<String>,
) -> bool {
    &&& after.name == before.name
    &&& after.query == before.query
    &&& match outcome {
        None => after.last_value == before.last_value && alert is None,
        Some(v) => after.last_value == Some(v) && if should_emit_spec(before.last_value, v, resend) {
            alert matches Some(t) && t@ == query_alert_text(before.name@, v)
        } else {
            alert is None
        },
    }
}

/// How many of the cycles' results are alerts.
pub open spec fn alerts_sent(alerts: Seq<Option<String>>) -> nat
    decreases alerts.len(),
{
    if alerts.len() == 0 {
        0
    } else {
        (if alerts[0] is Some {
            1nat
        } else {
            0nat
        }) + alerts_sent(alerts.drop_first())
    }
}

/// `states[k + 1]` and `alerts[k]` come from observing `values[k]` for
/// `states[k]`, with `due[k]` telling whether the resend interval ran out.
pub open spec fn observed_run(
    states: Seq<QueryTarget>,
    values: Seq<i64>,
    due: Seq<bool>,
    alerts: Seq<Option<String>>,
) -> bool {
    &&& states.len() == values.len() + 1
    &&& due.len() == values.len()
    &&& alerts.len() == values.len()
    &&& forall|k: int|
        #![trigger alerts[k]]
        0 <= k < values.len() ==> observed(states[k], Some(values[k]), due[k], states[k + 1], alerts[k])
}

proof fn lemma_run_suffix(
    states: Seq<QueryTarget>,
    values: Seq<i64>,
    due: Seq<bool>,
    alerts: Seq<Option<String>>,
)
    requires
        observed_run(states, values, due, alerts),
        values.len() > 0,
    ensures
        observed_run(states.drop_first(), values.drop_first(), due.drop_first(), alerts.drop_first()),
        observed(states[0], Some(values[0]), due[0], states[1], alerts[0]),
{
    let (s1, v1, d1, a1) = (states.drop_first(), values.drop_first(), due.drop_first(), alerts.drop_first());
    assert forall|k: int| #![trigger a1[k]] 0 <= k < v1.len() implies observed(s1[k], Some(v1[k]), d1[k], s1[k + 1], a1[k]) by {
        assert(alerts[k + 1] == a1[k]);
    }
    assert(observed(states[0], Some(values[0]), due[0], states[1], alerts[0]));
}

/// Once a value has been seen, cycles that observe it again without the
/// resend interval running out send nothing.
proof fn lemma_unchanged_value_is_silent(
    v: i64,
    states: Seq<QueryTarget>,
    values: Seq<i64>,
    due: Seq<bool>,
    alerts: Seq<Option<String>>,
)
    requires
        observed_run(states, values, due, alerts),
        states[0].last_value == Some(v),
        forall|k: int| 0 <= k < values.len() ==> values[k] == v,
        forall|k: int| 0 <= k < due.len() ==> !due[k],
    ensures
        alerts_sent(alerts) == 0,
    decreases values.len(),
{
    if values.len() > 0 {
        lemma_run_suffix(states, values, due, alerts);
        lemma_unchanged_value_is_silent(v, states.drop_first(), values.drop_first(), due.drop_first(), alerts.drop_first());
    }
}

/// A query whose value stays the same over cycles in which the resend
/// interval never runs out alerts once, in the first cycle.
pub proof fn lemma_constant_value_alerts_once(
    v: i64,
    states: Seq<QueryTarget>,
    values: Seq<i64>,
    due: Seq<bool>,
    alerts: Seq<Option<String>>,
)
    requires
        observed_run(states, values, due, alerts),
        values.len() >= 1,
        states[0].last_value is None,
        forall|k: int| 0 <= k < values.len() ==> values[k] == v,
        forall|k: int| 0 <= k < due.len() ==> !due[k],
    ensures
        alerts[0] is Some,
        alerts_sent(alerts) == 1,
{
    lemma_run_suffix(states, values, due, alerts);
    lemma_unchanged_value_is_silent(v, states.drop_first(), values.drop_first(), due.drop_first(), alerts.drop_first());
}

/// A query whose value changes in every cycle alerts in every cycle, whatever
/// the resend interval.
pub proof fn lemma_changing_value_alerts_every_cycle(
    states: Seq<QueryTarget>,
    values: Seq<i64>,
    due: Seq<bool>,
    alerts: Seq<Option<String>>,
)
    requires
        observed_run(states, values, due, alerts),
        values.len() > 0 ==> states[0].last_value != Some(values[0]),
        forall|k: int| 0 < k < values.len() ==> #[trigger] values[k] != values[k - 1],
    ensures
        alerts_sent(alerts) == values.len(),
    decreases values.len(),
{
    if values.len() > 0 {
        lemma_run_suffix(states, values, due, alerts);
        let rest = values.drop_first();
        assert forall|k: int| 0 < k < rest.len() implies #[trigger] rest[k] != rest[k - 1] by {
            assert(values[k + 1] != values[k]);
        }
        if rest.len() > 0 {
            assert(values[1] != values[0]);
        }
        lemma_changing_value_alerts_every_cycle(states.drop_first(), rest, due.drop_first(), alerts.drop_first());
    }
}

impl QueryTarget {
    /// Records the outcome of running the query in a cycle: `None` when it
    /// failed, which leaves the target as it was. A value is remembered, and
    /// an alert text is returned when the value warrants one.
    pub fn observe(&mut self, outcome: Option<i64>, resend: bool) -> (alert: Option<String>)
        ensures
            observed(*old(self), outcome, resend, *final(self), alert),
    {
        match outcome {
            None => None,
            Some(v) => {
                let emit = should_emit(self.last_value, v, resend);
                self.last_value = Some(v);
                if emit {
                    let mut t = self.name.clone();
                    t.append(":");
                    let digits = signed_text(v);
                    t.append(digits.as_str());
                    Some(t)
                } else {
                    None
                }
            },
        }
    }
}

/// Checks that a database poller can start, naming the first missing
/// setting: the connection string, then the list of queries.
pub fn require_database_settings(config: &Configuration) -> (r: Result<(), String>)
    ensures
        config.database_url is None ==> (r matches Err(e) && e@ == "database url is not set"@),
        config.database_url is Some && config.db_queries is None ==> (r matches Err(e) && e@
            == "db_queries is not set"@),
        r is Ok <==> (config.database_url is Some && config.db_queries is Some),
{
    if config.database_url.is_none() {
        return Err("database url is not set".to_string());
    }
    if config.db_queries.is_none() {
        return Err("db_queries is not set".to_string());
    }
    Ok(())
}

/// The database poller's state: its queries, in the order they are
/// configured, and the resend timer that all of them share.
pub struct QueryPoller {
    pub targets: Vec<QueryTarget>,
    pub timer: ResendTimer,
    /// Whether the current cycle resends every value.
    pub resend_now: bool,
}

impl QueryPoller {
    /// A poller for the configured queries, none of which has a value yet.
    /// Refused unless database monitoring is configured.
    pub fn new(config: &Configuration, now: u64) -> (r: Result<QueryPoller, String>)
        ensures
            r is Ok <==> (config.database_url is Some && config.db_queries is Some),
            r matches Err(e) ==> e@ == "Database not enabled in config"@,
            r matches Ok(p) ==> {
                let q = config.db_queries->Some_0@;
                &&& p.targets@.len() == q.len()
                &&& forall|i: int|
                    0 <= i < q.len() ==> (#[trigger] p.targets@[i]).name == q[i].0
                        && p.targets@[i].query == q[i].1 && p.targets@[i].last_value is None
                &&& p.timer.last_resend == now
                &&& p.timer.resend_minutes == config.resend_status_minutes
                &&& !p.resend_now
            },
    {
        if !config.is_db_configured() {
            return Err("Database not enabled in config".to_string());
        }
        let queries = match &config.db_queries {
            Some(q) => q,
            None => return Err("Database not enabled in config".to_string()),
        };
        let mut targets: Vec<QueryTarget> = Vec::new();
        let mut i: usize = 0;
        while i < queries.len()
            invariant
                i <= queries@.len(),
                targets@.len() == i,
                forall|j: int|
                    0 <= j < i ==> (#[trigger] targets@[j]).name == queries@[j].0
                        && targets@[j].query == queries@[j].1 && targets@[j].last_value is None,
            decreases queries@.len() - i,
        {
            let t = QueryTarget {
                name: queries[i].0.clone(),
                query: queries[i].1.clone(),
                last_value: None,
            };
            targets.push(t);
            i = i + 1;
        }
        Ok(
            QueryPoller {
                targets,
                timer: ResendTimer::new(now, config.resend_status_minutes),
                resend_now: false,
            },
        )
    }

    /// Starts a cycle at clock reading `now`: decides once, for all queries,
    /// whether this cycle resends.
    pub fn begin_cycle(&mut self, now: u64)
        ensures
            final(self).targets == old(self).targets,
            final(self).resend_now == resend_due_spec(
                elapsed_since(old(self).timer.last_resend, now),
                old(self).timer.resend_minutes,
            ),
            final(self).timer.resend_minutes == old(self).timer.resend_minutes,
            final(self).timer.last_resend == if final(self).resend_now {
                now
            } else {
                old(self).timer.last_resend
            },
    {
        self.resend_now = self.timer.start_cycle(now);
    }

    /// Records the outcome of query `i` in the current cycle, as
    /// `QueryTarget::observe` does, leaving the other queries alone.
    pub fn observe(&mut self, i: usize, outcome: Option<i64>) -> (alert: Option<String>)
        requires
            i < old(self).targets@.len(),
        ensures
            final(self).timer == old(self).timer,
            final(self).resend_now == old(self).resend_now,
            final(self).targets@.len() == old(self).targets@.len(),
            forall|j: int|
                0 <= j < old(self).targets@.len() && j != i ==> #[trigger] final(self).targets@[j]
                    == old(self).targets@[j],
            observed(
                old(self).targets@[i as int],
                outcome,
                old(self).resend_now,
                final(self).targets@[i as int],
                alert,
            ),
    {
        let resend = self.resend_now;
        self.targets[i].observe(outcome, resend)
    }
}

} // verus!
