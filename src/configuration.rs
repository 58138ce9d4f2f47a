//! The daemon's settings, read from a TOML text.

use vstd::prelude::*;
use crate::toml_doc::{TomlValue, get, lookup, parse_document, toml_document};

verus! {

/// Immutable settings of the daemon. A feature is enabled exactly when the
/// setting it needs is present.
pub struct Configuration {
    pub sleep_seconds: u64,
    pub resend_status_minutes: u64,
    pub slack_url: Option<String>,
    pub database_url: Option<String>,
    pub monitor_urls: Option<Vec<String>>,
    pub db_queries: Option<Vec<(String, String)>>,
    /// name, source, pattern
    pub log_files: Option<Vec<(String, String, String)>>,
}

pub open spec fn missing_message(key: Seq<char>) -> Seq<char> {
    key + " is not set in config file"@
}

pub open spec fn not_integer_message(key: Seq<char>) -> Seq<char> {
    key + " is not an integer"@
}

pub open spec fn negative_message(key: Seq<char>) -> Seq<char> {
    key + " must not be negative"@
}

pub open spec fn not_array_message(key: Seq<char>) -> Seq<char> {
    key + " is not an array. Reading configuration file failed"@
}

pub open spec fn bad_entry_message(key: Seq<char>) -> Seq<char> {
    "Could not read an entry of "@ + key
}

pub open spec fn parse_failure_message(e: Seq<char>) -> Seq<char> {
    "Could not parse config file:"@ + e
}

/// Why a required integer setting cannot be read, if it cannot: it is
/// absent, not an integer, or negative.
pub open spec fn integer_error(v: Option<TomlValue>, key: Seq<char>) -> Option<Seq<char>> {
    match v {
        None => Some(missing_message(key)),
        Some(TomlValue::Int(n)) => if n < 0 {
            Some(negative_message(key))
        } else {
            None
        },
        Some(_) => Some(not_integer_message(key)),
    }
}

pub open spec fn integer_of(v: Option<TomlValue>) -> i64 {
    match v {
        Some(TomlValue::Int(n)) => n,
        _ => 0,
    }
}

/// An optional string setting; any value that is not a string counts as absent.
pub open spec fn text_of(v: Option<TomlValue>) -> Option<String> {
    match v {
        Some(TomlValue::Str(s)) => Some(s),
        _ => None,
    }
}

pub open spec fn url_of(v: TomlValue) -> Option<String> {
    match v {
        TomlValue::Str(s) => Some(s),
        _ => None,
    }
}

/// An entry of `[name, query]`: an array whose first two items are strings.
pub open spec fn pair_of(v: TomlValue) -> Option<(String, String)> {
    match v {
        TomlValue::Array(a) => if a@.len() >= 2 {
            match (a@[0], a@[1]) {
                (TomlValue::Str(x), TomlValue::Str(y)) => Some((x, y)),
                _ => None,
            }
        } else {
            None
        },
        _ => None,
    }
}

/// An entry of `[name, source, pattern]`: an array whose first three items are
/// strings.
pub open spec fn triple_of(v: TomlValue) -> Option<(String, String, String)> {
    match v {
        TomlValue::Array(a) => if a@.len() >= 3 {
            match (a@[0], a@[1], a@[2]) {
                (TomlValue::Str(x), TomlValue::Str(y), TomlValue::Str(z)) => Some((x, y, z)),
                _ => None,
            }
        } else {
            None
        },
        _ => None,
    }
}

/// Why the MONITOR_URLS setting cannot be read, if it cannot: it is present but
/// not an array, or one of its entries is not a string.
pub open spec fn urls_error(v: Option<TomlValue>) -> Option<Seq<char>> {
    match v {
        None => None,
        Some(TomlValue::Array(a)) => if forall|i: int| 0 <= i < a@.len() ==> (#[trigger] url_of(a@[i])) is Some {
            None
        } else {
            Some(bad_entry_message("MONITOR_URLS"@))
        },
        Some(_) => Some(not_array_message("MONITOR_URLS"@)),
    }
}

/// The entries of a MONITOR_URLS setting that reads without error.
pub open spec fn urls_of(v: Option<TomlValue>) -> Option<Seq<String>> {
    match v {
        Some(TomlValue::Array(a)) => Some(Seq::new(a@.len(), |i: int| url_of(a@[i])->Some_0)),
        _ => None,
    }
}

/// Why the DB_QUERIES setting cannot be read, if it cannot: it is present but
/// not an array, or one of its entries is not a `[name, query]` array.
pub open spec fn queries_error(v: Option<TomlValue>) -> Option<Seq<char>> {
    match v {
        None => None,
        Some(TomlValue::Array(a)) => if forall|i: int| 0 <= i < a@.len() ==> (#[trigger] pair_of(a@[i])) is Some {
            None
        } else {
            Some(bad_entry_message("DB_QUERIES"@))
        },
        Some(_) => Some(not_array_message("DB_QUERIES"@)),
    }
}

/// The entries of a DB_QUERIES setting that reads without error.
pub open spec fn queries_of(v: Option<TomlValue>) -> Option<Seq<(String, String)>> {
    match v {
        Some(TomlValue::Array(a)) => Some(Seq::new(a@.len(), |i: int| pair_of(a@[i])->Some_0)),
        _ => None,
    }
}

/// Why the LOG_FILES setting cannot be read, if it cannot: it is present but
/// not an array, or one of its entries is not a `[name, source, pattern]` array.
pub open spec fn logs_error(v: Option<TomlValue>) -> Option<Seq<char>> {
    match v {
        None => None,
        Some(TomlValue::Array(a)) => if forall|i: int| 0 <= i < a@.len() ==> (#[trigger] triple_of(a@[i])) is Some {
            None
        } else {
            Some(bad_entry_message("LOG_FILES"@))
        },
        Some(_) => Some(not_array_message("LOG_FILES"@)),
    }
}

/// The entries of a LOG_FILES setting that reads without error.
pub open spec fn logs_of(v: Option<TomlValue>) -> Option<Seq<(String, String, String)>> {
    match v {
        Some(TomlValue::Array(a)) => Some(Seq::new(a@.len(), |i: int| triple_of(a@[i])->Some_0)),
        _ => None,
    }
}

pub open spec fn same_list<T>(field: Option<Vec<T>>, expected: Option<Seq<T>>) -> bool {
    match (field, expected) {
        (None, None) => true,
        (Some(v), Some(s)) => v@ == s,
        _ => false,
    }
}

/// The first error met when reading the settings from a document: first
/// that RESEND_MINUTES, then SLEEP_SECONDS, is present; then the value of
/// each of them, in that order; then MONITOR_URLS, DB_QUERIES and LOG_FILES.
pub open spec fn config_error(d: Seq<(String, TomlValue)>) -> Option<Seq<char>> {
    let resend = integer_error(lookup(d, "RESEND_MINUTES"@), "RESEND_MINUTES"@);
    let sleep = integer_error(lookup(d, "SLEEP_SECONDS"@), "SLEEP_SECONDS"@);
    let urls = urls_error(lookup(d, "MONITOR_URLS"@));
    let queries = queries_error(lookup(d, "DB_QUERIES"@));
    let logs = logs_error(lookup(d, "LOG_FILES"@));
    if lookup(d, "RESEND_MINUTES"@) is None {
        Some(missing_message("RESEND_MINUTES"@))
    } else if lookup(d, "SLEEP_SECONDS"@) is None {
        Some(missing_message("SLEEP_SECONDS"@))
    } else if resend is Some {
        resend
    } else if sleep is Some {
        sleep
    } else if urls is Some {
        urls
    } else if queries is Some {
        queries
    } else {
        logs
    }
}

impl Configuration {
    /// The settings that a document without errors describes.
    pub open spec fn reflects(&self, d: Seq<(String, TomlValue)>) -> bool {
        &&& self.resend_status_minutes == integer_of(lookup(d, "RESEND_MINUTES"@)) as u64
        &&& self.sleep_seconds == integer_of(lookup(d, "SLEEP_SECONDS"@)) as u64
        &&& self.slack_url == text_of(lookup(d, "SLACK_URL"@))
        &&& self.database_url == text_of(lookup(d, "DATABASE_URL"@))
        &&& same_list(self.monitor_urls, urls_of(lookup(d, "MONITOR_URLS"@)))
        &&& same_list(self.db_queries, queries_of(lookup(d, "DB_QUERIES"@)))
        &&& same_list(self.log_files, logs_of(lookup(d, "LOG_FILES"@)))
    }
}

/// `r` is what reading the settings from document `d` gives.
pub open spec fn read_from_document(r: Result<Configuration, String>, d: Seq<(String, TomlValue)>) -> bool {
    match r {
        Ok(c) => config_error(d) is None && c.reflects(d),
        Err(e) => config_error(d) == Some(e@),
    }
}

/// `r` is what reading the settings from the text `s` gives.
pub open spec fn read_from_text(r: Result<Configuration, String>, s: Seq<char>) -> bool {
    match toml_document(s) {
        Ok(d) => read_from_document(r, d),
        Err(e) => r matches Err(m) && m@ == parse_failure_message(e),
    }
}

/// `key` followed by `suffix`.
fn joined(key: &str, suffix: &str) -> (r: String)
    ensures
        r@ == key@ + suffix@,
{
    let mut m = key.to_string();
    m.append(suffix);
    m
}

fn read_integer(doc: &Vec<(String, TomlValue)>, key: &str) -> (r: Result<i64, String>)
    ensures
        match r {
            Ok(n) => integer_error(lookup(doc@, key@), key@) is None
                && n == integer_of(lookup(doc@, key@)) && n >= 0,
            Err(e) => integer_error(lookup(doc@, key@), key@) == Some(e@),
        },
{
    match get(doc, key) {
        None => Err(joined(key, " is not set in config file")),
        Some(TomlValue::Int(n)) => if *n < 0 {
            Err(joined(key, " must not be negative"))
        } else {
            Ok(*n)
        },
        Some(_) => Err(joined(key, " is not an integer")),
    }
}

fn read_text(doc: &Vec<(String, TomlValue)>, key: &str) -> (r: Option<String>)
    ensures
        r == text_of(lookup(doc@, key@)),
{
    match get(doc, key) {
        Some(TomlValue::Str(s)) => Some(s.clone()),
        _ => None,
    }
}

fn url_from(v: &TomlValue) -> (r: Option<String>)
    ensures
        r == url_of(*v),
{
    match v {
        TomlValue::Str(s) => Some(s.clone()),
        _ => None,
    }
}

fn pair_from(v: &TomlValue) -> (r: Option<(String, String)>)
    ensures
        r == pair_of(*v),
{
    match v {
        TomlValue::Array(a) => {
            if a.len() < 2 {
                return None;
            }
            match (&a[0], &a[1]) {
                (TomlValue::Str(x), TomlValue::Str(y)) => Some((x.clone(), y.clone())),
                _ => None,
            }
        },
        _ => None,
    }
}

fn triple_from(v: &TomlValue) -> (r: Option<(String, String, String)>)
    ensures
        r == triple_of(*v),
{
    match v {
        TomlValue::Array(a) => {
            if a.len() < 3 {
                return None;
            }
            match (&a[0], &a[1], &a[2]) {
                (TomlValue::Str(x), TomlValue::Str(y), TomlValue::Str(z)) => Some(
                    (x.clone(), y.clone(), z.clone()),
                ),
                _ => None,
            }
        },
        _ => None,
    }
}

fn read_monitor_urls(doc: &Vec<(String, TomlValue)>) -> (r: Result<Option<Vec<String>>, String>)
    ensures
        match r {
            Ok(u) => urls_error(lookup(doc@, "MONITOR_URLS"@)) is None
                && same_list(u, urls_of(lookup(doc@, "MONITOR_URLS"@))),
            Err(e) => urls_error(lookup(doc@, "MONITOR_URLS"@)) == Some(e@),
        },
{
    match get(doc, "MONITOR_URLS") {
        None => Ok(None),
        Some(TomlValue::Array(a)) => {
            let mut out: Vec<String> = Vec::new();
            let mut i: usize = 0;
            while i < a.len()
                invariant
                    i <= a@.len(),
                    out@.len() == i,
                    forall|j: int| 0 <= j < i ==> url_of(a@[j]) == Some(out@[j]),
                    lookup(doc@, "MONITOR_URLS"@) == Some(TomlValue::Array(*a)),
                decreases a@.len() - i,
            {
                match url_from(&a[i]) {
                    Some(u) => out.push(u),
                    None => {
                        assert(url_of(a@[i as int]) is None);
                        return Err(joined("Could not read an entry of ", "MONITOR_URLS"));
                    },
                }
                i = i + 1;
            }
            assert(out@ =~= urls_of(Some(TomlValue::Array(*a)))->Some_0);
            Ok(Some(out))
        },
        Some(_) => Err(joined("MONITOR_URLS", " is not an array. Reading configuration file failed")),
    }
}

fn read_db_queries(doc: &Vec<(String, TomlValue)>) -> (r: Result<Option<Vec<(String, String)>>, String>)
    ensures
        match r {
            Ok(q) => queries_error(lookup(doc@, "DB_QUERIES"@)) is None
                && same_list(q, queries_of(lookup(doc@, "DB_QUERIES"@))),
            Err(e) => queries_error(lookup(doc@, "DB_QUERIES"@)) == Some(e@),
        },
{
    match get(doc, "DB_QUERIES") {
        None => Ok(None),
        Some(TomlValue::Array(a)) => {
            let mut out: Vec<(String, String)> = Vec::new();
            let mut i: usize = 0;
            while i < a.len()
                invariant
                    i <= a@.len(),
                    out@.len() == i,
                    forall|j: int| 0 <= j < i ==> pair_of(a@[j]) == Some(out@[j]),
                    lookup(doc@, "DB_QUERIES"@) == Some(TomlValue::Array(*a)),
                decreases a@.len() - i,
            {
                match pair_from(&a[i]) {
                    Some(p) => out.push(p),
                    None => {
                        assert(pair_of(a@[i as int]) is None);
                        return Err(joined("Could not read an entry of ", "DB_QUERIES"));
                    },
                }
                i = i + 1;
            }
            assert(out@ =~= queries_of(Some(TomlValue::Array(*a)))->Some_0);
            Ok(Some(out))
        },
        Some(_) => Err(joined("DB_QUERIES", " is not an array. Reading configuration file failed")),
    }
}

fn read_log_files(doc: &Vec<(String, TomlValue)>) -> (r: Result<Option<Vec<(String, String, String)>>, String>)
    ensures
        match r {
            Ok(l) => logs_error(lookup(doc@, "LOG_FILES"@)) is None
                && same_list(l, logs_of(lookup(doc@, "LOG_FILES"@))),
            Err(e) => logs_error(lookup(doc@, "LOG_FILES"@)) == Some(e@),
        },
{
    match get(doc, "LOG_FILES") {
        None => Ok(None),
        Some(TomlValue::Array(a)) => {
            let mut out: Vec<(String, String, String)> = Vec::new();
            let mut i: usize = 0;
            while i < a.len()
                invariant
                    i <= a@.len(),
                    out@.len() == i,
                    forall|j: int| 0 <= j < i ==> triple_of(a@[j]) == Some(out@[j]),
                    lookup(doc@, "LOG_FILES"@) == Some(TomlValue::Array(*a)),
                decreases a@.len() - i,
            {
                match triple_from(&a[i]) {
                    Some(t) => out.push(t),
                    None => {
                        assert(triple_of(a@[i as int]) is None);
                        return Err(joined("Could not read an entry of ", "LOG_FILES"));
                    },
                }
                i = i + 1;
            }
            assert(out@ =~= logs_of(Some(TomlValue::Array(*a)))->Some_0);
            Ok(Some(out))
        },
        Some(_) => Err(joined("LOG_FILES", " is not an array. Reading configuration file failed")),
    }
}

impl Configuration {
    /// Reads the settings from a parsed document: RESEND_MINUTES and
    /// SLEEP_SECONDS must be non-negative integers; SLACK_URL and DATABASE_URL are optional
    /// strings; MONITOR_URLS, DB_QUERIES and LOG_FILES are optional, and when
    /// present must be arrays of strings, of `[name, query]` and of
    /// `[name, source, pattern]` entries.
    pub fn from_document(doc: &Vec<(String, TomlValue)>) -> (r: Result<Configuration, String>)
        ensures
            read_from_document(r, doc@),
    {
        if get(doc, "RESEND_MINUTES").is_none() {
            return Err(joined("RESEND_MINUTES", " is not set in config file"));
        }
        if get(doc, "SLEEP_SECONDS").is_none() {
            return Err(joined("SLEEP_SECONDS", " is not set in config file"));
        }
        let resend = match read_integer(doc, "RESEND_MINUTES") {
            Ok(n) => n,
            Err(e) => return Err(e),
        };
        let sleep = match read_integer(doc, "SLEEP_SECONDS") {
            Ok(n) => n,
            Err(e) => return Err(e),
        };
        let database_url = read_text(doc, "DATABASE_URL");
        let slack_url = read_text(doc, "SLACK_URL");
        let monitor_urls = match read_monitor_urls(doc) {
            Ok(u) => u,
            Err(e) => return Err(e),
        };
        let db_queries = match read_db_queries(doc) {
            Ok(q) => q,
            Err(e) => return Err(e),
        };
        let log_files = match read_log_files(doc) {
            Ok(l) => l,
            Err(e) => return Err(e),
        };
        Ok(
            Configuration {
                sleep_seconds: sleep as u64,
                resend_status_minutes: resend as u64,
                slack_url,
                database_url,
                monitor_urls,
                db_queries,
                log_files,
            },
        )
    }

    /// Parses a TOML text and reads the settings from it.
    pub fn from_string(s: &str) -> (r: Result<Configuration, String>)
        ensures
            read_from_text(r, s@),
    {
        match parse_document(s) {
            Ok(d) => Configuration::from_document(&d),
            Err(e) => Err(joined("Could not parse config file:", e.as_str())),
        }
    }

    /// Notifications are sent when a notification endpoint is set.
    pub fn is_slack_configured(&self) -> (r: bool)
        ensures
            r == self.slack_url is Some,
    {
        self.slack_url.is_some()
    }

    /// Database monitoring needs a connection string and a list of queries.
    pub fn is_db_configured(&self) -> (r: bool)
        ensures
            r == (self.database_url is Some && self.db_queries is Some),
    {
        self.database_url.is_some() && self.db_queries.is_some()
    }

    /// Web monitoring needs a list of URLs.
    pub fn is_web_configured(&self) -> (r: bool)
        ensures
            r == self.monitor_urls is Some,
    {
        self.monitor_urls.is_some()
    }

    /// Log monitoring needs a list of log targets.
    pub fn is_log_configured(&self) -> (r: bool)
        ensures
            r == self.log_files is Some,
    {
        self.log_files.is_some()
    }
}

} // verus!

verus! {

/// A document that lacks RESEND_MINUTES fails with an error naming that key;
/// one that has RESEND_MINUTES, whatever its value, but lacks SLEEP_SECONDS
/// fails with an error naming SLEEP_SECONDS.
pub proof fn lemma_missing_required_setting_fails(r: Result<Configuration, String>, d: Seq<(String, TomlValue)>)
    requires
        read_from_document(r, d),
        lookup(d, "RESEND_MINUTES"@) is None || lookup(d, "SLEEP_SECONDS"@) is None,
    ensures
        r is Err,
        lookup(d, "RESEND_MINUTES"@) is None ==> r->Err_0@ == missing_message("RESEND_MINUTES"@),
        lookup(d, "RESEND_MINUTES"@) is Some ==> r->Err_0@ == missing_message("SLEEP_SECONDS"@),
{
}

/// A document in which MONITOR_URLS, DB_QUERIES or LOG_FILES is present but is
/// not an array fails to load.
pub proof fn lemma_non_array_list_fails(r: Result<Configuration, String>, d: Seq<(String, TomlValue)>)
    requires
        read_from_document(r, d),
        (lookup(d, "MONITOR_URLS"@) matches Some(v) && !(v is Array)) || (lookup(
            d,
            "DB_QUERIES"@,
        ) matches Some(v) && !(v is Array)) || (lookup(d, "LOG_FILES"@) matches Some(v) && !(
        v is Array)),
    ensures
        r is Err,
{
}

} // verus!
