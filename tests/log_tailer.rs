use yam_lib::configuration::Configuration;
use yam_lib::framing::{FrameDecoder, LineFramer};
use yam_lib::log_tailer::{tailers_from_config, LogTailer, Pattern, TailAction, TailEvent, TailPhase};

fn tailer(pattern: &str, multiplexed: bool) -> LogTailer {
    LogTailer::new(&"app".to_string(), &"web".to_string(), &pattern.to_string(), multiplexed)
        .ok()
        .unwrap()
}

fn feed(t: &mut LogTailer, bytes: &[u8]) -> Vec<String> {
    let mut sent = Vec::new();
    for b in bytes {
        match t.handle(TailEvent::Byte(*b)) {
            TailAction::Send(s) => sent.push(s),
            TailAction::Read => {}
            _ => panic!("unexpected action while streaming"),
        }
    }
    sent
}

#[test]
fn framer_splits_two_lines() {
    let mut f = LineFramer::new();
    let mut lines = Vec::new();
    for b in b"hello\nworld\n" {
        if let Some(l) = f.push(*b) {
            lines.push(l);
        }
    }
    assert_eq!(lines, vec![b"hello".to_vec(), b"world".to_vec()]);
    assert!(f.pending.is_empty());
}

#[test]
fn each_line_is_matched_on_its_own() {
    let mut t = tailer("^world$", false);
    assert!(matches!(t.handle(TailEvent::Opened), TailAction::Read));
    let sent = feed(&mut t, b"hello\nworld\n");
    assert_eq!(sent, vec!["app received 1 hits.".to_string()]);
    assert_eq!(t.hits, 1);
}

#[test]
fn error_line_counts_one_hit() {
    let mut t = tailer("ERROR.*", false);
    t.handle(TailEvent::Opened);
    let sent = feed(&mut t, b"ERROR disk full\n");
    assert_eq!(sent, vec!["app received 1 hits.".to_string()]);
    assert_eq!(t.hits, 1);
    let sent = feed(&mut t, b"all fine\nERROR again\n");
    assert_eq!(sent, vec!["app received 2 hits.".to_string()]);
}

#[test]
fn invalid_utf8_line_is_dropped() {
    let mut t = tailer(".*", false);
    t.handle(TailEvent::Opened);
    let sent = feed(&mut t, &[0xff, 0xfe, b'\n']);
    assert!(sent.is_empty());
    assert_eq!(t.hits, 0);
}

#[test]
fn stream_end_backs_off_and_keeps_hits() {
    let mut t = tailer("ERROR", false);
    assert!(matches!(t.handle(TailEvent::Opened), TailAction::Read));
    feed(&mut t, b"ERROR\n");
    assert!(matches!(t.handle(TailEvent::ReadFailed), TailAction::Read));
    assert!(matches!(t.handle(TailEvent::Ended), TailAction::Sleep(15)));
    assert!(matches!(t.phase, TailPhase::Backoff));
    assert!(matches!(t.handle(TailEvent::BackoffElapsed), TailAction::Open));
    assert!(matches!(t.phase, TailPhase::Opening));
    assert_eq!(t.hits, 1);
    t.handle(TailEvent::Opened);
    let sent = feed(&mut t, b"ERROR\n");
    assert_eq!(sent, vec!["app received 2 hits.".to_string()]);
}

#[test]
fn open_failure_stops() {
    let mut t = tailer("x", false);
    assert!(matches!(t.handle(TailEvent::OpenFailed), TailAction::Stop));
}

#[test]
fn multiplexed_frames_are_unwrapped() {
    let mut t = tailer("ERROR", true);
    t.handle(TailEvent::Opened);
    let mut bytes = vec![1u8, 0, 0, 0, 0, 0, 0, 6];
    bytes.extend_from_slice(b"ERROR\n");
    bytes.extend_from_slice(&[2u8, 0, 0, 0, 0, 0, 0, 3]);
    bytes.extend_from_slice(b"ok\n");
    let sent = feed(&mut t, &bytes);
    assert_eq!(sent, vec!["app received 1 hits.".to_string()]);
}

#[test]
fn frame_decoder_reads_big_endian_length() {
    let mut d = FrameDecoder::new();
    for b in [1u8, 0, 0, 0, 0, 0, 1, 2] {
        assert_eq!(d.push(b), None);
    }
    assert_eq!(d.remaining, 258);
    assert_eq!(d.push(b'a'), Some(b'a'));
    assert_eq!(d.remaining, 257);
}

#[test]
fn bad_pattern_is_refused() {
    assert!(Pattern::new("foo(bar").is_err());
    assert!(LogTailer::new(&"a".to_string(), &"b".to_string(), &"(".to_string(), false).is_err());
    let p = Pattern::new("b+").ok().unwrap();
    assert!(p.is_match("abbc"));
    assert!(!p.is_match("ac"));
}

#[test]
fn tailers_for_configured_logs() {
    let c = Configuration::from_string(
        "SLEEP_SECONDS = 1\nRESEND_MINUTES = 1\nLOG_FILES = [[\"a\", \"c1\", \"x\"], [\"b\", \"c2\", \"y+\"]]\n",
    )
    .unwrap();
    let ts = tailers_from_config(&c, true).ok().unwrap();
    assert_eq!(ts.len(), 2);
    assert_eq!(ts[1].source, "c2");
    let bad = Configuration::from_string(
        "SLEEP_SECONDS = 1\nRESEND_MINUTES = 1\nLOG_FILES = [[\"a\", \"c1\", \"(\"]]\n",
    )
    .unwrap();
    assert_eq!(tailers_from_config(&bad, true).err(), Some("Could not create regex".to_string()));
    let none = Configuration::from_string("SLEEP_SECONDS = 1\nRESEND_MINUTES = 1\n").unwrap();
    assert_eq!(tailers_from_config(&none, false).err(), Some("log_files is not set".to_string()));
}

#[test]
fn hits_over_two_streams_add_up() {
    let mut t = tailer("ERROR", false);
    t.handle(TailEvent::Opened);
    let a = feed(&mut t, b"ERROR a\nok\n");
    let b = feed(&mut t, b"fine\nERROR b\n");
    assert_eq!(a.len() + b.len(), 2);
    assert_eq!(t.hits, 2);
    assert_eq!(b, vec!["app received 2 hits.".to_string()]);
}

#[test]
fn new_tailer_starts_clean() {
    let t = tailer("x", true);
    assert!(t.decoder.header.is_empty());
    assert_eq!(t.decoder.remaining, 0);
    assert!(t.framer.pending.is_empty());
    assert_eq!(t.hits, 0);
    assert!(matches!(t.phase, TailPhase::Opening));
}
