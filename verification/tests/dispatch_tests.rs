use pygrab_ll::dispatch::{BatchKind, Discipline, Dispatch, Slot};
use pygrab_ll::plan::{Outcome, RawResponse};
use pygrab_ll::strmap::StrMap;
use pygrab_ll::{AsyncSessionRs, ThreadSessionRs};

fn thread_session() -> ThreadSessionRs {
    ThreadSessionRs::new(1.0f64.to_bits(), &StrMap::new(), None).unwrap()
}

fn async_session() -> AsyncSessionRs {
    AsyncSessionRs::new(1.0f64.to_bits(), &StrMap::new(), None).unwrap()
}

fn urls(n: usize) -> Vec<String> {
    (0..n).map(|i| format!("https://a.test/{i}")).collect()
}

fn ok(body: &str) -> Outcome {
    Outcome::Response(RawResponse { status_code: 200, headers: Vec::new(), body: Some(body.as_bytes().to_vec()) })
}

fn failed(cause: &str) -> Outcome {
    Outcome::FetchFailed(cause.to_string())
}

fn run_all(d: &mut Dispatch, fails: &[usize]) -> usize {
    let mut peak = 0;
    while !d.is_done() {
        let (lo, hi) = d.next_wave();
        if lo == hi {
            break;
        }
        peak = peak.max(d.in_flight());
        for slot in (lo..hi).rev() {
            let outcome = if fails.contains(&slot) { failed("timeout") } else { ok("body") };
            assert!(d.report(slot, outcome));
        }
    }
    peak
}

#[test]
fn waves_hold_at_most_the_limit() {
    let s = thread_session();
    let mut d = s.get_batch(urls(7), 3, None);
    assert_eq!(d.len(), 7);
    assert_eq!(d.limit(), 3);
    assert_eq!(d.in_flight(), 0);
    assert!(!d.is_done());
    assert_eq!(d.next_wave(), (0, 3));
    assert_eq!(d.in_flight(), 3);
    for slot in 0..3 {
        assert!(d.report(slot, ok("x")));
    }
    assert_eq!(d.next_wave(), (3, 6));
    for slot in 3..6 {
        assert!(d.report(slot, ok("x")));
    }
    assert_eq!(d.next_wave(), (6, 7));
    assert_eq!(d.in_flight(), 1);
    assert!(d.report(6, ok("x")));
    assert!(d.is_done());
    assert_eq!(d.next_wave(), (7, 7));
}

#[test]
fn peak_in_flight_never_exceeds_the_limit() {
    let s = thread_session();
    for limit in 1..6u32 {
        for n in 0..12usize {
            let mut d = s.get_batch(urls(n), limit, Some(false));
            let peak = run_all(&mut d, &[]);
            assert!(peak <= limit as usize);
            assert_eq!(peak, n.min(limit as usize));
            assert!(d.is_done());
        }
    }
}

#[test]
fn no_wave_begins_while_a_request_is_in_flight() {
    let s = thread_session();
    let mut d = s.get_batch(urls(5), 2, None);
    assert_eq!(d.next_wave(), (0, 2));
    assert_eq!(d.next_wave(), (2, 2));
    assert!(d.report(1, ok("x")));
    assert_eq!(d.next_wave(), (2, 2));
    assert_eq!(d.in_flight(), 1);
    assert_eq!(d.slot(0), Slot::Pending);
    assert_eq!(d.slot(1), Slot::Answered);
    assert_eq!(d.slot(2), Slot::Waiting);
    assert!(d.report(0, failed("x")));
    assert_eq!(d.slot(0), Slot::Failed);
    assert_eq!(d.next_wave(), (2, 4));
}

#[test]
fn reports_for_requests_that_are_not_awaited_are_refused() {
    let s = thread_session();
    let mut d = s.get_batch(urls(3), 2, None);
    assert!(!d.report(0, ok("early")));
    assert_eq!(d.next_wave(), (0, 2));
    assert!(!d.report(2, ok("not started")));
    assert!(!d.report(9, ok("no such slot")));
    assert!(d.report(0, ok("first")));
    assert!(!d.report(0, ok("again")));
    assert_eq!(d.in_flight(), 1);
    assert!(d.report(1, ok("second")));
    assert_eq!(d.next_wave(), (2, 3));
    assert!(d.report(2, ok("third")));
    let mut s = s;
    let report = s.finish_batch(d);
    assert_eq!(report.results.len(), 3);
    assert_eq!(report.results.get("https://a.test/0").unwrap().raw_content(), &b"first".to_vec());
    assert_eq!(report.warnings.len(), 0);
}

#[test]
fn a_limit_of_zero_hands_out_nothing() {
    let s = thread_session();
    let mut d = s.get_batch(urls(2), 0, None);
    assert_eq!(d.next_wave(), (0, 0));
    assert_eq!(d.next_wave(), (0, 0));
    assert!(!d.is_done());
    let mut empty = s.get_batch(urls(0), 0, None);
    assert!(empty.is_done());
    assert_eq!(empty.next_wave(), (0, 0));
}

#[test]
fn an_all_succeeding_batch_has_every_url_as_a_key() {
    let mut s = thread_session();
    let list = urls(5);
    let mut d = s.get_batch(list.clone(), 2, None);
    run_all(&mut d, &[]);
    let report = s.finish_batch(d);
    assert_eq!(report.results.len(), 5);
    for url in &list {
        assert!(report.results.contains_key(url));
    }
    for i in 0..report.results.len() {
        assert!(list.contains(report.results.key_at(i)));
    }
    assert_eq!(report.counted, 5);
    assert_eq!(s.num_req(), 5);
}

#[test]
fn failed_requests_are_absent_from_the_results() {
    let mut s = thread_session();
    let list = urls(6);
    let mut d = s.get_batch(list.clone(), 4, Some(true));
    run_all(&mut d, &[1, 4]);
    assert_eq!(d.slot(1), Slot::Failed);
    assert_eq!(d.slot(4), Slot::Failed);
    let report = s.finish_batch(d);
    assert_eq!(report.results.len(), 4);
    assert!(!report.results.contains_key(&list[1]));
    assert!(!report.results.contains_key(&list[4]));
    assert!(report.results.contains_key(&list[0]));
    assert_eq!(report.warnings.len(), 2);
    assert_eq!(report.counted, 4);
    assert_eq!(s.num_req(), 4);
}

#[test]
fn batch_get_with_one_timeout() {
    let mut s = thread_session();
    let list = vec![
        "https://a.test/ok".to_string(),
        "https://a.test/timeout".to_string(),
        "https://a.test/ok2".to_string(),
    ];
    let mut d = s.get_batch(list, 8, Some(true));
    assert_eq!(d.next_wave(), (0, 3));
    assert!(d.report(2, ok("two")));
    assert!(d.report(1, failed("operation timed out")));
    assert!(d.report(0, ok("one")));
    assert!(d.is_done());
    let report = s.finish_batch(d);
    assert_eq!(report.results.len(), 2);
    assert_eq!(report.results.get("https://a.test/ok").unwrap().raw_content(), &b"one".to_vec());
    assert_eq!(report.results.get("https://a.test/ok2").unwrap().raw_content(), &b"two".to_vec());
    assert!(report.results.get("https://a.test/timeout").is_none());
    assert_eq!(
        report.warnings,
        vec!["Request Failed for https://a.test/timeout: operation timed out".to_string()]
    );
    assert!(report.warnings[0].contains("https://a.test/timeout"));
}

#[test]
fn batch_get_with_one_timeout_all_at_once() {
    let mut s = async_session();
    let list = vec![
        "https://a.test/ok".to_string(),
        "https://a.test/timeout".to_string(),
        "https://a.test/ok2".to_string(),
    ];
    let mut d = s.get_batch(list, Some(true));
    assert_eq!(d.limit(), 3);
    assert_eq!(d.next_wave(), (0, 3));
    assert!(d.report(0, ok("one")));
    assert!(d.report(1, failed("operation timed out")));
    assert!(d.report(2, ok("two")));
    let report = s.finish_batch(d);
    assert_eq!(report.results.len(), 2);
    assert!(report.results.contains_key("https://a.test/ok"));
    assert!(report.results.contains_key("https://a.test/ok2"));
    assert_eq!(report.warnings, vec!["Error grabbing `https://a.test/timeout`".to_string()]);
    assert_eq!(s.num_req(), 2);
}

#[test]
fn warnings_can_be_switched_off() {
    let mut s = thread_session();
    let mut d = s.get_batch(urls(3), 3, Some(false));
    run_all(&mut d, &[0, 1, 2]);
    let report = s.finish_batch(d);
    assert_eq!(report.results.len(), 0);
    assert_eq!(report.warnings.len(), 0);
    assert_eq!(s.num_req(), 0);
}

#[test]
fn warnings_are_on_by_default() {
    let s = async_session();
    let mut d = s.post_batch(urls(1), vec![vec![1]], None).unwrap();
    d.next_wave();
    assert!(d.report(0, failed("refused")));
    assert_eq!(d.finish().warnings, vec!["Error posting to `https://a.test/0`".to_string()]);
}

#[test]
fn a_repeated_url_keeps_the_response_reported_last() {
    let mut s = thread_session();
    let list = vec!["https://a.test/x".to_string(), "https://a.test/x".to_string()];
    let mut d = s.get_batch(list, 2, None);
    d.next_wave();
    assert!(d.report(1, ok("from slot 1")));
    assert!(d.report(0, ok("from slot 0")));
    let report = s.finish_batch(d);
    assert_eq!(report.results.len(), 1);
    assert_eq!(report.results.get("https://a.test/x").unwrap().raw_content(), &b"from slot 0".to_vec());
    assert_eq!(report.counted, 2);
    assert_eq!(s.num_req(), 2);
}

#[test]
fn a_repeated_url_counts_once_all_at_once() {
    let mut s = async_session();
    let list = vec!["https://a.test/x".to_string(), "https://a.test/x".to_string()];
    let mut d = s.get_batch(list, None);
    d.next_wave();
    assert!(d.report(0, ok("a")));
    assert!(d.report(1, ok("b")));
    let report = s.finish_batch(d);
    assert_eq!(report.results.len(), 1);
    assert_eq!(report.results.get("https://a.test/x").unwrap().raw_content(), &b"b".to_vec());
    assert_eq!(s.num_req(), 1);
}

#[test]
fn post_batches_in_waves_count_every_request_handed_out() {
    let mut s = thread_session();
    let mut d = s.post_batch(urls(4), vec![vec![1], vec![2], vec![3], vec![4]], 3, None).unwrap();
    assert_eq!(d.kind(), BatchKind::Post);
    assert_eq!(d.discipline(), Discipline::Waves);
    assert!(d.json_bodies());
    assert_eq!(d.body(2), Some(&vec![3u8]));
    assert!(d.form(0).is_none());
    assert_eq!(d.file(0), None);
    run_all(&mut d, &[0, 3]);
    let report = s.finish_batch(d);
    assert_eq!(report.results.len(), 2);
    assert_eq!(report.counted, 4);
    assert_eq!(s.num_req(), 4);
    assert_eq!(
        report.warnings,
        vec![
            "POST Request Failed for https://a.test/0: timeout".to_string(),
            "POST Request Failed for https://a.test/3: timeout".to_string(),
        ]
    );
}

#[test]
fn post_json_batches_carry_their_mappings() {
    let mut s = thread_session();
    let mut form: StrMap<String> = StrMap::new();
    form.insert("k".to_string(), "v".to_string());
    let mut d = s.post_json_batch(urls(1), vec![form], 1, None).unwrap();
    assert_eq!(d.kind(), BatchKind::PostJson);
    assert!(d.json_bodies());
    assert_eq!(d.form(0).unwrap().get("k"), Some(&"v".to_string()));
    assert_eq!(d.url(0), "https://a.test/0");
    run_all(&mut d, &[]);
    assert_eq!(s.finish_batch(d).counted, 1);
    let a = async_session();
    let d = a.post_batch(urls(1), vec![vec![0]], None).unwrap();
    assert!(!d.json_bodies());
    let d = a.post_json_batch(urls(1), vec![StrMap::new()], None).unwrap();
    assert!(d.json_bodies());
    assert_eq!(d.discipline(), Discipline::AllAtOnce);
}

#[test]
fn download_batches_in_waves_count_nothing() {
    let mut s = thread_session();
    let files = vec!["a.bin".to_string(), "b.bin".to_string(), "c.bin".to_string()];
    let mut d = s.download_batch(urls(3), files, 2, None).unwrap();
    assert_eq!(d.file(1), Some(&"b.bin".to_string()));
    assert_eq!(d.next_wave(), (0, 2));
    assert!(d.report(0, Outcome::Written));
    assert!(d.report(1, Outcome::WriteFailed("disk full".to_string())));
    assert_eq!(d.next_wave(), (2, 3));
    assert!(d.report(2, Outcome::FetchFailed("refused".to_string())));
    assert_eq!(d.slot(0), Slot::Written);
    assert_eq!(d.slot(1), Slot::Failed);
    let report = s.finish_batch(d);
    assert_eq!(report.results.len(), 0);
    assert_eq!(
        report.warnings,
        vec![
            "Download Failed for https://a.test/1".to_string(),
            "Download Failed for https://a.test/2".to_string(),
        ]
    );
    assert_eq!(report.counted, 0);
    assert_eq!(s.num_req(), 0);
}

#[test]
fn download_batches_all_at_once_count_every_request() {
    let mut s = async_session();
    let files = vec!["a.bin".to_string(), "b.bin".to_string(), "c.bin".to_string(), "d.bin".to_string()];
    let mut d = s.download_batch(urls(4), files, Some(true)).unwrap();
    assert_eq!(d.next_wave(), (0, 4));
    assert!(d.report(0, Outcome::Written));
    assert!(d.report(1, Outcome::FetchFailed("refused".to_string())));
    assert!(d.report(2, Outcome::ReadFailed("reset".to_string())));
    assert!(d.report(3, Outcome::WriteFailed("denied".to_string())));
    let report = s.finish_batch(d);
    assert_eq!(
        report.warnings,
        vec![
            "Error downloading `https://a.test/1`".to_string(),
            "Error extracting contents from https://a.test/2".to_string(),
            "Error writing to file `d.bin`: denied".to_string(),
        ]
    );
    assert_eq!(report.counted, 4);
    assert_eq!(s.num_req(), 4);
}

#[test]
fn an_empty_batch_is_over_at_once() {
    let mut s = async_session();
    let mut d = s.get_batch(Vec::new(), None);
    assert!(d.is_done());
    assert_eq!(d.next_wave(), (0, 0));
    let report = s.finish_batch(d);
    assert_eq!(report.results.len(), 0);
    assert_eq!(s.num_req(), 0);
}

#[test]
fn the_responses_of_a_batch_are_envelopes() {
    let mut s = thread_session();
    let mut d = s.get_batch(urls(1), 1, None);
    d.next_wave();
    let raw = RawResponse {
        status_code: 203,
        headers: vec![("Content-Encoding".to_string(), "identity".to_string())],
        body: None,
    };
    assert!(d.report(0, Outcome::Response(raw)));
    let mut report = s.finish_batch(d);
    assert_eq!(report.results.len(), 1);
    let envelope = report.results.get("https://a.test/0").unwrap();
    assert_eq!(envelope.get_status_code(), 203);
    assert_eq!(envelope.raw_content().len(), 0);
    assert_eq!(envelope.get_headers().get("content-encoding"), Some(&"identity".to_string()));
    report.warnings.clear();
}
