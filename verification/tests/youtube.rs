use whatsong::error::Error;
use whatsong::youtube::{extract_video_id, FetchOutcome, Item, ResponseItem, Song, Youtube};
use whatsong::{Item as Report, ItemKind};

fn report(url: &str, ts: i64, version: u32) -> Report {
    Report { kind: ItemKind::Youtube(url.to_string()), ts, version }
}

fn outcome(title: &str, duration: &str) -> FetchOutcome {
    FetchOutcome::Response(vec![ResponseItem {
        title: title.to_string(),
        duration: duration.to_string(),
    }])
}

#[test]
fn extract_short_link() {
    let r = extract_video_id("https://youtu.be/dQw4w9WgXcQ");
    assert_eq!(r.unwrap(), "dQw4w9WgXcQ");
}

#[test]
fn extract_watch_query() {
    let r = extract_video_id("https://www.youtube.com/watch?v=dQw4w9WgXcQ");
    assert_eq!(r.unwrap(), "dQw4w9WgXcQ");
}

#[test]
fn extract_rejects_unrelated_url() {
    let r = extract_video_id("https://example.com/watch?v=dQw4w9WgXcQ");
    assert!(matches!(r, Err(Error::InvalidSourceUrl(u)) if u == "https://example.com/watch?v=dQw4w9WgXcQ"));
}

#[test]
fn extract_rejects_without_scheme() {
    let r = extract_video_id("youtu.be/dQw4w9WgXcQ");
    assert!(matches!(r, Err(Error::InvalidSourceUrl(_))));
}

#[test]
fn extract_rejects_short_identifier() {
    let r = extract_video_id("https://youtu.be/dQw4w9WgXc");
    assert!(matches!(r, Err(Error::InvalidSourceUrl(_))));
}

#[test]
fn extract_takes_first_eleven_of_longer_run() {
    let r = extract_video_id("https://youtu.be/dQw4w9WgXcQQQ");
    assert_eq!(r.unwrap(), "dQw4w9WgXcQ");
}

#[test]
fn resolve_transport_failure() {
    let r = Item::resolve(FetchOutcome::Unavailable);
    assert!(matches!(r, Err(Error::MetadataUnavailable)));
}

#[test]
fn resolve_empty_response() {
    let r = Item::resolve(FetchOutcome::Response(Vec::new()));
    assert!(matches!(r, Err(Error::InvalidMetadata)));
}

#[test]
fn resolve_decodes_duration() {
    let r = Item::resolve(outcome("Some Song", "PT1H2M3S")).unwrap();
    assert_eq!(r.title, "Some Song");
    assert_eq!(r.duration, 3723);
}

#[test]
fn empty_store_has_no_current_and_no_previous() {
    let store = Youtube::new();
    assert!(matches!(store.current(), Err(Error::NotFound)));
    assert!(matches!(store.previous(), Err(Error::NotFound)));
}

#[test]
fn one_element_store_has_current_but_no_previous() {
    let mut store = Youtube::new();
    store
        .insert(report("https://youtu.be/dQw4w9WgXcQ", 10, 1), outcome("one", "PT1M"))
        .unwrap();
    assert_eq!(store.current().unwrap().title, "one");
    assert!(matches!(store.previous(), Err(Error::NotFound)));
}

#[test]
fn ordering_current_previous_all() {
    let mut store = Youtube::new();
    store
        .insert(report("https://youtu.be/aaaaaaaaaaa", 10, 1), outcome("E1", "PT1M"))
        .unwrap();
    store
        .insert(report("https://youtu.be/bbbbbbbbbbb", 20, 1), outcome("E2", "PT2M"))
        .unwrap();
    store
        .insert(report("https://youtu.be/ccccccccccc", 30, 1), outcome("E3", "PT3M"))
        .unwrap();
    assert_eq!(store.current().unwrap().title, "E3");
    assert_eq!(store.previous().unwrap().title, "E2");
    let all: Vec<Song> = store.all().unwrap();
    let titles: Vec<&str> = all.iter().map(|s| s.title.as_str()).collect();
    assert_eq!(titles, vec!["E1", "E2", "E3"]);
}

#[test]
fn sequences_are_unique_and_increasing() {
    let mut store = Youtube::new();
    let n = 5;
    for i in 0..n {
        store
            .insert(
                report("https://youtu.be/dQw4w9WgXcQ", i as i64, 1),
                outcome("title", "PT1M"),
            )
            .unwrap();
    }
    let all = store.all().unwrap();
    assert_eq!(all.len(), n);
    for w in all.windows(2) {
        assert!(w[0].id < w[1].id);
    }
}

#[test]
fn version_gate_rejects_and_leaves_log_unchanged() {
    let mut store = Youtube::new();
    store
        .insert(report("https://youtu.be/dQw4w9WgXcQ", 10, 1), outcome("kept", "PT1M"))
        .unwrap();
    let r = store.insert(report("https://youtu.be/dQw4w9WgXcQ", 20, 2), outcome("gone", "PT1M"));
    assert!(matches!(r, Err(Error::UnsupportedVersion { expected: 1, got: 2 })));
    assert_eq!(store.all().unwrap().len(), 1);
}

#[test]
fn invalid_url_rejects_and_leaves_log_unchanged() {
    let mut store = Youtube::new();
    let r = store.insert(report("https://example.com/nothing", 10, 1), outcome("x", "PT1M"));
    assert!(matches!(r, Err(Error::InvalidSourceUrl(_))));
    assert_eq!(store.all().unwrap().len(), 0);
}

#[test]
fn metadata_failures_propagate_and_leave_log_unchanged() {
    let mut store = Youtube::new();
    let r = store.insert(report("https://youtu.be/dQw4w9WgXcQ", 10, 1), FetchOutcome::Unavailable);
    assert!(matches!(r, Err(Error::MetadataUnavailable)));
    let r = store.insert(
        report("https://youtu.be/dQw4w9WgXcQ", 10, 1),
        FetchOutcome::Response(Vec::new()),
    );
    assert!(matches!(r, Err(Error::InvalidMetadata)));
    assert_eq!(store.all().unwrap().len(), 0);
}

#[test]
fn written_event_reads_back_identically() {
    let mut store = Youtube::new();
    store
        .insert(report("https://youtu.be/dQw4w9WgXcQ", 1234, 1), outcome("Round Trip", "PT2M5S"))
        .unwrap();
    let all = store.all().unwrap();
    assert_eq!(all.len(), 1);
    let song = &all[0];
    assert_eq!(song.id, 1);
    assert_eq!(song.vid, "dQw4w9WgXcQ");
    assert_eq!(song.timestamp, 1234);
    assert_eq!(song.duration, 125);
    assert_eq!(song.title, "Round Trip");
    let current = store.current().unwrap();
    assert_eq!(current.vid, song.vid);
    assert_eq!(current.timestamp(), 1234);
}
