use nexrad_workbench::network::{
    can_shorten_url, can_shorten_url_compact, duration_text, group_header, group_name,
    group_requests, is_expanded, log_notes, requests_summary, shorten_url, shorten_url_compact,
    size_text, status_color, status_text, toggle_group, total_bytes, NetworkRequest,
};

fn request(operation_id: Option<u64>, bytes: u64, duration_us: u64) -> NetworkRequest {
    NetworkRequest {
        url: "https://example.com/a".to_string(),
        status: 200,
        ok: true,
        bytes,
        duration_us,
        timestamp_ms: 0,
        operation_id,
    }
}

#[test]
fn statuses_are_coloured_by_outcome() {
    let c = status_color(404, false);
    assert_eq!((c.r, c.g, c.b), (255, 100, 100));
    let c = status_color(302, true);
    assert_eq!((c.r, c.g, c.b), (255, 200, 80));
    let c = status_color(200, true);
    assert_eq!((c.r, c.g, c.b), (100, 200, 100));
    assert_eq!(status_text(0), "ERR");
    assert_eq!(status_text(404), "404");
}

#[test]
fn sizes_and_durations_are_written() {
    assert_eq!(size_text(0, "0 B", "-"), "-");
    assert_eq!(size_text(5, "5 B", "-"), "5 B");
    assert_eq!(duration_text(1_500), "2ms");
    assert_eq!(duration_text(2_500), "2ms");
    assert_eq!(requests_summary(3, "1 KB"), "3 requests \u{b7} 1 KB");
}

#[test]
fn compact_urls_keep_the_last_segment() {
    assert_eq!(shorten_url_compact("https://host/a/b/file.bin"), ".../file.bin");
    assert_eq!(shorten_url_compact("https://host"), "host");
    let long = "x".repeat(40);
    let url = ["https://host/", &long].concat();
    assert_eq!(shorten_url_compact(&url), [".../", &"x".repeat(30)].concat());
    let bare = "y".repeat(60);
    assert_eq!(shorten_url_compact(&bare), ["...", &"y".repeat(47)].concat());
}

#[test]
fn urls_are_cut_between_characters_alone() {
    assert!(can_shorten_url_compact("https://host/a"));
    // Two bytes each: the cut 30 bytes from the end is whole, one 31 from it is not.
    let even = ["https://host/", &"\u{e9}".repeat(20)].concat();
    assert!(can_shorten_url_compact(&even));
    assert_eq!(shorten_url_compact(&even), [".../", &"\u{e9}".repeat(15)].concat());
    let odd = ["https://host/", &"\u{e9}".repeat(20), "x"].concat();
    assert!(!can_shorten_url_compact(&odd));
    assert!(can_shorten_url(&even) && can_shorten_url(&odd));
    let long = ["https://host/", &"\u{e9}".repeat(100)].concat();
    // 111 bytes of the path are shown.
    assert!(!can_shorten_url(&long));
    assert!(can_shorten_url(&[&long, "x"].concat()));
}

#[test]
fn logged_urls_keep_host_and_tail() {
    assert_eq!(shorten_url("https://host/path"), "host/path");
    let url = ["https://host/", &"p".repeat(200)].concat();
    let short = shorten_url(&url);
    assert!(short.starts_with("host/.../"));
    assert_eq!(short.len(), 120);
}

#[test]
fn requests_are_grouped_by_operation() {
    let reqs = vec![
        request(Some(1), 10, 1_000),
        request(None, 5, 500),
        request(Some(1), 20, 2_000),
    ];
    let groups = group_requests(&reqs);
    let total: u64 = groups.iter().map(|g| g.bytes).sum();
    assert_eq!(total, total_bytes(&reqs));
    assert_eq!(total, 35);
    let one = groups.iter().find(|g| g.id == Some(1)).unwrap();
    assert_eq!(one.indices.len(), 2);
    assert_eq!(one.duration_us, 3_000);
    assert_eq!(
        group_header("Scan", 2, "30 B", one.duration_us),
        "Scan  (2 req, 30 B, 3ms)"
    );
}

#[test]
fn groups_are_named() {
    assert_eq!(group_name(None, None), "Ungrouped");
    assert_eq!(group_name(Some(4), None), "Op #4");
    assert_eq!(group_name(Some(4), Some("KTLX".to_string())), "KTLX");
}

#[test]
fn groups_open_and_close() {
    let mut open: Vec<Option<u64>> = Vec::new();
    toggle_group(&mut open, Some(1));
    toggle_group(&mut open, None);
    assert!(is_expanded(&open, Some(1)) && is_expanded(&open, None));
    toggle_group(&mut open, Some(1));
    assert!(!is_expanded(&open, Some(1)) && is_expanded(&open, None));
}

#[test]
fn the_log_speaks_of_failures_where_there_are_any() {
    let texts = |failed: u64, isolated: bool| -> Vec<String> {
        log_notes(7, failed, "2 KB", isolated, true)
            .into_iter()
            .map(|n| n.text)
            .collect()
    };
    assert_eq!(
        texts(0, false),
        vec!["7 requests", "2 KB transferred", "COI: inactive"]
    );
    assert_eq!(
        texts(2, true),
        vec!["7 requests", "2 failed", "2 KB transferred", "COI: active"]
    );
    let failed = log_notes(7, 2, "", true, true)[1].color;
    assert_eq!((failed.r, failed.g, failed.b), (255, 100, 100));
}

#[test]
fn toggling_a_group_twice_restores_it() {
    let mut expanded = vec![None, Some(4)];
    toggle_group(&mut expanded, Some(4));
    assert!(!is_expanded(&expanded, Some(4)));
    assert!(is_expanded(&expanded, None));
    toggle_group(&mut expanded, Some(4));
    assert!(is_expanded(&expanded, Some(4)));
    assert!(is_expanded(&expanded, None));
}
