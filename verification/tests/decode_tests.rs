use engine_client::decode::decode_counters;
use engine_client::decode::decode_list_entries;
use engine_client::decode::decode_pairs;
use engine_client::error::Error;
use engine_client::facade::clients_response;
use engine_client::facade::list_response;
use engine_client::facade::query_types_response;
use engine_client::facade::status_response;
use engine_client::facade::summary_response;
use engine_client::facade::top_domains_response;
use engine_client::protocol::take_reply;

fn lines(xs: &[&str]) -> Vec<String> {
    let mut v: Vec<String> = Vec::new();
    for x in xs {
        v.push(x.to_string());
    }
    v
}

#[test]
fn top_domains_fixture_in_rank_order() {
    let raw = lines(&["example.com 50", "ads.test 30", "tracker.io 10", "---EOM---"]);
    let r = top_domains_response(&raw, 3).unwrap();
    assert_eq!(r.len(), 3);
    assert_eq!(r[0].name, "example.com");
    assert_eq!(r[0].count, 50);
    assert_eq!(r[1].name, "ads.test");
    assert_eq!(r[1].count, 30);
    assert_eq!(r[2].name, "tracker.io");
    assert_eq!(r[2].count, 10);
}

#[test]
fn top_list_limit_five_of_eight() {
    let raw = lines(&[
        "a.example 80",
        "b.example 70",
        "c.example 60",
        "d.example 50",
        "e.example 40",
        "f.example 30",
        "g.example 20",
        "h.example 10",
        "---EOM---",
    ]);
    let r = top_domains_response(&raw, 5).unwrap();
    assert_eq!(r.len(), 5);
    let want = ["a.example", "b.example", "c.example", "d.example", "e.example"];
    for (i, name) in want.iter().enumerate() {
        assert_eq!(r[i].name, *name);
    }
}

#[test]
fn top_list_ties_keep_first_appearance_order() {
    let raw = lines(&["z.example 30", "a.example 30", "m.example 30", "---EOM---"]);
    let r = top_domains_response(&raw, 2).unwrap();
    assert_eq!(r[0].name, "z.example");
    assert_eq!(r[1].name, "a.example");
}

#[test]
fn decode_never_reads_beyond_sentinel() {
    let with_junk = lines(&[
        "example.com 50",
        "---EOM---",
        "not even close",
        "broken 0x12",
        "---EOM---",
    ]);
    let clean = lines(&["example.com 50", "---EOM---"]);
    let a = top_domains_response(&with_junk, 10).unwrap();
    let b = top_domains_response(&clean, 10).unwrap();
    assert_eq!(a, b);
}

#[test]
fn missing_sentinel_is_connection_error() {
    let raw = lines(&["example.com 50", "ads.test 30"]);
    assert_eq!(top_domains_response(&raw, 10).unwrap_err(), Error::Connection);
}

#[test]
fn take_reply_stops_at_first_sentinel() {
    let raw = lines(&["one 1", "---EOM---", "two 2", "---EOM---"]);
    let body = take_reply(&raw).unwrap();
    assert_eq!(body, lines(&["one 1"]));
}

#[test]
fn non_numeric_count_is_parse_error() {
    let raw = lines(&["example.com abc", "---EOM---"]);
    assert_eq!(top_domains_response(&raw, 10).unwrap_err(), Error::Parse);
}

#[test]
fn missing_count_field_is_parse_error() {
    let raw = lines(&["example.com", "---EOM---"]);
    assert_eq!(top_domains_response(&raw, 10).unwrap_err(), Error::Parse);
}

#[test]
fn blank_lines_are_tolerated() {
    let raw = lines(&["example.com 50", "", "   ", "---EOM---"]);
    let r = top_domains_response(&raw, 10).unwrap();
    assert_eq!(r.len(), 1);
    assert_eq!(r[0].name, "example.com");
}

#[test]
fn extra_trailing_fields_are_ignored() {
    let raw = lines(&["example.com 50 CNAME extra", "---EOM---"]);
    let r = top_domains_response(&raw, 10).unwrap();
    assert_eq!(r.len(), 1);
    assert_eq!(r[0].name, "example.com");
    assert_eq!(r[0].count, 50);
}

#[test]
fn engine_error_indicator_surfaces_as_engine_error() {
    let raw = lines(&["error busy", "---EOM---"]);
    assert_eq!(top_domains_response(&raw, 10).unwrap_err(), Error::Engine);
}

#[test]
fn counters_decode_to_pairs() {
    let body = lines(&["queries 100", "blocked 40", "domains 120"]);
    let cs = decode_counters(&body).unwrap();
    assert_eq!(cs.len(), 3);
    assert_eq!(cs[0].name, "queries");
    assert_eq!(cs[0].value, 100);
    assert_eq!(cs[2].name, "domains");
    assert_eq!(cs[2].value, 120);
}

#[test]
fn pairs_value_over_u64_max_is_parse_error() {
    let body = lines(&["queries 18446744073709551616"]);
    assert!(decode_pairs(&body).is_err());
    let ok = lines(&["queries 18446744073709551615"]);
    assert_eq!(decode_pairs(&ok).unwrap()[0].1, u64::MAX);
}

#[test]
fn list_entries_with_flags() {
    let raw = lines(&["example.com", "ads.test 0", "tracker.io 1", "---EOM---"]);
    let r = list_response(&raw).unwrap();
    assert_eq!(r.len(), 3);
    assert_eq!(r[0].domain, "example.com");
    assert!(r[0].enabled);
    assert_eq!(r[1].domain, "ads.test");
    assert!(!r[1].enabled);
    assert_eq!(r[2].domain, "tracker.io");
    assert!(r[2].enabled);
}

#[test]
fn list_entries_never_fail_on_odd_lines() {
    let raw = lines(&["strange-line with many words", "---EOM---"]);
    let r = list_response(&raw).unwrap();
    assert_eq!(r.len(), 1);
    assert_eq!(r[0].domain, "strange-line");
}

#[test]
fn status_decodes_both_flags() {
    let raw = lines(&["enabled 1", "blocking 0", "---EOM---"]);
    let s = status_response(&raw).unwrap();
    assert!(s.enabled);
    assert!(!s.blocking);
}

#[test]
fn status_missing_flag_is_parse_error() {
    let raw = lines(&["enabled 1", "---EOM---"]);
    assert_eq!(status_response(&raw).unwrap_err(), Error::Parse);
}

#[test]
fn status_flag_out_of_range_is_parse_error() {
    let raw = lines(&["enabled 2", "blocking 0", "---EOM---"]);
    assert_eq!(status_response(&raw).unwrap_err(), Error::Parse);
}

#[test]
fn decode_list_entries_is_order_preserving() {
    let body = lines(&["b.example", "a.example"]);
    let r = decode_list_entries(&body);
    assert_eq!(r[0].domain, "b.example");
    assert_eq!(r[1].domain, "a.example");
}

#[test]
fn client_breakdown_decodes_in_order() {
    let raw = lines(&["10.0.0.2 120", "10.0.0.7 44", "---EOM---"]);
    let r = clients_response(&raw).unwrap();
    assert_eq!(r.len(), 2);
    assert_eq!(r[0].name, "10.0.0.2");
    assert_eq!(r[0].count, 120);
    assert_eq!(r[1].name, "10.0.0.7");
    assert_eq!(r[1].count, 44);
}

#[test]
fn query_type_breakdown_decodes() {
    let raw = lines(&["A 900", "AAAA 300", "PTR 12", "---EOM---"]);
    let r = query_types_response(&raw).unwrap();
    assert_eq!(r.len(), 3);
    assert_eq!(r[1].qtype, "AAAA");
    assert_eq!(r[1].count, 300);
}

#[test]
fn summary_merges_stats_and_status() {
    let stats = lines(&["queries 100", "blocked 40", "domains 120", "---EOM---"]);
    let status = lines(&["enabled 1", "blocking 1", "---EOM---"]);
    let s = summary_response(&stats, &status).unwrap();
    assert_eq!(s.total_queries, 100);
    assert_eq!(s.blocked_queries, 40);
    assert_eq!(s.domains_on_blocklist, 120);
    assert!(s.enabled);
}

#[test]
fn summary_fails_whole_when_stats_key_missing() {
    let stats = lines(&["queries 100", "domains 120", "---EOM---"]);
    let status = lines(&["enabled 1", "blocking 1", "---EOM---"]);
    assert_eq!(summary_response(&stats, &status).unwrap_err(), Error::Parse);
}

#[test]
fn summary_fails_whole_when_status_fails() {
    let stats = lines(&["queries 100", "blocked 40", "domains 120", "---EOM---"]);
    let status = lines(&["enabled 1", "blocking 1"]);
    assert_eq!(summary_response(&stats, &status).unwrap_err(), Error::Connection);
}
