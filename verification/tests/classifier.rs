use adskip::classifier::is_ad;

#[test]
fn ad_segment_in_the_middle() {
    assert!(is_ad("/com/spotify/ad/0123"));
}

#[test]
fn ordinary_track_is_no_ad() {
    assert!(!is_ad("/com/spotify/track/0123"));
}

#[test]
fn single_segment_ad() {
    assert!(is_ad("ad"));
}

#[test]
fn empty_identifier_is_no_ad() {
    assert!(!is_ad(""));
}

#[test]
fn ad_segment_is_case_sensitive() {
    assert!(!is_ad("/com/spotify/AD/0123"));
    assert!(!is_ad("/com/spotify/Ad/0123"));
    assert!(!is_ad("aD"));
}

#[test]
fn ad_must_be_a_whole_segment() {
    assert!(!is_ad("/com/spotify/add/1"));
    assert!(!is_ad("/com/spotify/bad/1"));
    assert!(!is_ad("/com/spotify/a/d/1"));
    assert!(!is_ad("/advert/ad1"));
    assert!(!is_ad("a"));
    assert!(!is_ad("d"));
    assert!(!is_ad("ada"));
}

#[test]
fn ad_segment_at_any_position() {
    assert!(is_ad("ad/x"));
    assert!(is_ad("/ad"));
    assert!(is_ad("x/ad"));
    assert!(is_ad("ad/"));
    assert!(is_ad("/ad/"));
    assert!(is_ad("a/b/c/d/e/ad"));
    assert!(is_ad("//ad//"));
    assert!(is_ad("/x/ad/2"));
}

#[test]
fn separators_alone_are_no_ad() {
    assert!(!is_ad("/"));
    assert!(!is_ad("//"));
    assert!(!is_ad("a/d"));
}

#[test]
fn ad_among_characters_beyond_ascii() {
    assert!(is_ad("/caf\u{e9}/ad/\u{1f3b5}"));
    assert!(!is_ad("/caf\u{e9}/\u{430}d/x"));
}

#[test]
fn second_ad_segment_after_a_near_miss() {
    assert!(is_ad("/adx/ad"));
    assert!(is_ad("/xad/ad/y"));
}

#[test]
fn joined_identifiers_have_the_segments_of_both() {
    let parts = ["", "ad", "x", "/ad", "ad/", "a", "d", "x/y", "/", "adx", "x/ad/y"];
    for head in parts {
        for tail in parts {
            let joined = format!("{}/{}", head, tail);
            assert_eq!(is_ad(&joined), is_ad(head) || is_ad(tail), "{:?}", joined);
        }
    }
}
