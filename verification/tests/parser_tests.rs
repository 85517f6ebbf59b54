use tiktok_bot::parser::is_tiktok_url;

#[test]
fn short_link_with_scheme_matches() {
    assert!(is_tiktok_url("https://vm.tiktok.com/ZMabc123/"));
    assert!(is_tiktok_url("http://vm.tiktok.com/ZMabc123/"));
}

#[test]
fn long_link_matches() {
    assert!(is_tiktok_url("https://www.tiktok.com/@someone/video/7123456789012345678"));
}

#[test]
fn link_without_scheme_matches() {
    assert!(is_tiktok_url("vm.tiktok.com/ZMabc123/"));
    assert!(is_tiktok_url("www.tiktok.com/@someone/video/1"));
}

#[test]
fn letter_case_is_ignored() {
    assert!(is_tiktok_url("HTTPS://VM.TIKTOK.COM/A"));
    assert!(is_tiktok_url("ab.TikTok.Com/ok"));
}

#[test]
fn plain_text_does_not_match() {
    assert!(!is_tiktok_url("hello"));
    assert!(!is_tiktok_url(""));
    assert!(!is_tiktok_url("https://example.com/vm.tiktok.com"));
}

#[test]
fn host_label_must_be_two_or_three_word_characters() {
    assert!(is_tiktok_url("vm.tiktok.com/x"));
    assert!(is_tiktok_url("v_1.tiktok.com/x"));
    assert!(!is_tiktok_url("a.tiktok.com/x"));
    assert!(!is_tiktok_url("abcd.tiktok.com/x"));
    assert!(!is_tiktok_url("v-m.tiktok.com/x"));
}

#[test]
fn something_must_follow_the_slash() {
    assert!(!is_tiktok_url("vm.tiktok.com/"));
    assert!(!is_tiktok_url("https://vm.tiktok.com/"));
    assert!(!is_tiktok_url("vm.tiktok.com/\n"));
    assert!(is_tiktok_url("vm.tiktok.com/a\n"));
}

#[test]
fn anchoring_is_at_the_start_only() {
    assert!(!is_tiktok_url(" vm.tiktok.com/x"));
    assert!(is_tiktok_url("vm.tiktok.com/x and more words"));
}
