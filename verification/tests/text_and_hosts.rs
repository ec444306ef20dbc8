use pixelwalker::text::{join_with, second_segment};
use pixelwalker::vars::{api_host, email_password, game_host, trim_host};

#[test]
fn join_puts_the_separator_between_parts() {
    let parts = vec!["-woots".to_string(), "-plays".to_string()];
    assert_eq!(join_with(&parts, ","), "-woots,-plays");
    assert_eq!(join_with(&vec!["a".to_string()], ","), "a");
    assert_eq!(join_with(&Vec::new(), ","), "");
}

#[test]
fn second_segment_is_between_the_first_two_separators() {
    assert_eq!(second_segment("a.b.c", '.'), Some("b".to_string()));
    assert_eq!(second_segment("a.b", '.'), Some("b".to_string()));
    assert_eq!(second_segment("a..c", '.'), Some("".to_string()));
    assert_eq!(second_segment("é.ñü.x", '.'), Some("ñü".to_string()));
    assert_eq!(second_segment("abc", '.'), None);
    assert_eq!(second_segment("", '.'), None);
}

#[test]
fn second_segment_agrees_with_split() {
    for s in ["h.p.s", "x", ".", "..", "a.b.c.d", ".p", "p."] {
        assert_eq!(second_segment(s, '.'), s.split('.').nth(1).map(|p| p.to_string()));
    }
}

#[test]
fn a_trailing_slash_is_dropped_once() {
    assert_eq!(trim_host("https://example.org/"), "https://example.org");
    assert_eq!(trim_host("https://example.org"), "https://example.org");
    assert_eq!(trim_host("a//"), "a/");
    assert_eq!(trim_host(""), "");
    assert_eq!(trim_host("/"), "");
}

#[test]
fn hosts_fall_back_to_the_defaults() {
    assert_eq!(api_host(None), "https://api.pixelwalker.net");
    assert_eq!(game_host(None), "wss://game.pixelwalker.net");
    assert_eq!(api_host(Some("http://localhost:8090/")), "http://localhost:8090");
    assert_eq!(game_host(Some("ws://localhost:8080")), "ws://localhost:8080");
}

#[test]
fn credentials_need_both_variables() {
    assert_eq!(
        email_password(Some("user@example.org"), Some("12345678")),
        Some(("user@example.org".to_string(), "12345678".to_string()))
    );
    assert_eq!(email_password(Some("user@example.org"), None), None);
    assert_eq!(email_password(None, Some("x")), None);
    assert_eq!(email_password(None, None), None);
}
