use oauth_session::cookie::{get_session, session_cookie, white_space};

#[test]
fn finds_session_between_other_pairs() {
    assert_eq!(get_session("other=1; session_id=abc123; foo=bar"), Some("abc123"));
}

#[test]
fn header_without_session_pair_gives_none() {
    assert_eq!(get_session("other=1; foo=bar"), None);
}

#[test]
fn empty_header_gives_none() {
    assert_eq!(get_session(""), None);
}

#[test]
fn single_pair_header() {
    assert_eq!(get_session("session_id=xyz"), Some("xyz"));
}

#[test]
fn round_trip_of_a_32_character_identifier() {
    let id = "A1b2C3d4E5f6G7h8I9j0K1l2M3n4O5p6";
    let header = format!("other=1; session_id={id}; foo=bar");
    assert_eq!(get_session(&header), Some(id));
}

#[test]
fn first_match_wins() {
    assert_eq!(get_session("session_id=first; session_id=second"), Some("first"));
    assert_eq!(get_session("a=b;session_id=one;session_id=two"), Some("one"));
}

#[test]
fn white_space_around_a_pair_is_dropped() {
    assert_eq!(get_session("  session_id=abc  "), Some("abc"));
    assert_eq!(get_session("a=1;\t session_id=abc \t;b=2"), Some("abc"));
    assert_eq!(get_session("\u{a0}session_id=abc\u{3000}"), Some("abc"));
}

#[test]
fn white_space_inside_a_pair_is_kept() {
    // The key is compared as it stands: a space before `=` makes another key.
    assert_eq!(get_session("session_id =abc"), None);
    // The value starts right after `=`.
    assert_eq!(get_session("session_id= abc"), Some(" abc"));
    assert_eq!(get_session("session_id=a b c"), Some("a b c"));
}

#[test]
fn value_may_hold_equals_signs() {
    assert_eq!(get_session("session_id=a=b=c"), Some("a=b=c"));
    assert_eq!(get_session("session_id=="), Some("="));
}

#[test]
fn empty_value_is_a_value() {
    assert_eq!(get_session("session_id="), Some(""));
    assert_eq!(get_session("session_id=; other=1"), Some(""));
}

#[test]
fn parts_without_equals_are_passed_over() {
    assert_eq!(get_session("session_id"), None);
    assert_eq!(get_session("garbage; session_id=ok"), Some("ok"));
    assert_eq!(get_session(";;; ;session_id=ok;"), Some("ok"));
    assert_eq!(get_session(";"), None);
}

#[test]
fn key_must_match_exactly() {
    assert_eq!(get_session("Session_id=abc"), None);
    assert_eq!(get_session("session_id2=abc"), None);
    assert_eq!(get_session("xsession_id=abc"), None);
    assert_eq!(get_session("session_i=abc"), None);
    assert_eq!(get_session("=session_id"), None);
}

#[test]
fn value_is_cut_at_the_semicolon() {
    assert_eq!(get_session("session_id=abc;def"), Some("abc"));
}

#[test]
fn non_ascii_text_is_read_by_character() {
    assert_eq!(get_session("nåme=välue; session_id=日本語; x=y"), Some("日本語"));
    assert_eq!(get_session("ключ=значение"), None);
}

#[test]
fn set_cookie_directive_with_exact_text() {
    assert_eq!(session_cookie("abc", 3600), "session_id=abc; Max-Age=3600");
    assert_eq!(session_cookie("abc", 0), "session_id=abc; Max-Age=0");
    assert_eq!(session_cookie("", 7), "session_id=; Max-Age=7");
    assert_eq!(session_cookie("x", 10), "session_id=x; Max-Age=10");
    assert_eq!(session_cookie("x", 1234567890), "session_id=x; Max-Age=1234567890");
    assert_eq!(
        session_cookie("x", u64::MAX),
        "session_id=x; Max-Age=18446744073709551615"
    );
}

#[test]
fn issued_cookie_is_read_back() {
    let id = "Zz09Aa11Bb22Cc33Dd44Ee55Ff66Gg77";
    let from_browser = format!("session_id={id}");
    assert_eq!(get_session(&from_browser), Some(id));
    // The directive itself reads back too: `Max-Age` is another part.
    assert_eq!(get_session(&session_cookie(id, 3600)), Some(id));
}

#[test]
fn white_space_is_the_unicode_property() {
    let mut code: u32 = 0;
    while code <= 0x10ffff {
        if let Some(c) = char::from_u32(code) {
            assert_eq!(white_space(c), c.is_whitespace(), "U+{code:04X}");
        }
        code += 1;
    }
}

#[test]
fn trimming_agrees_with_the_standard_library() {
    let headers = [
        " a=b ; session_id=1 ",
        "\u{2003}session_id=wide\u{2003}",
        "\u{200b}session_id=zero-width",
        "x;\r\n session_id=crlf\r\n",
    ];
    for header in headers {
        let expected = header
            .split(';')
            .map(str::trim)
            .filter_map(|part| part.split_once('='))
            .find_map(|(key, value)| (key == "session_id").then_some(value));
        assert_eq!(get_session(header), expected, "{header:?}");
    }
}
