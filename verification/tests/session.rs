use civic_graph::session::{bearer_token, refresh_action, space, RefreshAction};

#[test]
fn bearer_token_is_the_second_word() {
    assert_eq!(bearer_token("Bearer abc.def.ghi"), Some("abc.def.ghi".to_string()));
    assert_eq!(bearer_token("  Bearer \t abc   def "), Some("abc".to_string()));
    assert_eq!(bearer_token("Bearer\u{a0}tok\u{3000}rest"), Some("tok".to_string()));
    assert_eq!(bearer_token("a b"), Some("b".to_string()));
}

#[test]
fn a_header_of_fewer_than_two_words_has_no_token() {
    assert_eq!(bearer_token(""), None);
    assert_eq!(bearer_token("   "), None);
    assert_eq!(bearer_token("Bearer"), None);
    assert_eq!(bearer_token("  Bearer  "), None);
}

#[test]
fn bearer_token_agrees_with_splitting_at_white_space() {
    let samples = [
        "",
        " ",
        "x",
        "x y",
        "x\ny\rz",
        "\u{2003}één\u{2028}twee\u{205f}drie",
        "Bearer  eyJhbGciOiJIUzI1NiJ9.e30.abc ",
        "no-second-word\u{b}",
        "\u{feff}x y",
    ];
    for s in samples {
        let expected = s.split_whitespace().nth(1).map(|w| w.to_string());
        assert_eq!(bearer_token(s), expected, "header = {:?}", s);
    }
}

#[test]
fn white_space_is_what_the_standard_library_says() {
    for v in 0u32..=0x10FFFF {
        if let Some(c) = char::from_u32(v) {
            assert_eq!(space(c), c.is_whitespace(), "U+{:04X}", v);
        }
    }
}

#[test]
fn refresh_decisions() {
    let mine = "r-1".to_string();
    let other = "r-2".to_string();
    assert_eq!(refresh_action(None, true, Some(&mine)), RefreshAction::Nothing);
    assert_eq!(refresh_action(None, false, None), RefreshAction::Nothing);
    assert_eq!(refresh_action(Some(&mine), true, Some(&mine)), RefreshAction::Renew);
    assert_eq!(refresh_action(Some(&mine), true, Some(&other)), RefreshAction::ClearCookies);
    assert_eq!(refresh_action(Some(&mine), true, None), RefreshAction::ClearCookies);
    assert_eq!(refresh_action(Some(&mine), false, Some(&mine)), RefreshAction::ClearCookies);
    assert_eq!(refresh_action(Some(&mine), false, None), RefreshAction::ClearCookies);
}
