use german_learn::auth::{bearer_token, find_cookie, presented_token, AuthError, CurrentUser};

#[test]
fn bearer_token_is_what_follows_the_prefix() {
    assert_eq!(bearer_token("Bearer abc.def"), Some("abc.def"));
    assert_eq!(bearer_token("Bearer "), Some(""));
    assert_eq!(bearer_token("Bearer  x "), Some(" x "));
    assert_eq!(bearer_token("Bearer \u{fc}ber"), Some("\u{fc}ber"));
}

#[test]
fn bearer_token_needs_the_exact_prefix() {
    assert_eq!(bearer_token(""), None);
    assert_eq!(bearer_token("Bearer"), None);
    assert_eq!(bearer_token("bearer abc"), None);
    assert_eq!(bearer_token("Basic abc"), None);
    assert_eq!(bearer_token(" Bearer abc"), None);
    assert_eq!(bearer_token("Bearer\tabc"), None);
}

#[test]
fn find_cookie_reads_the_named_cookie() {
    assert_eq!(find_cookie("ba_session=tok", "ba_session"), Some("tok"));
    assert_eq!(find_cookie("a=1; ba_session=tok; b=2", "ba_session"), Some("tok"));
    assert_eq!(find_cookie("a=1;ba_session = tok ;b=2", "ba_session"), Some("tok"));
    assert_eq!(find_cookie("  ba_session=a=b=c  ", "ba_session"), Some("a=b=c"));
    assert_eq!(find_cookie("ba_session=", "ba_session"), Some(""));
    assert_eq!(find_cookie("x=1; x=2", "x"), Some("1"));
}

#[test]
fn find_cookie_is_none_without_the_cookie() {
    assert_eq!(find_cookie("", "ba_session"), None);
    assert_eq!(find_cookie("ba_session", "ba_session"), None);
    assert_eq!(find_cookie("other=1; another=2", "ba_session"), None);
    assert_eq!(find_cookie("BA_SESSION=1", "ba_session"), None);
    assert_eq!(find_cookie("xba_session=1", "ba_session"), None);
    assert_eq!(find_cookie(";;;", "a"), None);
}

#[test]
fn find_cookie_skips_pieces_without_an_equals_sign() {
    assert_eq!(find_cookie("junk; a=1", "a"), Some("1"));
    assert_eq!(find_cookie("a; a=2", "a"), Some("2"));
    assert_eq!(find_cookie("=v", ""), Some("v"));
}

#[test]
fn presented_token_prefers_the_bearer_token() {
    assert_eq!(presented_token(Some("Bearer t1"), Some("s=t2"), "s"), Some("t1"));
    assert_eq!(presented_token(Some("Basic t1"), Some("s=t2"), "s"), Some("t2"));
    assert_eq!(presented_token(None, Some("s=t2"), "s"), Some("t2"));
    assert_eq!(presented_token(Some("Bearer t1"), None, "s"), Some("t1"));
    assert_eq!(presented_token(None, None, "s"), None);
    assert_eq!(presented_token(Some("nope"), Some("other=1"), "s"), None);
}

#[test]
fn auth_error_answers_unauthorized() {
    assert_eq!(AuthError.response(), (401, "unauthorized"));
    let user = CurrentUser { user_id: "u".to_string(), email: None, name: Some("N".to_string()) };
    assert_eq!(user.clone().user_id, "u");
}
