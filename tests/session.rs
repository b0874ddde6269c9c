use dm_ticket::session::{
    clean_cookie, cookie_header, login_cookie_string, request_sign, session_cookie_string, sign_source,
};

#[test]
fn sign_is_md5_of_joined_fields() {
    assert_eq!(sign_source("tok", "1700000000000", "12574478", "{\"a\":1}"), "tok&1700000000000&12574478&{\"a\":1}");
    assert_eq!(
        request_sign("tok", "1700000000000", "12574478", "{\"a\":1}"),
        "807afcd60b992c88954b79d8d24d911d"
    );
}

#[test]
fn cookie_header_appends_tokens() {
    assert_eq!(
        cookie_header("cookie2=abc", "enc", "tk_123"),
        "cookie2=abc;_m_h5_tk_enc=enc;_m_h5_tk=tk_123;"
    );
}

#[test]
fn browser_cookies_skip_token_cookies() {
    let cookies = vec![
        ("cookie2".to_string(), "c2".to_string()),
        ("_m_h5_tk".to_string(), "t_1".to_string()),
        ("_m_h5_tk_enc".to_string(), "e".to_string()),
        ("sid".to_string(), "s".to_string()),
    ];
    assert_eq!(session_cookie_string(&cookies), "cookie2=c2;sid=s;");
    assert_eq!(session_cookie_string(&vec![]), "");
}

#[test]
fn login_cookies_from_set_cookie_headers() {
    let headers = vec![
        ("set-cookie".to_string(), "a=1; Path=/; HttpOnly".to_string()),
        ("content-type".to_string(), "text/html".to_string()),
        ("set-cookie".to_string(), "b=2;".to_string()),
    ];
    assert_eq!(login_cookie_string("xyz", &headers), "cookie2=xyz;a=1;b=2;");
}

#[test]
fn stored_cookie_is_cleaned() {
    assert_eq!(
        clean_cookie(" a=1; _m_h5_tk=x_1;\n b=2 ;_m_h5_tk_enc=e"),
        "a=1;b=2"
    );
    assert_eq!(clean_cookie("a=1;b=2;"), "a=1;b=2;");
    assert_eq!(clean_cookie(""), "");
    assert_eq!(clean_cookie("_m_h5_tk=1"), "");
    assert_eq!(clean_cookie("_m_h5_tk=1;c=3"), "c=3");
}
