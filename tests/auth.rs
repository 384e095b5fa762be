use kalshi::{Kalshi, KalshiError, LoggedIn, LoginResponse, PostRequest};

fn reply(member_id: &str, token: &str) -> Result<LoginResponse, KalshiError> {
    Ok(LoginResponse { member_id: member_id.to_string(), token: token.to_string() })
}

fn logged_in(base_url: &str, member_id: &str, token: &str) -> Kalshi<LoggedIn> {
    match Kalshi::new(base_url).login(reply(member_id, token)) {
        Ok(h) => h,
        Err(e) => panic!("login failed: {:?}", e),
    }
}

fn header<'a>(req: &'a PostRequest, name: &str) -> Option<&'a str> {
    req.headers.iter().find(|(k, _)| k == name).map(|(_, v)| v.as_str())
}

#[test]
fn new_handle_is_logged_out() {
    let h = Kalshi::new("https://api.example.com/v1");
    assert_eq!(h.base_url(), "https://api.example.com/v1");
    assert_eq!(h.curr_token(), None);
    assert_eq!(h.member_id(), None);
}

#[test]
fn login_request_posts_credentials() {
    let h = Kalshi::new("https://api.example.com/v1");
    let req = h.login_request("a@b.com", "pw");
    assert_eq!(req.url, "https://api.example.com/v1/login");
    assert!(req.headers.is_empty());
    let payload = req.json.expect("login sends a JSON body");
    assert_eq!(payload.email, "a@b.com");
    assert_eq!(payload.password, "pw");
}

#[test]
fn login_scenario_sets_bearer_token_and_member_id() {
    let h = Kalshi::new("https://api.example.com/v1");
    let _req = h.login_request("a@b.com", "pw");
    let h2 = h.login(reply("42", "xyz")).unwrap();
    assert_eq!(h2.curr_token(), Some("Bearer xyz".to_string()));
    assert_eq!(h2.member_id(), Some("42".to_string()));
    assert_eq!(h2.base_url(), "https://api.example.com/v1");
}

#[test]
fn login_keeps_token_text_after_prefix() {
    let h2 = logged_in("http://localhost:8080", "member-7", "");
    assert_eq!(h2.curr_token(), Some("Bearer ".to_string()));
    assert_eq!(h2.member_id(), Some("member-7".to_string()));
}

#[test]
fn login_deserialization_error_leaves_handle_unchanged() {
    let h = Kalshi::new("https://api.example.com/v1");
    let r = h.login(Err(KalshiError::DeserializationError));
    assert!(matches!(r, Err(KalshiError::DeserializationError)));
    assert_eq!(h.curr_token(), None);
    assert_eq!(h.member_id(), None);
    assert_eq!(h.base_url(), "https://api.example.com/v1");
}

#[test]
fn login_transport_error_is_reported() {
    let h = Kalshi::new("http://127.0.0.1:9");
    let r = h.login(Err(KalshiError::TransportError));
    assert!(matches!(r, Err(KalshiError::TransportError)));
    assert_eq!(h.curr_token(), None);
}

#[test]
fn logout_transport_error_is_reported() {
    let h = logged_in("http://127.0.0.1:9", "42", "xyz");
    let r = h.logout(Err(KalshiError::TransportError));
    assert!(matches!(r, Err(KalshiError::TransportError)));
    assert_eq!(h.curr_token(), Some("Bearer xyz".to_string()));
}

#[test]
fn logout_request_sends_bearer_header() {
    let h = logged_in("https://api.example.com/v1", "42", "xyz");
    let req = h.logout_request();
    assert_eq!(req.url, "https://api.example.com/v1/logout");
    assert_eq!(header(&req, "Authorization"), Some("Bearer xyz"));
    assert_eq!(header(&req, "content-type"), Some("application/json"));
    assert_eq!(req.headers.len(), 2);
    assert!(req.json.is_none());
}

#[test]
fn logout_request_carries_only_its_own_token() {
    let h = logged_in("https://api.example.com/v1", "42", "abc");
    let req = h.logout_request();
    assert_ne!(header(&req, "Authorization"), Some("Bearer xyz"));
    assert_eq!(header(&req, "Authorization"), Some("Bearer abc"));
}

#[test]
fn logout_after_login_clears_session() {
    let h = logged_in("https://api.example.com/v1", "42", "xyz");
    let out = h.logout(Ok(())).unwrap();
    assert_eq!(out.curr_token(), None);
    assert_eq!(out.member_id(), None);
    assert_eq!(out.base_url(), "https://api.example.com/v1");
}

#[test]
fn login_again_after_logout_takes_new_reply() {
    let h = logged_in("https://api.example.com/v1", "42", "xyz");
    let out = h.logout(Ok(())).unwrap();
    let again = out.login(reply("42", "rotated")).unwrap();
    assert_eq!(again.curr_token(), Some("Bearer rotated".to_string()));
    assert_eq!(again.member_id(), Some("42".to_string()));
}

#[test]
fn same_credentials_different_replies_give_different_tokens() {
    let h = Kalshi::new("https://api.example.com/v1");
    let r1 = h.login_request("a@b.com", "pw");
    let r2 = h.login_request("a@b.com", "pw");
    assert_eq!(r1.url, r2.url);
    let a = h.login(reply("42", "first")).unwrap();
    let b = h.login(reply("42", "second")).unwrap();
    assert_ne!(a.curr_token(), b.curr_token());
}
