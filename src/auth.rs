//! Login and logout: the request each one sends, and the handle that each one
//! makes of the request's outcome.
use crate::client::{session_fits, Kalshi, KalshiError, LoggedIn, LoggedOut, Session};
use vstd::prelude::*;

verus! {

/// The JSON body of a login request: `{"email": ..., "password": ...}`.
pub struct LoginPayload {
    pub email: String,
    pub password: String,
}

/// The JSON body of a successful login reply: `{"member_id": ..., "token": ...}`.
pub struct LoginResponse {
    pub member_id: String,
    pub token: String,
}

/// A POST request to send: its URL, its headers in order, and its JSON body
/// if it has one.
pub struct PostRequest {
    pub url: String,
    pub headers: Vec<(String, String)>,
    pub json: Option<LoginPayload>,
}

/// The mathematical value of a [`PostRequest`]; a body is given as its email
/// and password.
pub struct Request {
    pub url: Seq<char>,
    pub headers: Seq<(Seq<char>, Seq<char>)>,
    pub json: Option<(Seq<char>, Seq<char>)>,
}

impl View for PostRequest {
    type V = Request;

    open spec fn view(&self) -> Request {
        Request {
            url: self.url@,
            headers: self.headers@.map_values(|h: (String, String)| (h.0@, h.1@)),
            json: match self.json {
                Some(p) => Some((p.email@, p.password@)),
                None => None,
            },
        }
    }
}

pub open spec fn login_url(base_url: Seq<char>) -> Seq<char> {
    base_url + "/login"@
}

pub open spec fn logout_url(base_url: Seq<char>) -> Seq<char> {
    base_url + "/logout"@
}

/// The `Authorization` header's value for a session token.
pub open spec fn bearer(token: Seq<char>) -> Seq<char> {
    "Bearer "@ + token
}

proof fn lemma_bearer_injective(t1: Seq<char>, t2: Seq<char>)
    ensures
        bearer(t1) == bearer(t2) ==> t1 == t2,
{
    let n = "Bearer "@.len() as int;
    assert(bearer(t1).subrange(n, bearer(t1).len() as int) =~= t1);
    assert(bearer(t2).subrange(n, bearer(t2).len() as int) =~= t2);
}

/// The login request of a handle: the credentials as JSON, no other header.
pub open spec fn login_request_for(s: Session, email: Seq<char>, password: Seq<char>) -> Request {
    Request { url: login_url(s.base_url), headers: Seq::empty(), json: Some((email, password)) }
}

/// The logout request of a logged-in handle: its token as the `Authorization`
/// header, a JSON content type and no body.
pub open spec fn logout_request_for(s: Session) -> Request {
    Request {
        url: logout_url(s.base_url),
        headers: seq![("Authorization"@, s.token->0), ("content-type"@, "application/json"@)],
        json: None,
    }
}

/// The session after a successful login with the given reply.
pub open spec fn logged_in_session(s: Session, member_id: Seq<char>, token: Seq<char>) -> Session {
    Session { base_url: s.base_url, token: Some(bearer(token)), member_id: Some(member_id) }
}

/// The session after a successful logout.
pub open spec fn logged_out_session(s: Session) -> Session {
    Session { base_url: s.base_url, token: None, member_id: None }
}

/// Logging out after a login ends with the session cleared: no token, no
/// member id, and the same base URL, so that the handle is again what it was
/// before the login.
pub proof fn lemma_logout_after_login(s: Session, member_id: Seq<char>, token: Seq<char>)
    requires
        session_fits(s, false),
    ensures
        logged_out_session(logged_in_session(s, member_id, token)).token is None,
        logged_out_session(logged_in_session(s, member_id, token)).member_id is None,
        logged_out_session(logged_in_session(s, member_id, token)) == s,
{
}

/// The logout request that follows a login carries the header
/// `Authorization: Bearer <t>` exactly when `t` is the token of the login
/// reply.
pub proof fn lemma_logout_sends_login_token(
    s: Session,
    member_id: Seq<char>,
    token: Seq<char>,
    t: Seq<char>,
)
    ensures
        logout_request_for(logged_in_session(s, member_id, token)).headers.contains(
            ("Authorization"@, bearer(t)),
        ) <==> t == token,
{
    let headers = logout_request_for(logged_in_session(s, member_id, token)).headers;
    assert(headers[0] == ("Authorization"@, bearer(token)));
    if headers.contains(("Authorization"@, bearer(t))) {
        let i = choose|i: int| 0 <= i < headers.len() && headers[i] == ("Authorization"@, bearer(t));
        if i == 1 {
            reveal_strlit("Authorization");
            reveal_strlit("content-type");
            assert("Authorization"@.len() != "content-type"@.len());
        }
        lemma_bearer_injective(t, token);
    }
}

/// The token of a login is the one in the server's reply and not a function
/// of the credentials: the same login request, answered with two different
/// tokens, gives two different sessions.
pub proof fn lemma_token_follows_reply(
    s: Session,
    member_id1: Seq<char>,
    token1: Seq<char>,
    member_id2: Seq<char>,
    token2: Seq<char>,
)
    requires
        token1 != token2,
    ensures
        logged_in_session(s, member_id1, token1).token != logged_in_session(
            s,
            member_id2,
            token2,
        ).token,
{
    lemma_bearer_injective(token1, token2);
}

impl Kalshi<LoggedOut> {
    /// The request that logs in with the given email and password: a POST to
    /// `{base_url}/login` with the credentials as its JSON body.
    pub fn login_request(&self, user: &str, password: &str) -> (r: PostRequest)
        ensures
            r@ == login_request_for(self@, user@, password@),
    {
        let mut url = self.base_url().to_owned();
        url.append("/login");
        let r = PostRequest {
            url,
            headers: Vec::new(),
            json: Some(LoginPayload { email: user.to_owned(), password: password.to_owned() }),
        };
        assert(r@.headers =~= Seq::empty());
        r
    }

    /// The logged-in handle that the outcome of the login request gives.
    ///
    /// On a reply, the new handle carries `Bearer <token>` and the member id;
    /// on a failure, the error is handed back and this handle stays as it is.
    pub fn login(&self, reply: Result<LoginResponse, KalshiError>) -> (r: Result<
        Kalshi<LoggedIn>,
        KalshiError,
    >)
        ensures
            match reply {
                Ok(resp) => r matches Ok(h) && h@ == logged_in_session(
                    self@,
                    resp.member_id@,
                    resp.token@,
                ),
                Err(e) => r matches Err(f) && f == e,
            },
    {
        match reply {
            Ok(resp) => {
                let mut token = "Bearer ".to_owned();
                token.append(resp.token.as_str());
                Ok(Kalshi::from_parts(self.base_url().to_owned(), Some(token), Some(resp.member_id)))
            },
            Err(e) => Err(e),
        }
    }
}

impl Kalshi<LoggedIn> {
    /// The request that logs out: a POST to `{base_url}/logout` with the
    /// session token as the `Authorization` header and no body.
    pub fn logout_request(&self) -> (r: PostRequest)
        ensures
            r@ == logout_request_for(self@),
    {
        let token = self.token().clone();
        let mut url = self.base_url().to_owned();
        url.append("/logout");
        let r = PostRequest {
            url,
            headers: vec![
                ("Authorization".to_owned(), token),
                ("content-type".to_owned(), "application/json".to_owned()),
            ],
            json: None,
        };
        assert(r@.headers =~= logout_request_for(self@).headers);
        r
    }

    /// The logged-out handle that the outcome of the logout request gives.
    ///
    /// The reply's body plays no part. On a failure the error is handed back.
    pub fn logout(&self, reply: Result<(), KalshiError>) -> (r: Result<
        Kalshi<LoggedOut>,
        KalshiError,
    >)
        ensures
            match reply {
                Ok(_) => r matches Ok(h) && h@ == logged_out_session(self@),
                Err(e) => r matches Err(f) && f == e,
            },
    {
        match reply {
            Ok(_) => Ok(Kalshi::from_parts(self.base_url().to_owned(), None, None)),
            Err(e) => Err(e),
        }
    }
}

} // verus!
