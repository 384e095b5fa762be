//! The client handle, its two authentication states and its error type.
use core::marker::PhantomData;
use vstd::prelude::*;

verus! {

/// An authentication state, carried as the type parameter of a [`Kalshi`] handle.
pub trait AuthState {
    /// Whether a handle in this state holds a session token.
    spec fn logged_in() -> bool;
}

/// The state of a handle that holds no session.
pub struct LoggedOut;

/// The state of a handle that holds a session token and a member id.
pub struct LoggedIn;

impl AuthState for LoggedOut {
    open spec fn logged_in() -> bool {
        false
    }
}

impl AuthState for LoggedIn {
    open spec fn logged_in() -> bool {
        true
    }
}

/// What can go wrong in a login or a logout.
#[derive(Debug, Clone, Copy, PartialEq, Eq, Structural)]
pub enum KalshiError {
    /// The request could not be sent or its reply could not be read.
    TransportError,
    /// The reply's body did not have the expected shape.
    DeserializationError,
}

/// The mathematical value of a handle.
pub struct Session {
    pub base_url: Seq<char>,
    pub token: Option<Seq<char>>,
    pub member_id: Option<Seq<char>>,
}

/// A client handle: the exchange's base URL and, once logged in, the value of
/// the `Authorization` header (`Bearer <token>`) and the member id.
pub struct Kalshi<S: AuthState> {
    base_url: String,
    curr_token: Option<String>,
    member_id: Option<String>,
    state: PhantomData<S>,
}

/// The view of an optional string.
pub open spec fn opt_view(o: Option<String>) -> Option<Seq<char>> {
    match o {
        Some(s) => Some(s@),
        None => None,
    }
}

impl<S: AuthState> View for Kalshi<S> {
    type V = Session;

    closed spec fn view(&self) -> Session {
        Session {
            base_url: self.base_url@,
            token: opt_view(self.curr_token),
            member_id: opt_view(self.member_id),
        }
    }
}

/// The session of a handle whose state is `logged_in`: token and member id are
/// present together, and exactly when the handle is logged in.
pub open spec fn session_fits(s: Session, logged_in: bool) -> bool {
    &&& s.token is Some <==> logged_in
    &&& s.member_id is Some <==> logged_in
}

impl<S: AuthState> Kalshi<S> {
    #[verifier::type_invariant]
    spec fn inv(&self) -> bool {
        &&& self.curr_token is Some <==> S::logged_in()
        &&& self.member_id is Some <==> S::logged_in()
    }

    /// Builds a handle of this state from its parts.
    pub(crate) fn from_parts(
        base_url: String,
        curr_token: Option<String>,
        member_id: Option<String>,
    ) -> (r: Self)
        requires
            curr_token is Some <==> S::logged_in(),
            member_id is Some <==> S::logged_in(),
        ensures
            r@ == (Session {
                base_url: base_url@,
                token: opt_view(curr_token),
                member_id: opt_view(member_id),
            }),
    {
        Kalshi { base_url, curr_token, member_id, state: PhantomData }
    }

    /// The exchange's base URL.
    pub fn base_url(&self) -> (r: &str)
        ensures
            r@ == self@.base_url,
    {
        self.base_url.as_str()
    }

    /// The value sent as the `Authorization` header, if logged in.
    pub fn curr_token(&self) -> (r: Option<String>)
        ensures
            opt_view(r) == self@.token,
    {
        match &self.curr_token {
            Some(t) => Some(t.clone()),
            None => None,
        }
    }

    /// The member id that the exchange gave at login, if logged in.
    pub fn member_id(&self) -> (r: Option<String>)
        ensures
            opt_view(r) == self@.member_id,
    {
        match &self.member_id {
            Some(m) => Some(m.clone()),
            None => None,
        }
    }
}

impl Kalshi<LoggedIn> {
    /// The session token as sent in the `Authorization` header; a logged-in
    /// handle always has one.
    pub(crate) fn token(&self) -> (r: &String)
        ensures
            self@.token == Some(r@),
    {
        proof {
            use_type_invariant(self);
        }
        self.curr_token.as_ref().unwrap()
    }
}

impl Kalshi<LoggedOut> {
    /// A logged-out handle for the exchange at `base_url`.
    pub fn new(base_url: &str) -> (r: Self)
        ensures
            r@ == (Session { base_url: base_url@, token: None, member_id: None }),
    {
        Self::from_parts(base_url.to_owned(), None, None)
    }
}

} // verus!
