//! The session manager: the two token exchanges, split around the network.
//!
//! The library says what is sent and what a reply means; sending and decoding
//! are the caller's part.

use vstd::prelude::*;

verus! {

/// Endpoint of the login exchange.
pub const LOGIN_URL: &'static str = "http://sxz.api6.zykj.org/api/TokenAuth/Login";

/// Endpoint of the refresh exchange.
pub const REFRESH_URL: &'static str = "http://sxz.api6.zykj.org/api/TokenAuth/RefreshToken";

/// Name of the header that carries the refresh token in the refresh exchange.
pub const REFRESH_HEADER: &'static str = "RefreshToken";

/// The client type that every login announces.
pub const CLIENT_TYPE: i8 = 1;

/// What the operator supplies once at startup.
#[derive(Clone, Debug, PartialEq, Eq)]
pub struct Credentials {
    pub username: String,
    pub password: String,
}

/// An access token with the refresh token that renews it.
#[derive(Clone, Debug, PartialEq, Eq)]
pub struct TokenPair {
    pub access_token: String,
    pub refresh_token: String,
    /// Seconds for which the access token is expected to last.
    pub access_expiry_hint: i32,
    /// Seconds for which the refresh token is expected to last.
    pub refresh_expiry_hint: i32,
}

/// Mathematical value of a [`TokenPair`].
pub struct TokenPairView {
    pub access_token: Seq<char>,
    pub refresh_token: Seq<char>,
    pub access_expiry_hint: int,
    pub refresh_expiry_hint: int,
}

impl View for TokenPair {
    type V = TokenPairView;

    open spec fn view(&self) -> TokenPairView {
        TokenPairView {
            access_token: self.access_token@,
            refresh_token: self.refresh_token@,
            access_expiry_hint: self.access_expiry_hint as int,
            refresh_expiry_hint: self.refresh_expiry_hint as int,
        }
    }
}

/// Why a token exchange gave no tokens.
#[derive(Clone, Copy, PartialEq, Eq, Structural, Debug)]
pub enum AuthError {
    /// The authority refused the credentials, or its answer could not be read.
    Rejected,
    /// The authority refused the refresh token, or its answer could not be read.
    RefreshRejected,
    /// The exchange failed below HTTP.
    Transport,
}

/// What a token exchange brought back, as far as the transport could make it out.
#[derive(Clone, Debug, PartialEq, Eq)]
pub enum AuthReply {
    /// A body that decoded: the server's own success flag, and the tokens if it held any.
    Body { success: bool, tokens: Option<TokenPair> },
    /// A body that did not decode.
    Undecodable,
    /// No response at all.
    NoResponse,
}

/// Mathematical value of an [`AuthReply`].
pub enum AuthReplyView {
    Body { success: bool, tokens: Option<TokenPairView> },
    Undecodable,
    NoResponse,
}

impl View for AuthReply {
    type V = AuthReplyView;

    open spec fn view(&self) -> AuthReplyView {
        match *self {
            AuthReply::Body { success, tokens } => AuthReplyView::Body {
                success,
                tokens: match tokens {
                    Some(t) => Some(t@),
                    None => None,
                },
            },
            AuthReply::Undecodable => AuthReplyView::Undecodable,
            AuthReply::NoResponse => AuthReplyView::NoResponse,
        }
    }
}

/// The tokens that `reply` grants: those of a decoded body that reports success.
pub open spec fn granted(reply: AuthReplyView) -> Option<TokenPairView> {
    match reply {
        AuthReplyView::Body { success: true, tokens: Some(t) } => Some(t),
        _ => None,
    }
}

/// What `reply` means for an exchange whose refusal is reported as `refusal`:
/// the granted tokens; `Transport` where nothing came back; `refusal` otherwise.
pub open spec fn exchange_outcome(reply: AuthReplyView, refusal: AuthError) -> Result<
    TokenPairView,
    AuthError,
> {
    match granted(reply) {
        Some(t) => Ok(t),
        None => if reply is NoResponse {
            Err(AuthError::Transport)
        } else {
            Err(refusal)
        },
    }
}

/// What `reply` means as the answer to a login.
pub open spec fn login_outcome(reply: AuthReplyView) -> Result<TokenPairView, AuthError> {
    exchange_outcome(reply, AuthError::Rejected)
}

/// What `reply` means as the answer to a refresh.
pub open spec fn refresh_outcome(reply: AuthReplyView) -> Result<TokenPairView, AuthError> {
    exchange_outcome(reply, AuthError::RefreshRejected)
}

/// Reads `reply` as the answer to an exchange whose refusal is reported as `refusal`.
pub fn read_reply(reply: AuthReply, refusal: AuthError) -> (r: Result<TokenPair, AuthError>)
    ensures
        r matches Ok(t) ==> exchange_outcome(reply@, refusal) == Ok::<TokenPairView, AuthError>(t@),
        r matches Err(e) ==> exchange_outcome(reply@, refusal) == Err::<TokenPairView, AuthError>(
            e,
        ),
{
    match reply {
        AuthReply::Body { success, tokens } => {
            match tokens {
                Some(t) => if success {
                    Ok(t)
                } else {
                    Err(refusal)
                },
                None => Err(refusal),
            }
        },
        AuthReply::Undecodable => Err(refusal),
        AuthReply::NoResponse => Err(AuthError::Transport),
    }
}

/// The login exchange's request.
#[derive(Clone, Debug, PartialEq, Eq)]
pub struct LoginRequest {
    pub url: String,
    pub username: String,
    pub password: String,
    pub client_type: i8,
}

/// Mathematical value of a [`LoginRequest`].
pub struct LoginRequestView {
    pub url: Seq<char>,
    pub username: Seq<char>,
    pub password: Seq<char>,
    pub client_type: int,
}

impl View for LoginRequest {
    type V = LoginRequestView;

    open spec fn view(&self) -> LoginRequestView {
        LoginRequestView {
            url: self.url@,
            username: self.username@,
            password: self.password@,
            client_type: self.client_type as int,
        }
    }
}

/// The refresh exchange's request: the access token goes as bearer credential,
/// the refresh token in the header named [`REFRESH_HEADER`].
#[derive(Clone, Debug, PartialEq, Eq)]
pub struct RefreshRequest {
    pub url: String,
    pub bearer: String,
    pub refresh_token: String,
}

/// Mathematical value of a [`RefreshRequest`].
pub struct RefreshRequestView {
    pub url: Seq<char>,
    pub bearer: Seq<char>,
    pub refresh_token: Seq<char>,
}

impl View for RefreshRequest {
    type V = RefreshRequestView;

    open spec fn view(&self) -> RefreshRequestView {
        RefreshRequestView {
            url: self.url@,
            bearer: self.bearer@,
            refresh_token: self.refresh_token@,
        }
    }
}

/// The refresh request that presents `tokens`.
pub open spec fn refresh_request_for(tokens: TokenPairView) -> RefreshRequestView {
    RefreshRequestView {
        url: REFRESH_URL@,
        bearer: tokens.access_token,
        refresh_token: tokens.refresh_token,
    }
}

/// Owner of the current token pair.
#[derive(Debug)]
pub struct Session {
    tokens: TokenPair,
}

impl View for Session {
    type V = TokenPairView;

    closed spec fn view(&self) -> TokenPairView {
        self.tokens@
    }
}

impl Session {
    /// The request that presents `credentials` to the authority.
    pub fn login_request(credentials: &Credentials) -> (r: LoginRequest)
        ensures
            r@ == (LoginRequestView {
                url: LOGIN_URL@,
                username: credentials.username@,
                password: credentials.password@,
                client_type: CLIENT_TYPE as int,
            }),
    {
        LoginRequest {
            url: String::from_str(LOGIN_URL),
            username: credentials.username.clone(),
            password: credentials.password.clone(),
            client_type: CLIENT_TYPE,
        }
    }

    /// Opens a session from the login's reply, or says why there is none.
    pub fn login(reply: AuthReply) -> (r: Result<Session, AuthError>)
        ensures
            r matches Ok(s) ==> login_outcome(reply@) == Ok::<TokenPairView, AuthError>(s@),
            r matches Err(e) ==> login_outcome(reply@) == Err::<TokenPairView, AuthError>(e),
    {
        match read_reply(reply, AuthError::Rejected) {
            Ok(tokens) => Ok(Session { tokens }),
            Err(e) => Err(e),
        }
    }

    /// The request that presents the current pair for renewal.
    pub fn refresh_request(&self) -> (r: RefreshRequest)
        ensures
            r@ == refresh_request_for(self@),
    {
        RefreshRequest {
            url: String::from_str(REFRESH_URL),
            bearer: self.tokens.access_token.clone(),
            refresh_token: self.tokens.refresh_token.clone(),
        }
    }

    /// Replaces the pair by the one that the refresh's reply grants. Where the reply
    /// grants none, the pair stays and the reason is returned.
    pub fn refresh(&mut self, reply: AuthReply) -> (r: Result<(), AuthError>)
        ensures
            r is Ok ==> refresh_outcome(reply@) == Ok::<TokenPairView, AuthError>(final(self)@),
            r matches Err(e) ==> refresh_outcome(reply@) == Err::<TokenPairView, AuthError>(e)
                && final(self)@ == old(self)@,
    {
        match read_reply(reply, AuthError::RefreshRejected) {
            Ok(tokens) => {
                self.tokens = tokens;
                Ok(())
            },
            Err(e) => Err(e),
        }
    }

    /// The current pair.
    pub fn tokens(&self) -> (r: &TokenPair)
        ensures
            r@ == self@,
    {
        &self.tokens
    }
}

} // verus!
