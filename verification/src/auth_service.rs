//! Sign-in and session lifecycle: input checks before the login service is called, the
//! reading of its reply, the stored session and its expiry, and sign-out.
//!
//! The login request itself travels over the network; the caller sends what
//! `prepare_login` returns and hands the reply to `finish_login`.
use vstd::prelude::*;

use crate::clock::unix_time_seconds;
use crate::domain::auth::{AccessToken, AuthState, LoginRequest, LoginResponse, RefreshTokenResponse};
use crate::domain::event::{AppEvent, AppEventView, EventEnvelopeView};
use crate::event_bus::EventBus;
use crate::text::{eq_ignore_ascii_case, is_blank, is_blank_seq, str_eq, trim, trim_seq, ascii_lower_seq};
use crate::task_id::{append_padded_decimal, padded_decimal};

verus! {

/// The business code of a successful login.
pub const SUCCESS_CODE: &'static str = "0000";

pub const SUCCESS_HTTP_STATUS: u16 = 200;

/// The message shown when the login service refuses without saying why.
pub const DEFAULT_REJECTION_MESSAGE: &'static str = "手机号或密码不正确。";

#[derive(Debug, Clone, Copy, PartialEq, Eq, Structural)]
pub enum AuthServiceErrorKind {
    Validation,
    Rejected,
    Unavailable,
    Storage,
}

#[derive(Debug)]
pub struct AuthServiceError {
    kind: AuthServiceErrorKind,
    message: String,
}

impl AuthServiceError {
    pub closed spec fn spec_kind(&self) -> AuthServiceErrorKind {
        self.kind
    }

    pub closed spec fn spec_message(&self) -> Seq<char> {
        self.message@
    }

    pub fn new(kind: AuthServiceErrorKind, message: &str) -> (r: Self)
        ensures
            r.spec_kind() == kind,
            r.spec_message() == message@,
    {
        AuthServiceError { kind, message: message.to_owned() }
    }

    pub fn with_message(kind: AuthServiceErrorKind, message: String) -> (r: Self)
        ensures
            r.spec_kind() == kind,
            r.spec_message() == message@,
    {
        AuthServiceError { kind, message }
    }

    pub fn unavailable(message: &str) -> (r: Self)
        ensures
            r.spec_kind() == AuthServiceErrorKind::Unavailable,
            r.spec_message() == message@,
    {
        Self::new(AuthServiceErrorKind::Unavailable, message)
    }

    pub fn storage(message: &str) -> (r: Self)
        ensures
            r.spec_kind() == AuthServiceErrorKind::Storage,
            r.spec_message() == message@,
    {
        Self::new(AuthServiceErrorKind::Storage, message)
    }

    pub fn kind(&self) -> (r: AuthServiceErrorKind)
        ensures
            r == self.spec_kind(),
    {
        self.kind
    }

    pub fn message(&self) -> (r: &str)
        ensures
            r@ == self.spec_message(),
    {
        self.message.as_str()
    }
}

/// The login service's reply: its HTTP status and decoded body.
#[derive(Debug)]
pub struct AuthBackendResponse {
    pub http_status: u16,
    pub payload: LoginResponse,
}

/// The token service's reply to a refresh request.
#[derive(Debug)]
pub struct RefreshBackendResponse {
    pub http_status: u16,
    pub payload: RefreshTokenResponse,
}

/// Where the signed-in session is kept between runs.
///
/// The contracts of `save` and `clear` hold of an implementation whose
/// `obeys_store_contract` is `true`: one whose answers are given by the model functions below.
/// An implementation outside verified code keeps the default `false`, and then the contracts
/// claim nothing of it.
pub trait AuthSessionStore {
    /// Whether this implementation keeps the contracts of `save` and `clear`.
    closed spec fn obeys_store_contract() -> bool {
        false
    }

    /// What saving `token` answers.
    closed spec fn save_result(&self, token: AccessToken) -> Result<(), AuthServiceError> {
        Ok(())
    }

    /// What clearing the stored session answers.
    closed spec fn clear_result(&self) -> Result<(), AuthServiceError> {
        Ok(())
    }

    fn load(&self) -> (r: Result<Option<AccessToken>, AuthServiceError>);

    fn save(&self, token: &AccessToken) -> (r: Result<(), AuthServiceError>)
        ensures
            Self::obeys_store_contract() ==> r == self.save_result(*token),
    ;

    fn clear(&self) -> (r: Result<(), AuthServiceError>)
        ensures
            Self::obeys_store_contract() ==> r == self.clear_result(),
    ;
}

/// Credentials are required: a phone number that is not blank and a non-empty password.
pub open spec fn has_credentials(request: LoginRequest) -> bool {
    trim_seq(request.username@).len() > 0 && request.password@.len() > 0
}

/// The token a login reply grants: present only for HTTP 200 with code `0000` and data.
pub open spec fn granted_token(response: AuthBackendResponse) -> Option<AccessToken> {
    if response.http_status == SUCCESS_HTTP_STATUS && response.payload.errcode@ == SUCCESS_CODE@ {
        match response.payload.data {
            Some(data) => Some(data.additional_information),
            None => None,
        }
    } else {
        None
    }
}

/// Why a login reply grants nothing: a service failure, or a refusal of the credentials.
pub open spec fn refusal_kind(response: AuthBackendResponse) -> AuthServiceErrorKind {
    if response.http_status == SUCCESS_HTTP_STATUS && response.payload.errcode@ != SUCCESS_CODE@ {
        AuthServiceErrorKind::Rejected
    } else {
        AuthServiceErrorKind::Unavailable
    }
}

/// The message of a refused login: the service's own message, unless it is blank.
pub open spec fn rejection_message(errmsg: Seq<char>) -> Seq<char> {
    if is_blank_seq(errmsg) {
        DEFAULT_REJECTION_MESSAGE@
    } else {
        errmsg
    }
}

/// Checks login input before anything is sent; returns the request to send, its phone number
/// trimmed.
pub fn prepare_login(request: LoginRequest) -> (r: Result<LoginRequest, AuthServiceError>)
    ensures
        r is Ok <==> has_credentials(request),
        r matches Ok(normalized) ==> normalized.username@ == trim_seq(request.username@)
            && normalized.password == request.password,
        r matches Err(e) ==> e.spec_kind() == AuthServiceErrorKind::Validation,
{
    let username = trim(request.username.as_str()).to_owned();
    if username.as_str().unicode_len() == 0 || request.password.as_str().unicode_len() == 0 {
        return Err(
            AuthServiceError::new(AuthServiceErrorKind::Validation, "login credentials are required"),
        );
    }
    Ok(LoginRequest { username, password: request.password })
}

/// Reads the login service's reply: the granted token, or why none was granted.
pub fn evaluate_login_response(response: AuthBackendResponse) -> (r: Result<
    AccessToken,
    AuthServiceError,
>)
    ensures
        match granted_token(response) {
            Some(token) => r == Ok::<AccessToken, AuthServiceError>(token),
            None => r matches Err(e) && e.spec_kind() == refusal_kind(response),
        },
        r matches Err(e) ==> e.spec_kind() == AuthServiceErrorKind::Rejected ==> e.spec_message()
            == rejection_message(response.payload.errmsg@),
{
    if response.http_status != SUCCESS_HTTP_STATUS {
        proof {
            reveal_strlit("login endpoint returned HTTP ");
        }
        let mut message = String::from_str("login endpoint returned HTTP ");
        append_padded_decimal(&mut message, response.http_status as u64, 1);
        return Err(AuthServiceError::with_message(AuthServiceErrorKind::Unavailable, message));
    }
    if !str_eq(response.payload.errcode.as_str(), SUCCESS_CODE) {
        let message = if is_blank(response.payload.errmsg.as_str()) {
            DEFAULT_REJECTION_MESSAGE.to_owned()
        } else {
            response.payload.errmsg
        };
        return Err(AuthServiceError::with_message(AuthServiceErrorKind::Rejected, message));
    }
    match response.payload.data {
        Some(data) => Ok(data.additional_information),
        None => Err(
            AuthServiceError::unavailable(
                "successful login response did not contain authentication data",
            ),
        ),
    }
}

/// Whether a session with this token has expired at `now` (Unix seconds).
pub open spec fn is_expired(token: AccessToken, now: i64) -> bool {
    token.expiration <= now
}

/// What the user interface is told about a session.
pub open spec fn state_of(session: Option<AccessToken>) -> AuthState {
    match session {
        Some(token) => AuthState::spec_from_token(token),
        None => AuthState::spec_signed_out(),
    }
}

/// The session that remains at `now`: an expired one is dropped.
pub open spec fn live_session(session: Option<AccessToken>, now: i64) -> Option<AccessToken> {
    match session {
        Some(token) => if is_expired(token, now) {
            None
        } else {
            Some(token)
        },
        None => None,
    }
}

pub struct AuthService<S> {
    store: S,
    session: Option<AccessToken>,
    events: EventBus,
}

impl<S: AuthSessionStore> AuthService<S> {
    pub closed spec fn session(&self) -> Option<AccessToken> {
        self.session
    }

    pub closed spec fn spec_events(&self) -> EventBus {
        self.events
    }

    pub closed spec fn spec_store(&self) -> S {
        self.store
    }

    /// Every event this service published, in order.
    pub open spec fn published(&self) -> Seq<AppEventView> {
        self.spec_events().published().map_values(|envelope: EventEnvelopeView| envelope.event)
    }

    pub open spec fn wf(&self) -> bool {
        self.spec_events().wf()
    }

    /// Starts with the stored session, if it can be read and has not expired at `now`; an
    /// expired one is also removed from the store. A store that cannot be read means starting
    /// signed out.
    pub fn new_at(store: S, events: EventBus, now: i64) -> (r: Self)
        requires
            events.wf(),
        ensures
            r.wf(),
            r.spec_events() == events,
            r.spec_store() == store,
            r.session() matches Some(token) ==> !is_expired(token, now),
    {
        let session = match store.load() {
            Ok(session) => session,
            Err(_) => None,
        };
        let mut service = AuthService { store, session, events };
        service.drop_expired(now);
        service
    }

    /// Starts with the stored session unless it expired by the current time.
    pub fn new(store: S, events: EventBus) -> (r: Self)
        requires
            events.wf(),
        ensures
            r.wf(),
            r.spec_events() == events,
            r.spec_store() == store,
    {
        Self::new_at(store, events, unix_time_seconds())
    }

    pub fn event_bus(&self) -> (r: &EventBus)
        ensures
            *r == self.spec_events(),
    {
        &self.events
    }

    pub fn store(&self) -> (r: &S)
        ensures
            *r == self.spec_store(),
    {
        &self.store
    }

    fn drop_expired(&mut self, now: i64)
        ensures
            final(self).session() == live_session(old(self).session(), now),
            final(self).spec_events() == old(self).spec_events(),
            final(self).spec_store() == old(self).spec_store(),
    {
        let expired = match &self.session {
            Some(token) => token.expiration <= now,
            None => false,
        };
        if expired {
            let _ = self.store.clear();
            self.session = None;
        }
    }

    /// Takes the login service's reply (or the failure to reach it). A granted token is stored
    /// first; only once it is stored does the session begin and `UserLoggedIn` go out.
    pub fn finish_login(&mut self, reply: Result<AuthBackendResponse, AuthServiceError>) -> (r:
        Result<AuthState, AuthServiceError>)
        requires
            old(self).wf(),
        ensures
            final(self).wf(),
            final(self).spec_store() == old(self).spec_store(),
            match reply {
                Err(e) => r == Err::<AuthState, AuthServiceError>(e),
                Ok(response) => match granted_token(response) {
                    None => r matches Err(e) && e.spec_kind() == refusal_kind(response),
                    Some(token) => r is Ok ==> {
                        &&& r == Ok::<AuthState, AuthServiceError>(AuthState::spec_from_token(token))
                        &&& final(self).session() == Some(token)
                        &&& final(self).published() == old(self).published().push(
                            AppEventView::UserLoggedIn {
                                user_id: token.additional_information.uid,
                            },
                        )
                    },
                },
            },
            r is Err ==> final(self).session() == old(self).session() && final(self).published()
                == old(self).published(),
            S::obeys_store_contract() ==> match reply {
                Ok(response) => match granted_token(response) {
                    Some(token) => match old(self).spec_store().save_result(token) {
                        Ok(_) => r is Ok,
                        Err(e) => r == Err::<AuthState, AuthServiceError>(e),
                    },
                    None => true,
                },
                Err(_) => true,
            },
    {
        let response = reply?;
        let token = evaluate_login_response(response)?;
        self.store.save(&token)?;
        let state = AuthState::from_token(&token);
        let user_id = token.additional_information.uid.clone();
        self.session = Some(token);
        let ghost before = self.events.published();
        self.events.publish(AppEvent::UserLoggedIn { user_id });
        proof {
            let after = self.events.published();
            let f = |envelope: EventEnvelopeView| envelope.event;
            assert(after =~= before.push(after.last()));
            assert(after.map_values(f) =~= before.map_values(f).push(after.last().event));
        }
        Ok(state)
    }

    /// The session state at `now`: an expired session is dropped (and removed from the store,
    /// as far as the store allows) and reported as signed out.
    pub fn state_at(&mut self, now: i64) -> (r: Result<AuthState, AuthServiceError>)
        requires
            old(self).wf(),
        ensures
            final(self).wf(),
            final(self).spec_store() == old(self).spec_store(),
            final(self).published() == old(self).published(),
            final(self).session() == live_session(old(self).session(), now),
            r == Ok::<AuthState, AuthServiceError>(state_of(final(self).session())),
    {
        self.drop_expired(now);
        match &self.session {
            Some(token) => Ok(AuthState::from_token(token)),
            None => Ok(AuthState::signed_out()),
        }
    }

    /// The session state at the current time.
    pub fn state(&mut self) -> (r: Result<AuthState, AuthServiceError>)
        requires
            old(self).wf(),
        ensures
            final(self).wf(),
            final(self).published() == old(self).published(),
            r == Ok::<AuthState, AuthServiceError>(state_of(final(self).session())),
            final(self).session() matches Some(token) ==> final(self).session() == old(
                self,
            ).session(),
    {
        self.state_at(unix_time_seconds())
    }

    /// Signs out: the stored session is removed first; then the session ends and, if there was
    /// one, `UserLoggedOut` goes out.
    pub fn logout(&mut self) -> (r: Result<AuthState, AuthServiceError>)
        requires
            old(self).wf(),
        ensures
            final(self).wf(),
            final(self).spec_store() == old(self).spec_store(),
            match r {
                Ok(state) => {
                    &&& state == AuthState::spec_signed_out()
                    &&& final(self).session() is None
                    &&& match old(self).session() {
                        Some(token) => final(self).published() == old(self).published().push(
                            AppEventView::UserLoggedOut {
                                user_id: token.additional_information.uid,
                            },
                        ),
                        None => final(self).published() == old(self).published(),
                    }
                },
                Err(_) => {
                    &&& final(self).session() == old(self).session()
                    &&& final(self).published() == old(self).published()
                },
            },
            S::obeys_store_contract() ==> match old(self).spec_store().clear_result() {
                Ok(_) => r is Ok,
                Err(e) => r == Err::<AuthState, AuthServiceError>(e),
            },
    {
        self.store.clear()?;
        let session = self.session.take();
        match session {
            Some(token) => {
                let ghost before = self.events.published();
                self.events.publish(
                    AppEvent::UserLoggedOut { user_id: token.additional_information.uid },
                );
                proof {
                    let after = self.events.published();
                    let f = |envelope: EventEnvelopeView| envelope.event;
                    assert(after =~= before.push(after.last()));
                    assert(after.map_values(f) =~= before.map_values(f).push(after.last().event));
                }
            },
            None => {},
        }
        Ok(AuthState::signed_out())
    }
}

/// A session is never reported as signed in once it has expired, and a signed-out service
/// reports the signed-out state.
pub proof fn lemma_reported_state(session: Option<AccessToken>, now: i64)
    ensures
        state_of(live_session(session, now)).authenticated ==> (session matches Some(token)
            && !is_expired(token, now)),
        session is None ==> state_of(live_session(session, now)) == AuthState::spec_signed_out(),
{
}

// ---- environment ----

pub const AUTH_ENVIRONMENT_VARIABLE: &'static str = "SHENDESK_AUTH_ENVIRONMENT";

pub const AUTH_HOST_VARIABLE: &'static str = "SHENDESK_AUTH_HOST";

pub const AUTH_SCID_VARIABLE: &'static str = "SHENDESK_AUTH_SCID";

pub const LOGIN_PATH: &'static str = "/service-uaa/user/login";

pub const REFRESH_PATH: &'static str = "/service-uaa/auth/token-user/refresh";

/// Time limit of a login or refresh request, in seconds.
pub const LOGIN_TIMEOUT_SECS: u64 = 15;

pub const KEYRING_SERVICE: &'static str = "com.shencom.shendesk.auth";

pub const AUTH_SESSION_VERSION: u8 = 1;

/// What `url::Url::parse` makes of `text`: `None` when it fails, else the URL's scheme and
/// whether it has a host.
pub uninterp spec fn spec_parse_url(text: Seq<char>) -> Option<(Seq<char>, bool)>;

/// The parts of a parsed URL that the environment check reads.
pub struct ParsedUrl {
    pub scheme: String,
    pub has_host: bool,
}

/// Calls `url::Url::parse` on `text`; returns its scheme and whether `host_str` is present.
#[verifier::external_body]
fn parse_url(text: &str) -> (r: Option<ParsedUrl>)
    ensures
        match r {
            Some(parsed) => spec_parse_url(text@) == Some((parsed.scheme@, parsed.has_host)),
            None => spec_parse_url(text@) is None,
        },
{
    match url::Url::parse(text) {
        Ok(parsed) => Some(
            ParsedUrl { scheme: parsed.scheme().to_owned(), has_host: parsed.host_str().is_some() },
        ),
        Err(_) => None,
    }
}

/// `s` without trailing `/` characters.
pub open spec fn trim_end_slashes(s: Seq<char>) -> Seq<char>
    decreases s.len(),
{
    if s.len() > 0 && s.last() == '/' {
        trim_end_slashes(s.drop_last())
    } else {
        s
    }
}

/// The environment names the application knows.
pub open spec fn environment_name(name: Seq<char>) -> Option<Seq<char>> {
    let lower = ascii_lower_seq(trim_seq(name));
    if lower == "development"@ || lower == "production"@ || lower == "test"@ {
        Some(lower)
    } else {
        None
    }
}

/// An HTTPS origin with a host.
pub open spec fn is_https_origin(url: Seq<char>) -> bool {
    spec_parse_url(url) matches Some((scheme, has_host)) && scheme == "https"@ && has_host
}

/// The login service a build talks to: its environment name, HTTPS origin and client id.
#[derive(Debug, PartialEq, Eq)]
pub struct AuthEnvironment {
    name: String,
    base_url: String,
    scid: String,
}

fn without_trailing_slashes(s: &str) -> (r: &str)
    ensures
        r@ == trim_end_slashes(s@),
{
    let n = s.unicode_len();
    let mut j: usize = n;
    assert(s@.subrange(0, n as int) =~= s@);
    while j > 0 && s.get_char(j - 1) == '/'
        invariant
            n == s@.len(),
            0 <= j <= n,
            trim_end_slashes(s@.subrange(0, j as int)) == trim_end_slashes(s@),
        decreases j,
    {
        let ghost u = s@.subrange(0, j as int);
        assert(u.drop_last() =~= s@.subrange(0, j - 1));
        j = j - 1;
    }
    proof {
        let u = s@.subrange(0, j as int);
        if j == 0 {
            assert(u =~= Seq::<char>::empty());
        }
    }
    s.substring_char(0, j)
}

impl AuthEnvironment {
    pub closed spec fn spec_name(&self) -> Seq<char> {
        self.name@
    }

    pub closed spec fn spec_base_url(&self) -> Seq<char> {
        self.base_url@
    }

    pub closed spec fn spec_scid(&self) -> Seq<char> {
        self.scid@
    }

    /// Checks the three settings: a known environment name (any case, surrounding whitespace
    /// ignored), an HTTPS origin (trailing slashes dropped) and a client id that is not blank.
    pub fn new(name: &str, base_url: &str, scid: &str) -> (r: Result<Self, AuthServiceError>)
        ensures
            r is Ok <==> (environment_name(name@) is Some && is_https_origin(
                trim_end_slashes(trim_seq(base_url@)),
            ) && trim_seq(scid@).len() > 0),
            r matches Ok(environment) ==> {
                &&& Some(environment.spec_name()) == environment_name(name@)
                &&& environment.spec_base_url() == trim_end_slashes(trim_seq(base_url@))
                &&& environment.spec_scid() == trim_seq(scid@)
            },
            r matches Err(e) ==> e.spec_kind() == AuthServiceErrorKind::Unavailable,
    {
        proof {
            reveal_strlit("development");
            reveal_strlit("production");
            reveal_strlit("test");
        }
        let trimmed_name = trim(name);
        let canonical: &str = if eq_ignore_ascii_case(trimmed_name, "development") {
            "development"
        } else if eq_ignore_ascii_case(trimmed_name, "production") {
            "production"
        } else if eq_ignore_ascii_case(trimmed_name, "test") {
            "test"
        } else {
            return Err(AuthServiceError::unavailable("unsupported SHENDESK_AUTH_ENVIRONMENT value"));
        };
        let url = without_trailing_slashes(trim(base_url));
        let valid_origin = match parse_url(url) {
            Some(parsed) => str_eq(parsed.scheme.as_str(), "https") && parsed.has_host,
            None => {
                return Err(AuthServiceError::unavailable("SHENDESK_AUTH_HOST is invalid"));
            },
        };
        if !valid_origin {
            return Err(AuthServiceError::unavailable("SHENDESK_AUTH_HOST must be an HTTPS origin"));
        }
        let trimmed_scid = trim(scid);
        if trimmed_scid.unicode_len() == 0 {
            return Err(AuthServiceError::unavailable("SHENDESK_AUTH_SCID must not be empty"));
        }
        Ok(
            AuthEnvironment {
                name: canonical.to_owned(),
                base_url: url.to_owned(),
                scid: trimmed_scid.to_owned(),
            },
        )
    }

    pub fn name(&self) -> (r: &str)
        ensures
            r@ == self.spec_name(),
    {
        self.name.as_str()
    }

    pub fn base_url(&self) -> (r: &str)
        ensures
            r@ == self.spec_base_url(),
    {
        self.base_url.as_str()
    }

    pub fn scid(&self) -> (r: &str)
        ensures
            r@ == self.spec_scid(),
    {
        self.scid.as_str()
    }

    /// The credential-store account of this environment's session.
    pub fn keyring_account(&self) -> (r: String)
        ensures
            r@ == self.spec_name() + "-session-v1"@,
    {
        let mut account = String::from_str(self.name.as_str());
        account.append("-session-v1");
        account
    }

    /// The address of the login endpoint.
    pub fn login_url(&self) -> (r: String)
        ensures
            r@ == self.spec_base_url() + LOGIN_PATH@,
    {
        let mut url = String::from_str(self.base_url.as_str());
        url.append(LOGIN_PATH);
        url
    }

    /// The address of the token refresh endpoint.
    pub fn refresh_url(&self) -> (r: String)
        ensures
            r@ == self.spec_base_url() + REFRESH_PATH@,
    {
        let mut url = String::from_str(self.base_url.as_str());
        url.append(REFRESH_PATH);
        url
    }
}

/// The token of a stored session, which must carry the current session format version.
pub fn stored_session_token(version: u8, token: AccessToken) -> (r: Result<AccessToken, AuthServiceError>)
    ensures
        version == AUTH_SESSION_VERSION ==> r == Ok::<AccessToken, AuthServiceError>(token),
        version != AUTH_SESSION_VERSION ==> (r matches Err(e) && e.spec_kind()
            == AuthServiceErrorKind::Storage),
{
    if version != AUTH_SESSION_VERSION {
        return Err(AuthServiceError::storage("stored authentication session version is not supported"));
    }
    Ok(token)
}

} // verus!
