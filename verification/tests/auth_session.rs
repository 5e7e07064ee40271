use std::sync::Mutex;

use shendesk::auth_service::{
    evaluate_login_response, prepare_login, stored_session_token, AuthBackendResponse,
    AuthEnvironment, AuthService, AuthServiceError, AuthServiceErrorKind, AuthSessionStore,
    SUCCESS_CODE,
};
use shendesk::domain::auth::{
    AccessToken, AuthState, LoginData, LoginRequest, LoginResponse, RefreshToken, UserInformation,
};
use shendesk::domain::event::EventKind;
use shendesk::event_bus::EventBus;
use shendesk::ipc_error::IpcErrorCode;
use shendesk::ipc_request::map_auth_error;

#[derive(Debug, Default)]
struct RecordingStore {
    session: Mutex<Option<AccessToken>>,
    clear_count: Mutex<u32>,
    load_error: bool,
    save_error: bool,
    clear_error: bool,
}

impl AuthSessionStore for RecordingStore {
    fn load(&self) -> Result<Option<AccessToken>, AuthServiceError> {
        if self.load_error {
            return Err(AuthServiceError::storage("session store unavailable"));
        }
        Ok(self.session.lock().expect("session lock").clone())
    }

    fn save(&self, token: &AccessToken) -> Result<(), AuthServiceError> {
        if self.save_error {
            return Err(AuthServiceError::storage("session store unavailable"));
        }
        *self.session.lock().expect("session lock") = Some(token.clone());
        Ok(())
    }

    fn clear(&self) -> Result<(), AuthServiceError> {
        *self.clear_count.lock().expect("clear count lock") += 1;
        if self.clear_error {
            return Err(AuthServiceError::storage("session store unavailable"));
        }
        *self.session.lock().expect("session lock") = None;
        Ok(())
    }
}

fn access_token(expiration: i64) -> AccessToken {
    AccessToken {
        additional_information: UserInformation {
            realname: "测试用户".to_owned(),
            phone: "13800000000".to_owned(),
            username: "13800000000".to_owned(),
            uid: "user-id".to_owned(),
        },
        expiration,
        expires_in: 3_600,
        refresh_token: RefreshToken::Object { value: Some("refresh-token".to_owned()) },
        scope: vec!["all".to_owned()],
        token_type: "bearer".to_owned(),
        value: "access-token".to_owned(),
    }
}

fn response(http_status: u16, errcode: &str, errmsg: &str, has_data: bool) -> AuthBackendResponse {
    let data = if has_data {
        Some(LoginData { additional_information: access_token(4_102_444_800) })
    } else {
        None
    };
    AuthBackendResponse {
        http_status,
        payload: LoginResponse { data, errcode: errcode.to_owned(), errmsg: errmsg.to_owned() },
    }
}

fn store(initial_session: Option<AccessToken>) -> RecordingStore {
    RecordingStore { session: Mutex::new(initial_session), ..RecordingStore::default() }
}

fn request() -> LoginRequest {
    LoginRequest { username: " 13800000000 ".to_owned(), password: "password".to_owned() }
}

/// What a caller does: check the input, send it, hand the reply to the service.
fn login(
    service: &mut AuthService<RecordingStore>,
    sent: &mut Vec<LoginRequest>,
    request: LoginRequest,
    reply: AuthBackendResponse,
) -> Result<AuthState, AuthServiceError> {
    let request = prepare_login(request)?;
    sent.push(request);
    service.finish_login(Ok(reply))
}

#[test]
fn accepts_the_confirmed_success_code_and_normalizes_the_phone() {
    let mut service = AuthService::new(store(None), EventBus::new(8));
    let mut subscriber = service.event_bus().subscribe_to(vec![EventKind::UserLoggedIn]);
    let mut sent = Vec::new();
    let state = login(&mut service, &mut sent, request(), response(200, SUCCESS_CODE, "", true))
        .expect("confirmed response should succeed");

    assert!(state.authenticated);
    assert_eq!(state.user.expect("user").uid, "user-id");
    assert_eq!(
        service.store().session.lock().expect("session lock").as_ref().expect("stored token").value,
        "access-token"
    );
    assert_eq!(sent[0].username, "13800000000");
    let event = service.event_bus().try_recv(&mut subscriber).expect("login event");
    assert_eq!(event.event.kind(), EventKind::UserLoggedIn);
}

#[test]
fn rejects_invalid_input_before_calling_the_backend() {
    let mut service = AuthService::new(store(None), EventBus::new(8));
    let mut sent = Vec::new();
    let error = login(
        &mut service,
        &mut sent,
        LoginRequest { username: " ".to_owned(), password: String::new() },
        response(200, SUCCESS_CODE, "", true),
    )
    .expect_err("empty credentials should fail");

    assert_eq!(error.kind(), AuthServiceErrorKind::Validation);
    assert!(sent.is_empty());
}

#[test]
fn preserves_user_facing_business_errors() {
    let error = evaluate_login_response(response(200, "601002", "账号或密码有误", false))
        .expect_err("business rejection should fail");

    assert_eq!(error.kind(), AuthServiceErrorKind::Rejected);
    assert_eq!(error.message(), "账号或密码有误");
    let blank = evaluate_login_response(response(200, "601002", "  ", false)).expect_err("rejected");
    assert_eq!(blank.message(), "手机号或密码不正确。");
    let mapped = map_auth_error(&error);
    assert_eq!(mapped.code, IpcErrorCode::AuthRejected);
    assert_eq!(mapped.message, "账号或密码有误");
}

#[test]
fn treats_http_failures_and_missing_success_data_as_unavailable() {
    for backend_response in [
        response(503, "500000", "internal database detail", false),
        response(200, SUCCESS_CODE, "", false),
    ] {
        let mut service = AuthService::new(store(None), EventBus::new(8));
        let error = service.finish_login(Ok(backend_response)).expect_err("unavailable response should fail");
        assert_eq!(error.kind(), AuthServiceErrorKind::Unavailable);
    }
    let http = evaluate_login_response(response(503, "500000", "", false)).expect_err("http failure");
    assert_eq!(http.message(), "login endpoint returned HTTP 503");
}

#[test]
fn reports_session_storage_failures_separately_from_login_service_failures() {
    let failing = RecordingStore { save_error: true, ..RecordingStore::default() };
    let mut service = AuthService::new(failing, EventBus::new(8));
    let mut sent = Vec::new();

    let error = login(&mut service, &mut sent, request(), response(200, SUCCESS_CODE, "", true))
        .expect_err("session storage failure should fail login");

    assert_eq!(error.kind(), AuthServiceErrorKind::Storage);
    assert_eq!(service.state().expect("state should load"), AuthState::signed_out());
}

#[test]
fn restores_a_non_expired_session_without_exposing_tokens() {
    let mut service = AuthService::new(store(Some(access_token(4_102_444_800))), EventBus::new(8));

    let state = service.state().expect("stored session should load");

    assert!(state.authenticated);
    assert_eq!(state.expires_at, Some(4_102_444_800));
    assert_eq!(state.user.expect("user").uid, "user-id");
}

#[test]
fn clears_an_expired_session_during_initialization() {
    let mut service = AuthService::new(store(Some(access_token(1))), EventBus::new(8));

    assert_eq!(service.state().expect("state should load"), AuthState::signed_out());
    assert_eq!(*service.store().clear_count.lock().expect("clear count lock"), 1);
}

#[test]
fn starts_signed_out_when_the_session_store_cannot_be_loaded() {
    let failing = RecordingStore { load_error: true, ..RecordingStore::default() };
    let mut service = AuthService::new(failing, EventBus::new(8));

    assert_eq!(service.state().expect("signed-out state should load"), AuthState::signed_out());
}

#[test]
fn signs_out_an_expired_session_even_when_persistent_cleanup_fails() {
    let failing = RecordingStore {
        session: Mutex::new(Some(access_token(1_000))),
        clear_error: true,
        ..RecordingStore::default()
    };
    let mut service = AuthService::new_at(failing, EventBus::new(8), 500);
    assert!(service.state_at(999).expect("live session").authenticated);

    let state = service
        .state_at(1_000)
        .expect("persistent cleanup failure should not keep an expired session");

    assert_eq!(state, AuthState::signed_out());
    assert_eq!(*service.store().clear_count.lock().expect("clear count lock"), 1);
}

#[test]
fn logout_clears_the_session_and_publishes_an_event() {
    let mut service = AuthService::new(store(Some(access_token(4_102_444_800))), EventBus::new(8));
    let mut subscriber = service.event_bus().subscribe_to(vec![EventKind::UserLoggedOut]);

    let state = service.logout().expect("logout should succeed");

    assert_eq!(state, AuthState::signed_out());
    assert!(service.store().session.lock().expect("session lock").is_none());
    let event = service.event_bus().try_recv(&mut subscriber).expect("logout event should publish");
    assert_eq!(event.event.kind(), EventKind::UserLoggedOut);
}

#[test]
fn validates_authentication_environment_values() {
    let environment =
        AuthEnvironment::new(" PRODUCTION ", "https://crm.example.com/", " production-scid ")
            .expect("production should parse");

    assert_eq!(environment.name(), "production");
    assert_eq!(environment.base_url(), "https://crm.example.com");
    assert_eq!(environment.scid(), "production-scid");
    assert!(AuthEnvironment::new("staging", "https://example.com", "scid").is_err());
    assert!(AuthEnvironment::new("test", "http://example.com", "scid").is_err());
    assert!(AuthEnvironment::new("test", "https://example.com", " ").is_err());
}

#[test]
fn environment_addresses_and_keyring_account() {
    let environment = AuthEnvironment::new("test", "https://test.example.com", "environment-scid")
        .expect("environment should be valid");
    assert_eq!(environment.login_url(), "https://test.example.com/service-uaa/user/login");
    assert_eq!(
        environment.refresh_url(),
        "https://test.example.com/service-uaa/auth/token-user/refresh"
    );
    assert_eq!(environment.keyring_account(), "test-session-v1");
    assert!(AuthEnvironment::new("test", "not a url", "scid").is_err());
}

#[test]
fn stored_sessions_must_carry_the_current_version() {
    assert_eq!(stored_session_token(1, access_token(5)).expect("version one").value, "access-token");
    assert_eq!(
        stored_session_token(2, access_token(5)).expect_err("unknown version").kind(),
        AuthServiceErrorKind::Storage
    );
}
