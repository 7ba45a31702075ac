use axum_surreal::bootstrap::{
    Action, Bootstrap, Settings, Stage, Step, CONNECT_FAILED, SELECT_SCOPE_FAILED, SIGN_IN_FAILED,
};
use axum_surreal::error::{Error, INTERNAL_ERROR_MESSAGE};
use axum_surreal::reply::{Reply, CONTENT_TYPE_HTML, CONTENT_TYPE_TEXT};
use axum_surreal::service::{root, AppState};

#[test]
fn root_serves_ok_page() {
    let state = AppState::new("session");
    let reply = root(&state).unwrap();
    assert_eq!(reply.status, 200);
    assert_eq!(reply.body, "<h1>ok</h1>");
    assert_eq!(reply.content_type, "text/html; charset=utf-8");
    assert_eq!(reply.content_type, CONTENT_TYPE_HTML);
}

#[test]
fn root_ignores_which_session_is_held() {
    let a = root(&AppState::new(1u32)).unwrap();
    let b = root(&AppState::new(2u32)).unwrap();
    assert_eq!((a.status, a.content_type, a.body), (b.status, b.content_type, b.body));
}

#[test]
fn concurrent_clones_get_identical_replies() {
    let state = AppState::new(String::from("shared session"));
    let replies: Vec<Reply> = (0..100).map(|_| root(&state.clone()).unwrap()).collect();
    for r in &replies {
        assert_eq!(r.status, 200);
        assert_eq!(r.body, "<h1>ok</h1>");
        assert_eq!(r.content_type, replies[0].content_type);
    }
    assert_eq!(state.db(), "shared session");
}

#[test]
fn repeated_requests_are_byte_identical() {
    let state = AppState::new(7u8);
    let first = root(&state).unwrap();
    for _ in 0..10 {
        let again = root(&state).unwrap();
        assert_eq!(again.body.as_bytes(), first.body.as_bytes());
        assert_eq!(again.status, first.status);
        assert_eq!(again.content_type, first.content_type);
    }
    assert_eq!(*state.db(), 7u8);
}

#[test]
fn error_translates_to_internal_server_error() {
    let err = Error::from(anyhow::Error::msg("database unavailable"));
    let message = err.message();
    assert_eq!(message, "an internal server error occurred");
    let reply = err.into_response();
    assert_eq!(reply.status, 500);
    assert_eq!(reply.body, message);
    assert_eq!(reply.body, INTERNAL_ERROR_MESSAGE);
    assert_eq!(reply.content_type, CONTENT_TYPE_TEXT);
}

#[test]
fn every_cause_collapses_to_the_same_reply() {
    let a = Error::Anyhow(anyhow::Error::msg("authentication expired")).into_response();
    let b = Error::from(anyhow::Error::msg("x")).into_response();
    assert_eq!((a.status, a.body), (b.status, b.body));
}

#[test]
fn fixed_settings() {
    let s = Settings::fixed();
    assert_eq!(s.endpoint, "127.0.0.1:8000");
    assert_eq!(s.username, "test");
    assert_eq!(s.password, "test");
    assert_eq!(s.namespace, "axum_test");
    assert_eq!(s.database, "axum_test");
    assert_eq!(s.port, 7878);
}

#[test]
fn bootstrap_runs_all_steps_then_listens() {
    let mut boot = Bootstrap::new(Settings::fixed());
    assert_eq!(boot.stage(), Stage::Pending(Step::Connect));
    assert!(!boot.is_finished());
    match boot.action() {
        Action::Connect { endpoint } => assert_eq!(endpoint, "127.0.0.1:8000"),
        other => panic!("unexpected {:?}", other),
    }
    match boot.advance(true) {
        Action::SignIn { username, password } => {
            assert_eq!(username, "test");
            assert_eq!(password, "test");
        }
        other => panic!("unexpected {:?}", other),
    }
    match boot.advance(true) {
        Action::SelectScope { namespace, database } => {
            assert_eq!(namespace, "axum_test");
            assert_eq!(database, "axum_test");
        }
        other => panic!("unexpected {:?}", other),
    }
    match boot.advance(true) {
        Action::Listen { port } => assert_eq!(port, 7878),
        other => panic!("unexpected {:?}", other),
    }
    assert_eq!(boot.stage(), Stage::Ready);
    assert!(boot.is_finished());
}

fn abort_context(a: Action) -> String {
    match a {
        Action::Abort { context } => context,
        other => panic!("expected an abort, got {:?}", other),
    }
}

#[test]
fn connect_failure_aborts_without_listening() {
    let mut boot = Bootstrap::new(Settings::fixed());
    assert_eq!(abort_context(boot.advance(false)), CONNECT_FAILED);
    assert_eq!(boot.stage(), Stage::Failed(Step::Connect));
    assert!(boot.is_finished());
    // later reports change nothing
    assert_eq!(abort_context(boot.advance(true)), CONNECT_FAILED);
    assert_eq!(boot.stage(), Stage::Failed(Step::Connect));
}

#[test]
fn sign_in_failure_aborts_without_listening() {
    let mut boot = Bootstrap::new(Settings::fixed());
    boot.advance(true);
    assert_eq!(abort_context(boot.advance(false)), SIGN_IN_FAILED);
    assert_eq!(boot.stage(), Stage::Failed(Step::SignIn));
}

#[test]
fn scope_failure_aborts_without_listening() {
    let mut boot = Bootstrap::new(Settings::fixed());
    boot.advance(true);
    boot.advance(true);
    let context = abort_context(boot.advance(false));
    assert_eq!(context, SELECT_SCOPE_FAILED);
    assert_eq!(context, "failed to select the namespace and database");
    assert_eq!(abort_context(boot.action()), SELECT_SCOPE_FAILED);
}

#[test]
fn finished_sequence_keeps_listening_action() {
    let mut boot = Bootstrap::new(Settings::fixed());
    for _ in 0..3 {
        boot.advance(true);
    }
    match boot.advance(false) {
        Action::Listen { port } => assert_eq!(port, 7878),
        other => panic!("unexpected {:?}", other),
    }
    assert_eq!(boot.stage(), Stage::Ready);
}

#[test]
fn reply_new_keeps_its_parts() {
    let r = Reply::new(404, "text/plain", "missing");
    assert_eq!((r.status, r.content_type.as_str(), r.body.as_str()), (404, "text/plain", "missing"));
}
