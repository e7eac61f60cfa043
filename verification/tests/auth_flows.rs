use clavis::api::{ChangePasswordRequest, LoginRequest, Reply, ReplyBody};
use clavis::auth::{
    change_password, login, logout, ChangePasswordAction, ChangePasswordEvent, ChangePasswordState,
    LoginAction, LoginEvent, LoginState, LogoutAction, LogoutEvent, LogoutState,
};

fn error_of(r: &Reply) -> (u16, String) {
    match &r.body {
        ReplyBody::Error(e) => {
            assert!(!e.success);
            (r.status, e.error.clone())
        }
        other => panic!("not an error reply: {:?}", other),
    }
}

fn login_request() -> LoginRequest {
    LoginRequest { username: "alice".to_string(), password: "secret".to_string() }
}

#[test]
fn login_success_stores_the_requested_user() {
    let (s, a) = login(LoginState::Start, LoginEvent::Received(login_request()));
    match a {
        LoginAction::Authenticate { username, password } => {
            assert_eq!(username, "alice");
            assert_eq!(password, "secret");
        }
        other => panic!("{:?}", other),
    }
    let (s, a) = login(s, LoginEvent::Authenticated(Ok(())));
    match a {
        LoginAction::StoreSession { username } => assert_eq!(username, "alice"),
        other => panic!("{:?}", other),
    }
    let (s, a) = login(s, LoginEvent::SessionStored(Ok(())));
    assert!(matches!(s, LoginState::Finished));
    match a {
        LoginAction::Respond(r) => {
            assert_eq!(r.status, 200);
            match r.body {
                ReplyBody::Login(b) => {
                    assert!(b.success);
                    assert_eq!(b.message, "Authentication successful");
                }
                other => panic!("{:?}", other),
            }
        }
        other => panic!("{:?}", other),
    }
}

#[test]
fn login_refused_by_directory_is_unauthorized() {
    let (s, _) = login(LoginState::Start, LoginEvent::Received(login_request()));
    let (s, a) = login(s, LoginEvent::Authenticated(Err("bad credentials".to_string())));
    assert!(matches!(s, LoginState::Finished));
    match a {
        LoginAction::Respond(r) => assert_eq!(error_of(&r), (401, "bad credentials".to_string())),
        other => panic!("{:?}", other),
    }
}

#[test]
fn login_session_failure_is_internal_error() {
    let (s, _) = login(LoginState::Start, LoginEvent::Received(login_request()));
    let (s, _) = login(s, LoginEvent::Authenticated(Ok(())));
    let (_, a) = login(s, LoginEvent::SessionStored(Err("store down".to_string())));
    match a {
        LoginAction::Respond(r) => {
            assert_eq!(error_of(&r), (500, "Failed to create session: store down".to_string()))
        }
        other => panic!("{:?}", other),
    }
}

#[test]
fn logout_clears_then_confirms() {
    let (s, a) = logout(LogoutState::Start, LogoutEvent::Received);
    assert!(matches!(a, LogoutAction::ClearSession));
    let (s, a) = logout(s, LogoutEvent::SessionCleared);
    assert!(matches!(s, LogoutState::Finished));
    match a {
        LogoutAction::Respond(r) => {
            assert_eq!(r.status, 200);
            match r.body {
                ReplyBody::Login(b) => {
                    assert!(b.success);
                    assert_eq!(b.message, "Logged out successfully");
                }
                other => panic!("{:?}", other),
            }
        }
        other => panic!("{:?}", other),
    }
}

fn change_request(current: &str, new: &str, confirm: &str) -> ChangePasswordRequest {
    ChangePasswordRequest {
        current_password: current.to_string(),
        new_password: new.to_string(),
        confirm_password: confirm.to_string(),
    }
}

fn first_reply(user: Option<&str>, req: ChangePasswordRequest) -> (u16, String) {
    let (s, a) = change_password(
        ChangePasswordState::Start,
        ChangePasswordEvent::Received { session_user: user.map(|u| u.to_string()), request: req },
    );
    assert!(matches!(s, ChangePasswordState::Finished));
    match a {
        ChangePasswordAction::Respond(r) => error_of(&r),
        other => panic!("{:?}", other),
    }
}

#[test]
fn change_without_session_is_unauthorized() {
    assert_eq!(
        first_reply(None, change_request("old", "Abcdef1!", "Abcdef1!")),
        (401, "No active session".to_string())
    );
}

#[test]
fn change_with_mismatched_passwords_is_refused_before_policy() {
    assert_eq!(
        first_reply(Some("alice"), change_request("old", "short", "other")),
        (400, "Las contraseñas no coinciden".to_string())
    );
}

#[test]
fn change_with_weak_password_reports_the_rule() {
    assert_eq!(
        first_reply(Some("alice"), change_request("old", "short", "short")),
        (400, "La contraseña debe tener al menos 8 caracteres".to_string())
    );
    assert_eq!(
        first_reply(Some("alice"), change_request("old", "abcdefg1!", "abcdefg1!")),
        (400, "La contraseña debe contener al menos una mayúscula".to_string())
    );
    assert_eq!(
        first_reply(Some("alice"), change_request("old", "Abcdefg12", "Abcdefg12")),
        (400, "La contraseña debe contener al menos un carácter especial".to_string())
    );
}

#[test]
fn change_success_runs_every_step() {
    let (s, a) = change_password(
        ChangePasswordState::Start,
        ChangePasswordEvent::Received {
            session_user: Some("alice".to_string()),
            request: change_request("Old1!old", "Abcdef1!", "Abcdef1!"),
        },
    );
    match a {
        ChangePasswordAction::Authenticate { username, password } => {
            assert_eq!(username, "alice");
            assert_eq!(password, "Old1!old");
        }
        other => panic!("{:?}", other),
    }
    let (s, a) = change_password(s, ChangePasswordEvent::Authenticated(Ok(())));
    match a {
        ChangePasswordAction::ChangePassword { username, new_password } => {
            assert_eq!(username, "alice");
            assert_eq!(new_password, "Abcdef1!");
        }
        other => panic!("{:?}", other),
    }
    let (s, a) = change_password(s, ChangePasswordEvent::PasswordChanged(Ok(())));
    match a {
        ChangePasswordAction::Notify { username } => assert_eq!(username, "alice"),
        other => panic!("{:?}", other),
    }
    // A failed notification does not change the answer.
    let (s, a) = change_password(s, ChangePasswordEvent::Notified(Err("smtp down".to_string())));
    assert!(matches!(s, ChangePasswordState::Finished));
    match a {
        ChangePasswordAction::Respond(r) => {
            assert_eq!(r.status, 200);
            match r.body {
                ReplyBody::ChangePassword(b) => {
                    assert!(b.success);
                    assert_eq!(b.message, "Contraseña actualizada correctamente");
                }
                other => panic!("{:?}", other),
            }
        }
        other => panic!("{:?}", other),
    }
}

#[test]
fn change_with_wrong_current_password_is_unauthorized() {
    let (s, _) = change_password(
        ChangePasswordState::Start,
        ChangePasswordEvent::Received {
            session_user: Some("alice".to_string()),
            request: change_request("wrong", "Abcdef1!", "Abcdef1!"),
        },
    );
    let (s, a) = change_password(s, ChangePasswordEvent::Authenticated(Err("nope".to_string())));
    assert!(matches!(s, ChangePasswordState::Finished));
    match a {
        ChangePasswordAction::Respond(r) => {
            assert_eq!(error_of(&r), (401, "Authentication failed: nope".to_string()))
        }
        other => panic!("{:?}", other),
    }
}

#[test]
fn change_refused_by_directory_is_internal_error() {
    let (s, _) = change_password(
        ChangePasswordState::Start,
        ChangePasswordEvent::Received {
            session_user: Some("alice".to_string()),
            request: change_request("Old1!old", "Abcdef1!", "Abcdef1!"),
        },
    );
    let (s, _) = change_password(s, ChangePasswordEvent::Authenticated(Ok(())));
    let (_, a) = change_password(s, ChangePasswordEvent::PasswordChanged(Err("denied".to_string())));
    match a {
        ChangePasswordAction::Respond(r) => {
            assert_eq!(error_of(&r), (500, "Failed to change password: denied".to_string()))
        }
        other => panic!("{:?}", other),
    }
}
