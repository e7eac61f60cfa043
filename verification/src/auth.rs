//! The decisions behind the three web endpoints. Each endpoint is a small
//! state machine: the caller hands in what happened (the request, the
//! result of a directory or session operation) and gets back the next state
//! and what to do next, ending with the reply to send.
use vstd::prelude::*;
use crate::api::{
    ChangePasswordRequest, ChangePasswordResponse, LoginRequest, LoginResponse,
    Reply, ReplyBody, error_reply, is_change_reply, is_error_reply, is_login_reply, STATUS_OK,
    STATUS_BAD_REQUEST, STATUS_UNAUTHORIZED, STATUS_INTERNAL_SERVER_ERROR,
};
use crate::password::{
    PasswordValidationError, error_text, meets_policy, policy_verdict, validate_password,
};
use crate::text::concat;

verus! {

/// Login: where the exchange stands.
#[derive(Debug)]
pub enum LoginState {
    Start,
    AwaitingAuthentication { username: String },
    AwaitingSession,
    Finished,
}

/// Login: what happened.
#[derive(Debug)]
pub enum LoginEvent {
    Received(LoginRequest),
    Authenticated(Result<(), String>),
    SessionStored(Result<(), String>),
}

/// Login: what to do next.
#[derive(Debug)]
pub enum LoginAction {
    Authenticate { username: String, password: String },
    StoreSession { username: String },
    Respond(Reply),
}

/// Whether `state` is waiting for an event of the kind of `event`.
pub open spec fn login_expects(state: LoginState, event: LoginEvent) -> bool {
    match (state, event) {
        (LoginState::Start, LoginEvent::Received(_)) => true,
        (LoginState::AwaitingAuthentication { .. }, LoginEvent::Authenticated(_)) => true,
        (LoginState::AwaitingSession, LoginEvent::SessionStored(_)) => true,
        _ => false,
    }
}

/// One step of a login: the credentials are checked against the directory,
/// then the user name is stored in the session, then the reply is sent.
pub open spec fn login_next(
    state: LoginState,
    event: LoginEvent,
    next: LoginState,
    action: LoginAction,
) -> bool {
    match (state, event) {
        (LoginState::Start, LoginEvent::Received(req)) => {
            &&& next == LoginState::AwaitingAuthentication { username: req.username }
            &&& action == LoginAction::Authenticate {
                username: req.username,
                password: req.password,
            }
        },
        (LoginState::AwaitingAuthentication { username }, LoginEvent::Authenticated(r)) => {
            match r {
                Ok(_) => {
                    &&& next == LoginState::AwaitingSession
                    &&& action == LoginAction::StoreSession { username }
                },
                Err(e) => {
                    &&& next == LoginState::Finished
                    &&& action matches LoginAction::Respond(reply)
                    &&& is_error_reply(reply, STATUS_UNAUTHORIZED, e@)
                },
            }
        },
        (LoginState::AwaitingSession, LoginEvent::SessionStored(r)) => {
            &&& next == LoginState::Finished
            &&& action matches LoginAction::Respond(reply)
            &&& match r {
                Ok(_) => is_login_reply(reply, "Authentication successful"@),
                Err(e) => is_error_reply(
                    reply,
                    STATUS_INTERNAL_SERVER_ERROR,
                    "Failed to create session: "@ + e@,
                ),
            }
        },
        _ => false,
    }
}

/// One step of a login.
pub fn login(state: LoginState, event: LoginEvent) -> (res: (LoginState, LoginAction))
    requires
        login_expects(state, event),
    ensures
        login_next(state, event, res.0, res.1),
{
    match event {
        LoginEvent::Received(req) => {
            let username = req.username.clone();
            (
                LoginState::AwaitingAuthentication { username },
                LoginAction::Authenticate { username: req.username, password: req.password },
            )
        },
        LoginEvent::Authenticated(r) => {
            match state {
                LoginState::AwaitingAuthentication { username } => match r {
                    Ok(_) => (LoginState::AwaitingSession, LoginAction::StoreSession { username }),
                    Err(e) => (
                        LoginState::Finished,
                        LoginAction::Respond(error_reply(STATUS_UNAUTHORIZED, e)),
                    ),
                },
                _ => {
                    proof {
                        assert(false);
                    }
                    (LoginState::Finished, LoginAction::Respond(error_reply(STATUS_UNAUTHORIZED, String::new())))
                },
            }
        },
        LoginEvent::SessionStored(r) => match r {
            Ok(_) => (
                LoginState::Finished,
                LoginAction::Respond(
                    Reply {
                        status: STATUS_OK,
                        body: ReplyBody::Login(
                            LoginResponse {
                                success: true,
                                message: String::from_str("Authentication successful"),
                            },
                        ),
                    },
                ),
            ),
            Err(e) => (
                LoginState::Finished,
                LoginAction::Respond(
                    error_reply(
                        STATUS_INTERNAL_SERVER_ERROR,
                        concat("Failed to create session: ", e.as_str()),
                    ),
                ),
            ),
        },
    }
}


/// Logout: where the exchange stands.
#[derive(Debug)]
pub enum LogoutState {
    Start,
    AwaitingClear,
    Finished,
}

/// Logout: what happened.
#[derive(Debug)]
pub enum LogoutEvent {
    Received,
    SessionCleared,
}

/// Logout: what to do next.
#[derive(Debug)]
pub enum LogoutAction {
    ClearSession,
    Respond(Reply),
}

/// Whether `state` is waiting for an event of the kind of `event`.
pub open spec fn logout_expects(state: LogoutState, event: LogoutEvent) -> bool {
    match (state, event) {
        (LogoutState::Start, LogoutEvent::Received) => true,
        (LogoutState::AwaitingClear, LogoutEvent::SessionCleared) => true,
        _ => false,
    }
}

/// One step of a logout: the session is cleared, then success is reported.
pub open spec fn logout_next(
    state: LogoutState,
    event: LogoutEvent,
    next: LogoutState,
    action: LogoutAction,
) -> bool {
    match event {
        LogoutEvent::Received => next == LogoutState::AwaitingClear && action
            == LogoutAction::ClearSession,
        LogoutEvent::SessionCleared => {
            &&& next == LogoutState::Finished
            &&& action matches LogoutAction::Respond(reply)
            &&& is_login_reply(reply, "Logged out successfully"@)
        },
    }
}

/// One step of a logout.
pub fn logout(state: LogoutState, event: LogoutEvent) -> (res: (LogoutState, LogoutAction))
    requires
        logout_expects(state, event),
    ensures
        logout_next(state, event, res.0, res.1),
{
    match event {
        LogoutEvent::Received => (LogoutState::AwaitingClear, LogoutAction::ClearSession),
        LogoutEvent::SessionCleared => (
            LogoutState::Finished,
            LogoutAction::Respond(
                Reply {
                    status: STATUS_OK,
                    body: ReplyBody::Login(
                        LoginResponse {
                            success: true,
                            message: String::from_str("Logged out successfully"),
                        },
                    ),
                },
            ),
        ),
    }
}

/// Password change: where the exchange stands.
#[derive(Debug)]
pub enum ChangePasswordState {
    Start,
    AwaitingAuthentication { username: String, new_password: String },
    AwaitingChange { username: String },
    AwaitingNotification,
    Finished,
}

/// Password change: what happened. `Received` carries the user name stored
/// in the session, if any, and the request.
#[derive(Debug)]
pub enum ChangePasswordEvent {
    Received { session_user: Option<String>, request: ChangePasswordRequest },
    Authenticated(Result<(), String>),
    PasswordChanged(Result<(), String>),
    Notified(Result<(), String>),
}

/// Password change: what to do next.
#[derive(Debug)]
pub enum ChangePasswordAction {
    Authenticate { username: String, password: String },
    ChangePassword { username: String, new_password: String },
    Notify { username: String },
    Respond(Reply),
}

/// Whether `state` is waiting for an event of the kind of `event`.
pub open spec fn change_password_expects(
    state: ChangePasswordState,
    event: ChangePasswordEvent,
) -> bool {
    match (state, event) {
        (ChangePasswordState::Start, ChangePasswordEvent::Received { .. }) => true,
        (
            ChangePasswordState::AwaitingAuthentication { .. },
            ChangePasswordEvent::Authenticated(_),
        ) => true,
        (ChangePasswordState::AwaitingChange { .. }, ChangePasswordEvent::PasswordChanged(_)) => true,
        (ChangePasswordState::AwaitingNotification, ChangePasswordEvent::Notified(_)) => true,
        _ => false,
    }
}

/// What every state of a password change keeps: a new password that is
/// waiting to be written meets the policy.
pub open spec fn change_password_state_ok(state: ChangePasswordState) -> bool {
    state matches ChangePasswordState::AwaitingAuthentication { new_password, .. } ==> meets_policy(
        new_password@,
    )
}

/// What a password change does on receiving the request.
pub open spec fn change_password_on_request(
    session_user: Option<String>,
    req: ChangePasswordRequest,
    next: ChangePasswordState,
    action: ChangePasswordAction,
) -> bool {
    match session_user {
        None => {
            &&& next == ChangePasswordState::Finished
            &&& action matches ChangePasswordAction::Respond(reply)
            &&& is_error_reply(reply, STATUS_UNAUTHORIZED, "No active session"@)
        },
        Some(username) => if req.new_password@ != req.confirm_password@ {
            &&& next == ChangePasswordState::Finished
            &&& action matches ChangePasswordAction::Respond(reply)
            &&& is_error_reply(
                reply,
                STATUS_BAD_REQUEST,
                error_text(PasswordValidationError::Mismatch),
            )
        } else {
            match policy_verdict(req.new_password@) {
                Err(e) => {
                    &&& next == ChangePasswordState::Finished
                    &&& action matches ChangePasswordAction::Respond(reply)
                    &&& is_error_reply(reply, STATUS_BAD_REQUEST, error_text(e))
                },
                Ok(_) => {
                    &&& next == ChangePasswordState::AwaitingAuthentication {
                        username,
                        new_password: req.new_password,
                    }
                    &&& action == ChangePasswordAction::Authenticate {
                        username,
                        password: req.current_password,
                    }
                },
            }
        },
    }
}

/// One step of a password change. The request is refused unless there is a
/// session, the two new passwords agree and the new one meets the policy;
/// then the current password is checked for the session's user, the new
/// password is written, a notification is sent, and success is reported.
pub open spec fn change_password_next(
    state: ChangePasswordState,
    event: ChangePasswordEvent,
    next: ChangePasswordState,
    action: ChangePasswordAction,
) -> bool {
    match (state, event) {
        (ChangePasswordState::Start, ChangePasswordEvent::Received { session_user, request }) =>
            change_password_on_request(session_user, request, next, action),
        (
            ChangePasswordState::AwaitingAuthentication { username, new_password },
            ChangePasswordEvent::Authenticated(r),
        ) => match r {
            Ok(_) => {
                &&& next == ChangePasswordState::AwaitingChange { username }
                &&& action == ChangePasswordAction::ChangePassword { username, new_password }
            },
            Err(e) => {
                &&& next == ChangePasswordState::Finished
                &&& action matches ChangePasswordAction::Respond(reply)
                &&& is_error_reply(
                    reply,
                    STATUS_UNAUTHORIZED,
                    "Authentication failed: "@ + e@,
                )
            },
        },
        (
            ChangePasswordState::AwaitingChange { username },
            ChangePasswordEvent::PasswordChanged(r),
        ) => match r {
            Ok(_) => {
                &&& next == ChangePasswordState::AwaitingNotification
                &&& action == ChangePasswordAction::Notify { username }
            },
            Err(e) => {
                &&& next == ChangePasswordState::Finished
                &&& action matches ChangePasswordAction::Respond(reply)
                &&& is_error_reply(
                    reply,
                    STATUS_INTERNAL_SERVER_ERROR,
                    "Failed to change password: "@ + e@,
                )
            },
        },
        (ChangePasswordState::AwaitingNotification, ChangePasswordEvent::Notified(_)) => {
            &&& next == ChangePasswordState::Finished
            &&& action matches ChangePasswordAction::Respond(reply)
            &&& is_change_reply(reply, "Contraseña actualizada correctamente"@)
        },
        _ => false,
    }
}

/// One step of a password change.
pub fn change_password(state: ChangePasswordState, event: ChangePasswordEvent) -> (res: (
    ChangePasswordState,
    ChangePasswordAction,
))
    requires
        change_password_expects(state, event),
        change_password_state_ok(state),
    ensures
        change_password_state_ok(res.0),
        change_password_next(state, event, res.0, res.1),
{
    match event {
        ChangePasswordEvent::Received { session_user, request } => {
            match session_user {
                None => (
                    ChangePasswordState::Finished,
                    ChangePasswordAction::Respond(
                        error_reply(STATUS_UNAUTHORIZED, String::from_str("No active session")),
                    ),
                ),
                Some(username) => {
                    if request.new_password != request.confirm_password {
                        return (
                            ChangePasswordState::Finished,
                            ChangePasswordAction::Respond(
                                error_reply(
                                    STATUS_BAD_REQUEST,
                                    PasswordValidationError::Mismatch.message(),
                                ),
                            ),
                        );
                    }
                    match validate_password(request.new_password.as_str()) {
                        Err(e) => (
                            ChangePasswordState::Finished,
                            ChangePasswordAction::Respond(error_reply(STATUS_BAD_REQUEST, e.message())),
                        ),
                        Ok(_) => {
                            proof {
                                crate::password::lemma_accepted_iff_policy(request.new_password@);
                            }
                            let user = username.clone();
                            (
                                ChangePasswordState::AwaitingAuthentication {
                                    username,
                                    new_password: request.new_password,
                                },
                                ChangePasswordAction::Authenticate {
                                    username: user,
                                    password: request.current_password,
                                },
                            )
                        },
                    }
                },
            }
        },
        ChangePasswordEvent::Authenticated(r) => match state {
            ChangePasswordState::AwaitingAuthentication { username, new_password } => match r {
                Ok(_) => {
                    let user = username.clone();
                    (
                        ChangePasswordState::AwaitingChange { username },
                        ChangePasswordAction::ChangePassword { username: user, new_password },
                    )
                },
                Err(e) => (
                    ChangePasswordState::Finished,
                    ChangePasswordAction::Respond(
                        error_reply(
                            STATUS_UNAUTHORIZED,
                            concat("Authentication failed: ", e.as_str()),
                        ),
                    ),
                ),
            },
            _ => {
                proof {
                    assert(false);
                }
                (ChangePasswordState::Finished, ChangePasswordAction::Notify { username: String::new() })
            },
        },
        ChangePasswordEvent::PasswordChanged(r) => match state {
            ChangePasswordState::AwaitingChange { username } => match r {
                Ok(_) => (
                    ChangePasswordState::AwaitingNotification,
                    ChangePasswordAction::Notify { username },
                ),
                Err(e) => (
                    ChangePasswordState::Finished,
                    ChangePasswordAction::Respond(
                        error_reply(
                            STATUS_INTERNAL_SERVER_ERROR,
                            concat("Failed to change password: ", e.as_str()),
                        ),
                    ),
                ),
            },
            _ => {
                proof {
                    assert(false);
                }
                (ChangePasswordState::Finished, ChangePasswordAction::Notify { username: String::new() })
            },
        },
        ChangePasswordEvent::Notified(_) => (
            ChangePasswordState::Finished,
            ChangePasswordAction::Respond(
                Reply {
                    status: STATUS_OK,
                    body: ReplyBody::ChangePassword(
                        ChangePasswordResponse {
                            success: true,
                            message: String::from_str("Contraseña actualizada correctamente"),
                        },
                    ),
                },
            ),
        ),
    }
}


/// A login stores a user name in the session only after the directory
/// accepted the credentials of the login request, and the name stored is the
/// one from the request.
pub proof fn lemma_session_only_after_authentication(
    req: LoginRequest,
    s1: LoginState,
    a1: LoginAction,
    e2: LoginEvent,
    s2: LoginState,
    a2: LoginAction,
)
    requires
        login_next(LoginState::Start, LoginEvent::Received(req), s1, a1),
        login_next(s1, e2, s2, a2),
    ensures
        a1 == (LoginAction::Authenticate { username: req.username, password: req.password }),
        a2 is StoreSession <==> (e2 matches LoginEvent::Authenticated(Ok(_))),
        a2 is StoreSession ==> a2 == (LoginAction::StoreSession { username: req.username }),
{
}

/// A password change writes a new password only for the user of the
/// session, only when the two new passwords agree and meet the policy, and
/// only after the directory accepted the current password of that user.
pub proof fn lemma_password_written_only_after_checks(
    session_user: Option<String>,
    req: ChangePasswordRequest,
    s1: ChangePasswordState,
    a1: ChangePasswordAction,
    e2: ChangePasswordEvent,
    s2: ChangePasswordState,
    a2: ChangePasswordAction,
)
    requires
        change_password_next(
            ChangePasswordState::Start,
            ChangePasswordEvent::Received { session_user, request: req },
            s1,
            a1,
        ),
        change_password_next(s1, e2, s2, a2),
    ensures
        a2 is ChangePassword ==> {
            &&& session_user is Some
            &&& a2 == (ChangePasswordAction::ChangePassword {
                username: session_user->0,
                new_password: req.new_password,
            })
            &&& req.new_password@ == req.confirm_password@
            &&& meets_policy(req.new_password@)
            &&& a1 == (ChangePasswordAction::Authenticate {
                username: session_user->0,
                password: req.current_password,
            })
            &&& e2 matches ChangePasswordEvent::Authenticated(Ok(_))
        },
{
    if a2 is ChangePassword {
        crate::password::lemma_accepted_iff_policy(req.new_password@);
    }
}

/// A request without a session, with two different new passwords, or with a
/// new password that breaks the policy is answered at once, with no
/// directory operation, and is never answered with success.
pub proof fn lemma_refused_requests_touch_nothing(
    session_user: Option<String>,
    req: ChangePasswordRequest,
    s1: ChangePasswordState,
    a1: ChangePasswordAction,
)
    requires
        change_password_next(
            ChangePasswordState::Start,
            ChangePasswordEvent::Received { session_user, request: req },
            s1,
            a1,
        ),
        session_user is None || req.new_password@ != req.confirm_password@ || !meets_policy(
            req.new_password@,
        ),
    ensures
        s1 == ChangePasswordState::Finished,
        a1 matches ChangePasswordAction::Respond(r) && r.status != STATUS_OK,
{
    crate::password::lemma_accepted_iff_policy(req.new_password@);
}


/// A logout clears the session before it answers; a password change whose
/// session then holds no user is answered 401 "No active session", with no
/// directory operation, whatever the request.
pub proof fn lemma_change_after_logout_is_unauthorized(
    l1: LogoutState,
    la1: LogoutAction,
    req: ChangePasswordRequest,
    s1: ChangePasswordState,
    a1: ChangePasswordAction,
)
    requires
        logout_next(LogoutState::Start, LogoutEvent::Received, l1, la1),
        change_password_next(
            ChangePasswordState::Start,
            ChangePasswordEvent::Received { session_user: None, request: req },
            s1,
            a1,
        ),
    ensures
        la1 == LogoutAction::ClearSession,
        s1 == ChangePasswordState::Finished,
        a1 matches ChangePasswordAction::Respond(r) && is_error_reply(
            r,
            STATUS_UNAUTHORIZED,
            "No active session"@,
        ),
{
}

} // verus!
