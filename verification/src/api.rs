//! The request and reply values exchanged with the web front end, without
//! any transport: a reply is a status code and one of three JSON bodies.
use vstd::prelude::*;

verus! {

/// `POST /api/auth/login` body.
#[derive(Debug)]
pub struct LoginRequest {
    pub username: String,
    pub password: String,
}

/// Successful login or logout reply body.
#[derive(Debug)]
pub struct LoginResponse {
    pub success: bool,
    pub message: String,
}

/// Body of every refused or failed request.
#[derive(Debug)]
pub struct ErrorResponse {
    pub success: bool,
    pub error: String,
}

/// `POST /api/auth/change-password` body.
#[derive(Debug)]
pub struct ChangePasswordRequest {
    pub current_password: String,
    pub new_password: String,
    pub confirm_password: String,
}

/// Successful password change reply body.
#[derive(Debug)]
pub struct ChangePasswordResponse {
    pub success: bool,
    pub message: String,
}

/// The JSON body of a reply.
#[derive(Debug)]
pub enum ReplyBody {
    Login(LoginResponse),
    Error(ErrorResponse),
    ChangePassword(ChangePasswordResponse),
}

/// An HTTP reply: status code and body.
#[derive(Debug)]
pub struct Reply {
    pub status: u16,
    pub body: ReplyBody,
}

pub const STATUS_OK: u16 = 200;

pub const STATUS_BAD_REQUEST: u16 = 400;

pub const STATUS_UNAUTHORIZED: u16 = 401;

pub const STATUS_INTERNAL_SERVER_ERROR: u16 = 500;

/// `r` is an error reply with status `status` and text `text`.
pub open spec fn is_error_reply(r: Reply, status: u16, text: Seq<char>) -> bool {
    &&& r.status == status
    &&& r.body matches ReplyBody::Error(e) && !e.success && e.error@ == text
}

/// `r` is a successful login/logout reply with the message `text`.
pub open spec fn is_login_reply(r: Reply, text: Seq<char>) -> bool {
    &&& r.status == STATUS_OK
    &&& r.body matches ReplyBody::Login(b) && b.success && b.message@ == text
}

/// `r` is a successful password change reply with the message `text`.
pub open spec fn is_change_reply(r: Reply, text: Seq<char>) -> bool {
    &&& r.status == STATUS_OK
    &&& r.body matches ReplyBody::ChangePassword(b) && b.success && b.message@ == text
}

/// An error reply with the given status and text.
pub fn error_reply(status: u16, error: String) -> (res: Reply)
    ensures
        is_error_reply(res, status, error@),
{
    Reply { status, body: ReplyBody::Error(ErrorResponse { success: false, error }) }
}

} // verus!
