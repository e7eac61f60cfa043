//! The directory side: which settings are needed, which searches are made,
//! and the order of binds and modifications that authenticate a user or
//! change a user's password. Each procedure is a state machine driven by the
//! results of the directory operations it asks for.
use vstd::prelude::*;
use crate::encoding::{nt_password_bytes, nt_password_value, unicode_pwd_bytes, unicode_pwd_value};
use crate::text::{concat, concat3};

verus! {

/// A service account used to look users up before binding as them.
#[derive(Debug)]
pub struct ServiceAccount {
    pub user: String,
    pub password: String,
}

/// Where the directory is and how to search it.
#[derive(Debug)]
pub struct DirectorySettings {
    pub url: String,
    pub base_dn: String,
    pub service_account: Option<ServiceAccount>,
}

/// The settings built from the configured values (`LDAP_URL`,
/// `LDAP_BASE_DN`, `LDAP_SERVICE_USER`, `LDAP_SERVICE_PASSWORD`): the URL and
/// base DN are required, and a service account is used only when both its
/// user and password are set.
pub open spec fn settings_from(
    url: Option<String>,
    base_dn: Option<String>,
    service_user: Option<String>,
    service_password: Option<String>,
    res: Result<DirectorySettings, String>,
) -> bool {
    match (url, base_dn) {
        (None, _) => res matches Err(e) && e@ == "LDAP_URL not set"@,
        (Some(_), None) => res matches Err(e) && e@ == "LDAP_BASE_DN not set"@,
        (Some(u), Some(b)) => res matches Ok(s) && s.url == u && s.base_dn == b && match (
            service_user,
            service_password,
        ) {
            (Some(su), Some(sp)) => s.service_account == Some(
                ServiceAccount { user: su, password: sp },
            ),
            _ => s.service_account is None,
        },
    }
}

/// Builds the directory settings from the configured values.
pub fn directory_settings(
    url: Option<String>,
    base_dn: Option<String>,
    service_user: Option<String>,
    service_password: Option<String>,
) -> (res: Result<DirectorySettings, String>)
    ensures
        settings_from(url, base_dn, service_user, service_password, res),
{
    let url = match url {
        Some(u) => u,
        None => {
            return Err(String::from_str("LDAP_URL not set"));
        },
    };
    let base_dn = match base_dn {
        Some(b) => b,
        None => {
            return Err(String::from_str("LDAP_BASE_DN not set"));
        },
    };
    let service_account = match (service_user, service_password) {
        (Some(user), Some(password)) => Some(ServiceAccount { user, password }),
        _ => None,
    };
    Ok(DirectorySettings { url, base_dn, service_account })
}

/// The URL to probe, or the error when `LDAP_URL` is not configured.
pub fn connection_url(url: Option<String>) -> (res: Result<String, String>)
    ensures
        match url {
            Some(u) => res == Ok::<String, String>(u),
            None => res matches Err(e) && e@ == "LDAP_URL not set"@,
        },
{
    match url {
        Some(u) => Ok(u),
        None => Err(String::from_str("LDAP_URL not set")),
    }
}

/// What a connection test reports for the result of connecting.
pub fn test_connection(connected: Result<(), String>) -> (res: Result<String, String>)
    ensures
        match connected {
            Ok(_) => res matches Ok(m) && m@ == "Connected to LDAP server"@,
            Err(e) => res matches Err(m) && m@ == "LDAP Error: "@ + e@,
        },
{
    match connected {
        Ok(_) => Ok(String::from_str("Connected to LDAP server")),
        Err(e) => Err(concat("LDAP Error: ", e.as_str())),
    }
}

/// The filter that finds a user account by its login name.
pub open spec fn user_filter_text(username: Seq<char>) -> Seq<char> {
    "(&(objectClass=user)(sAMAccountName="@ + username + "))"@
}

/// The filter that finds a user account by its distinguished name.
pub open spec fn mail_filter_text(dn: Seq<char>) -> Seq<char> {
    "(&(objectClass=user)(distinguishedName="@ + dn + "))"@
}

/// The search filter for the account whose login name is `username`.
pub fn user_filter(username: &str) -> (res: String)
    ensures
        res@ == user_filter_text(username@),
{
    concat3("(&(objectClass=user)(sAMAccountName=", username, "))")
}

/// The search filter for the account whose distinguished name is `dn`.
pub fn mail_filter(dn: &str) -> (res: String)
    ensures
        res@ == mail_filter_text(dn@),
{
    concat3("(&(objectClass=user)(distinguishedName=", dn, "))")
}

/// The error reported when a search does not find exactly one account.
pub open spec fn not_unique_text(name: Seq<char>) -> Seq<char> {
    "User "@ + name + " not found or multiple matches"@
}

/// One search result: its distinguished name and, if returned, the values of
/// its `mail` attribute.
#[derive(Debug)]
pub struct DirectoryEntry {
    pub dn: String,
    pub mail: Option<Vec<String>>,
}

/// Why a password change stops the way an unchecked failure would.
#[derive(Debug)]
pub enum AbortReason {
    /// The account has no `mail` attribute.
    MissingMail,
    /// The account's `mail` attribute has no value.
    EmptyMail,
}

/// What became of the notification mail.
#[derive(Debug)]
pub enum MailOutcome {
    /// The mail was handed to the mail server.
    Sent,
    /// Mail is switched off (no SMTP configuration), so none was sent.
    Disabled,
}

/// A directory operation to perform, or the end of the procedure.
#[derive(Debug)]
pub enum DirectoryAction {
    /// Open a connection to `url`, upgraded with StartTLS when `starttls`
    /// is set, checking the server certificate when `verify_certificate` is.
    Connect { url: String, starttls: bool, verify_certificate: bool },
    Bind { dn: String, password: String },
    Search { base: String, filter: String, attribute: String },
    Modify { dn: String, attribute: String, value: Vec<u8> },
    SendEmail { to: String },
    Finish(Result<(), String>),
    Abort(AbortReason),
}

/// The result of the last operation. `Bound` and `Modified` carry the
/// result code the server answered with; `Searched` the entries found.
#[derive(Debug)]
pub enum DirectoryEvent {
    Connected(Result<(), String>),
    Bound(Result<u32, String>),
    Searched(Result<Vec<DirectoryEntry>, String>),
    Modified(Result<u32, String>),
    EmailSent(MailOutcome),
}

/// `action` is `Finish` with an error whose text is `text`.
pub open spec fn fails_with(action: DirectoryAction, text: Seq<char>) -> bool {
    action matches DirectoryAction::Finish(r) && r matches Err(e) && e@ == text
}

/// `action` is a search under `base` with filter `filter` for `attribute`.
pub open spec fn searches(
    action: DirectoryAction,
    base: String,
    filter: Seq<char>,
    attribute: Seq<char>,
) -> bool {
    action matches DirectoryAction::Search { base: b, filter: f, attribute: a } && b == base && f@
        == filter && a@ == attribute
}

// ----------------------------------------------------------------------------
// Authentication
// ----------------------------------------------------------------------------

/// Authentication: where the procedure stands.
#[derive(Debug)]
pub enum AuthenticationState {
    Connecting {
        base_dn: String,
        service_account: Option<ServiceAccount>,
        username: String,
        password: String,
    },
    BindingService { base_dn: String, username: String, password: String },
    FindingUser { username: String, password: String },
    BindingUser,
    Finished,
}

/// The prefix of every authentication failure.
pub open spec fn auth_failure_text(e: Seq<char>) -> Seq<char> {
    "Invalid credentials or LDAP error: "@ + e
}

/// Whether `state` is waiting for an event of the kind of `event`.
pub open spec fn authentication_expects(
    state: AuthenticationState,
    event: DirectoryEvent,
) -> bool {
    match (state, event) {
        (AuthenticationState::Connecting { .. }, DirectoryEvent::Connected(_)) => true,
        (AuthenticationState::BindingService { .. }, DirectoryEvent::Bound(_)) => true,
        (AuthenticationState::FindingUser { .. }, DirectoryEvent::Searched(_)) => true,
        (AuthenticationState::BindingUser, DirectoryEvent::Bound(_)) => true,
        _ => false,
    }
}

/// How authentication starts: connect to the configured URL with StartTLS,
/// accepting any server certificate (self-signed ones included).
pub open spec fn authentication_begins(
    settings: DirectorySettings,
    username: String,
    password: String,
    next: AuthenticationState,
    action: DirectoryAction,
) -> bool {
    &&& next == AuthenticationState::Connecting {
        base_dn: settings.base_dn,
        service_account: settings.service_account,
        username,
        password,
    }
    &&& action == DirectoryAction::Connect {
        url: settings.url,
        starttls: true,
        verify_certificate: false,
    }
}

/// One authentication step. With a service account, bind as it, look the
/// user's DN up by login name and bind as that DN with the password; without
/// one, bind with the login name itself. Success needs a bind with result
/// code 0; every failure is reported behind one prefix.
pub open spec fn authentication_next(
    state: AuthenticationState,
    event: DirectoryEvent,
    next: AuthenticationState,
    action: DirectoryAction,
) -> bool {
    match (state, event) {
        (
            AuthenticationState::Connecting { base_dn, service_account, username, password },
            DirectoryEvent::Connected(r),
        ) => match r {
            Err(e) => next == AuthenticationState::Finished && fails_with(
                action,
                auth_failure_text(e@),
            ),
            Ok(_) => match service_account {
                Some(acct) => {
                    &&& next == AuthenticationState::BindingService { base_dn, username, password }
                    &&& action == DirectoryAction::Bind { dn: acct.user, password: acct.password }
                },
                None => {
                    &&& next == AuthenticationState::BindingUser
                    &&& action == DirectoryAction::Bind { dn: username, password }
                },
            },
        },
        (
            AuthenticationState::BindingService { base_dn, username, password },
            DirectoryEvent::Bound(r),
        ) => match r {
            Err(e) => next == AuthenticationState::Finished && fails_with(
                action,
                auth_failure_text(e@),
            ),
            Ok(_) => {
                &&& next == AuthenticationState::FindingUser { username, password }
                &&& searches(action, base_dn, user_filter_text(username@), "distinguishedName"@)
            },
        },
        (AuthenticationState::FindingUser { username, password }, DirectoryEvent::Searched(r)) =>
            match r {
            Err(e) => next == AuthenticationState::Finished && fails_with(
                action,
                auth_failure_text(e@),
            ),
            Ok(entries) => if entries@.len() != 1 {
                next == AuthenticationState::Finished && fails_with(
                    action,
                    auth_failure_text(not_unique_text(username@)),
                )
            } else {
                &&& next == AuthenticationState::BindingUser
                &&& action == DirectoryAction::Bind { dn: entries@[0].dn, password }
            },
        },
        (AuthenticationState::BindingUser, DirectoryEvent::Bound(r)) => {
            &&& next == AuthenticationState::Finished
            &&& match r {
                Err(e) => fails_with(action, auth_failure_text(e@)),
                Ok(rc) => if rc == 0 {
                    action == DirectoryAction::Finish(Ok(()))
                } else {
                    fails_with(action, auth_failure_text("Invalid credentials or LDAP error"@))
                },
            }
        },
        _ => false,
    }
}

/// Starts authenticating `username` with `password`.
pub fn start_authentication(
    settings: DirectorySettings,
    username: String,
    password: String,
) -> (res: (AuthenticationState, DirectoryAction))
    ensures
        authentication_begins(settings, username, password, res.0, res.1),
{
    (
        AuthenticationState::Connecting {
            base_dn: settings.base_dn,
            service_account: settings.service_account,
            username,
            password,
        },
        DirectoryAction::Connect {
        url: settings.url,
        starttls: true,
        verify_certificate: false,
    },
    )
}

/// The failure action with text `prefix ++ e`.
fn auth_failure(e: &str) -> (res: DirectoryAction)
    ensures
        fails_with(res, auth_failure_text(e@)),
{
    DirectoryAction::Finish(Err(concat("Invalid credentials or LDAP error: ", e)))
}

/// One step of authenticating a user against the directory.
pub fn authenticate_user(state: AuthenticationState, event: DirectoryEvent) -> (res: (
    AuthenticationState,
    DirectoryAction,
))
    requires
        authentication_expects(state, event),
    ensures
        authentication_next(state, event, res.0, res.1),
{
    match state {
        AuthenticationState::Connecting { base_dn, service_account, username, password } => {
            match event {
                DirectoryEvent::Connected(Err(e)) => (
                    AuthenticationState::Finished,
                    auth_failure(e.as_str()),
                ),
                DirectoryEvent::Connected(Ok(_)) => match service_account {
                    Some(acct) => (
                        AuthenticationState::BindingService { base_dn, username, password },
                        DirectoryAction::Bind { dn: acct.user, password: acct.password },
                    ),
                    None => (
                        AuthenticationState::BindingUser,
                        DirectoryAction::Bind { dn: username, password },
                    ),
                },
                _ => {
                    proof {
                        assert(false);
                    }
                    (AuthenticationState::Finished, DirectoryAction::Finish(Ok(())))
                },
            }
        },
        AuthenticationState::BindingService { base_dn, username, password } => match event {
            DirectoryEvent::Bound(Err(e)) => (
                AuthenticationState::Finished,
                auth_failure(e.as_str()),
            ),
            DirectoryEvent::Bound(Ok(_)) => {
                let filter = user_filter(username.as_str());
                (
                    AuthenticationState::FindingUser { username, password },
                    DirectoryAction::Search {
                        base: base_dn,
                        filter,
                        attribute: String::from_str("distinguishedName"),
                    },
                )
            },
            _ => {
                proof {
                    assert(false);
                }
                (AuthenticationState::Finished, DirectoryAction::Finish(Ok(())))
            },
        },
        AuthenticationState::FindingUser { username, password } => match event {
            DirectoryEvent::Searched(Err(e)) => (
                AuthenticationState::Finished,
                auth_failure(e.as_str()),
            ),
            DirectoryEvent::Searched(Ok(entries)) => {
                if entries.len() != 1 {
                    let msg = concat3("User ", username.as_str(), " not found or multiple matches");
                    (AuthenticationState::Finished, auth_failure(msg.as_str()))
                } else {
                    let dn = entries[0].dn.clone();
                    (AuthenticationState::BindingUser, DirectoryAction::Bind { dn, password })
                }
            },
            _ => {
                proof {
                    assert(false);
                }
                (AuthenticationState::Finished, DirectoryAction::Finish(Ok(())))
            },
        },
        AuthenticationState::BindingUser => match event {
            DirectoryEvent::Bound(Err(e)) => (
                AuthenticationState::Finished,
                auth_failure(e.as_str()),
            ),
            DirectoryEvent::Bound(Ok(rc)) => {
                if rc == 0 {
                    (AuthenticationState::Finished, DirectoryAction::Finish(Ok(())))
                } else {
                    (
                        AuthenticationState::Finished,
                        auth_failure("Invalid credentials or LDAP error"),
                    )
                }
            },
            _ => {
                proof {
                    assert(false);
                }
                (AuthenticationState::Finished, DirectoryAction::Finish(Ok(())))
            },
        },
        AuthenticationState::Finished => {
            proof {
                assert(false);
            }
            (AuthenticationState::Finished, DirectoryAction::Finish(Ok(())))
        },
    }
}


// ----------------------------------------------------------------------------
// Password change
// ----------------------------------------------------------------------------

/// Password change: where the procedure stands.
#[derive(Debug)]
pub enum PasswordChangeState {
    Connecting {
        base_dn: String,
        service_account: Option<ServiceAccount>,
        username: String,
        new_password: String,
    },
    BindingService { base_dn: String, username: String, new_password: String },
    BindingSelf { base_dn: String, username: String, new_password: String },
    FindingUser { base_dn: String, username: String, new_password: String },
    SettingUnicodePwd { base_dn: String, user_dn: String, new_password: String },
    SettingNtPassword { base_dn: String, user_dn: String, first_error: String },
    FindingMail { user_dn: String },
    Notifying,
    Finished,
}

/// The prefix of every password change failure.
pub open spec fn change_failure_text(e: Seq<char>) -> Seq<char> {
    "Failed to change password: "@ + e
}

/// Whether `state` is waiting for an event of the kind of `event`.
pub open spec fn password_change_expects(
    state: PasswordChangeState,
    event: DirectoryEvent,
) -> bool {
    match (state, event) {
        (PasswordChangeState::Connecting { .. }, DirectoryEvent::Connected(_)) => true,
        (PasswordChangeState::BindingService { .. }, DirectoryEvent::Bound(_)) => true,
        (PasswordChangeState::BindingSelf { .. }, DirectoryEvent::Bound(_)) => true,
        (PasswordChangeState::FindingUser { .. }, DirectoryEvent::Searched(_)) => true,
        (PasswordChangeState::SettingUnicodePwd { .. }, DirectoryEvent::Modified(_)) => true,
        (PasswordChangeState::SettingNtPassword { .. }, DirectoryEvent::Modified(_)) => true,
        (PasswordChangeState::FindingMail { .. }, DirectoryEvent::Searched(_)) => true,
        (PasswordChangeState::Notifying { .. }, DirectoryEvent::EmailSent(_)) => true,
        _ => false,
    }
}

/// How a password change starts: connect to the configured URL with
/// StartTLS, accepting any server certificate (self-signed ones included).
pub open spec fn password_change_begins(
    settings: DirectorySettings,
    username: String,
    new_password: String,
    next: PasswordChangeState,
    action: DirectoryAction,
) -> bool {
    &&& next == PasswordChangeState::Connecting {
        base_dn: settings.base_dn,
        service_account: settings.service_account,
        username,
        new_password,
    }
    &&& action == DirectoryAction::Connect {
        url: settings.url,
        starttls: true,
        verify_certificate: false,
    }
}

/// Writing `new_password` to `user_dn` through `unicodePwd`.
pub open spec fn writes_unicode_pwd(
    base_dn: String,
    user_dn: String,
    new_password: String,
    next: PasswordChangeState,
    action: DirectoryAction,
) -> bool {
    &&& next == PasswordChangeState::SettingUnicodePwd { base_dn, user_dn, new_password }
    &&& action matches DirectoryAction::Modify { dn, attribute, value }
    &&& dn == user_dn
    &&& attribute@ == "unicodePwd"@
    &&& value@ == unicode_pwd_bytes(new_password@)
}

/// Looking up the mail address of `user_dn` after the password was written.
pub open spec fn looks_up_mail(
    base_dn: String,
    user_dn: String,
    next: PasswordChangeState,
    action: DirectoryAction,
) -> bool {
    &&& next == PasswordChangeState::FindingMail { user_dn }
    &&& searches(action, base_dn, mail_filter_text(user_dn@), "mail"@)
}

/// One password change step. With a service account, bind as it and look
/// the user's DN up by login name; without one, bind as the login name with
/// the new password and use the login name as DN. Then write `unicodePwd`
/// and, if that is refused, `sambaNTPassword` (a write the server answers
/// counts as done, whatever its result code); then look up the user's mail
/// address and send the notification there. The change succeeds whether the
/// notification was sent or mail is switched off.
pub open spec fn password_change_next(
    state: PasswordChangeState,
    event: DirectoryEvent,
    next: PasswordChangeState,
    action: DirectoryAction,
) -> bool {
    match (state, event) {
        (
            PasswordChangeState::Connecting { base_dn, service_account, username, new_password },
            DirectoryEvent::Connected(r),
        ) => match r {
            Err(e) => next == PasswordChangeState::Finished && fails_with(
                action,
                change_failure_text(e@),
            ),
            Ok(_) => match service_account {
                Some(acct) => {
                    &&& next == PasswordChangeState::BindingService {
                        base_dn,
                        username,
                        new_password,
                    }
                    &&& action == DirectoryAction::Bind { dn: acct.user, password: acct.password }
                },
                None => {
                    &&& next == PasswordChangeState::BindingSelf { base_dn, username, new_password }
                    &&& action == DirectoryAction::Bind { dn: username, password: new_password }
                },
            },
        },
        (
            PasswordChangeState::BindingService { base_dn, username, new_password },
            DirectoryEvent::Bound(r),
        ) => match r {
            Err(e) => next == PasswordChangeState::Finished && fails_with(
                action,
                change_failure_text(e@),
            ),
            Ok(_) => {
                &&& next == PasswordChangeState::FindingUser { base_dn, username, new_password }
                &&& searches(action, base_dn, user_filter_text(username@), "distinguishedName"@)
            },
        },
        (
            PasswordChangeState::BindingSelf { base_dn, username, new_password },
            DirectoryEvent::Bound(r),
        ) => match r {
            Err(e) => next == PasswordChangeState::Finished && fails_with(
                action,
                change_failure_text(e@),
            ),
            Ok(_) => writes_unicode_pwd(base_dn, username, new_password, next, action),
        },
        (
            PasswordChangeState::FindingUser { base_dn, username, new_password },
            DirectoryEvent::Searched(r),
        ) => match r {
            Err(e) => next == PasswordChangeState::Finished && fails_with(
                action,
                change_failure_text(e@),
            ),
            Ok(entries) => if entries@.len() != 1 {
                next == PasswordChangeState::Finished && fails_with(
                    action,
                    change_failure_text(not_unique_text(username@)),
                )
            } else {
                writes_unicode_pwd(base_dn, entries@[0].dn, new_password, next, action)
            },
        },
        (
            PasswordChangeState::SettingUnicodePwd { base_dn, user_dn, new_password },
            DirectoryEvent::Modified(r),
        ) => match r {
            Ok(_) => looks_up_mail(base_dn, user_dn, next, action),
            Err(e) => {
                &&& next == PasswordChangeState::SettingNtPassword {
                    base_dn,
                    user_dn,
                    first_error: e,
                }
                &&& action matches DirectoryAction::Modify { dn, attribute, value }
                &&& dn == user_dn
                &&& attribute@ == "sambaNTPassword"@
                &&& value@ == nt_password_bytes(new_password@)
            },
        },
        (
            PasswordChangeState::SettingNtPassword { base_dn, user_dn, first_error },
            DirectoryEvent::Modified(r),
        ) => match r {
            Ok(_) => looks_up_mail(base_dn, user_dn, next, action),
            Err(e) => next == PasswordChangeState::Finished && fails_with(
                action,
                change_failure_text(
                    change_failure_text(
                        "unicodePwd: "@ + first_error@ + ", sambaNTPassword: "@ + e@,
                    ),
                ),
            ),
        },
        (PasswordChangeState::FindingMail { user_dn }, DirectoryEvent::Searched(r)) =>
            match r {
            Err(e) => next == PasswordChangeState::Finished && fails_with(
                action,
                change_failure_text(e@),
            ),
            Ok(entries) => if entries@.len() != 1 {
                next == PasswordChangeState::Finished && fails_with(
                    action,
                    change_failure_text(not_unique_text(user_dn@)),
                )
            } else {
                match entries@[0].mail {
                    None => next == PasswordChangeState::Finished && action
                        == DirectoryAction::Abort(AbortReason::MissingMail),
                    Some(values) => if values@.len() == 0 {
                        next == PasswordChangeState::Finished && action == DirectoryAction::Abort(
                            AbortReason::EmptyMail,
                        )
                    } else {
                        &&& next == PasswordChangeState::Notifying
                        &&& action == DirectoryAction::SendEmail { to: values@[0] }
                    },
                }
            },
        },
        (PasswordChangeState::Notifying, DirectoryEvent::EmailSent(_)) => {
            &&& next == PasswordChangeState::Finished
            &&& action == DirectoryAction::Finish(Ok(()))
        },
        _ => false,
    }
}

/// Starts changing the password of `username` to `new_password`.
pub fn start_password_change(
    settings: DirectorySettings,
    username: String,
    new_password: String,
) -> (res: (PasswordChangeState, DirectoryAction))
    ensures
        password_change_begins(settings, username, new_password, res.0, res.1),
{
    (
        PasswordChangeState::Connecting {
            base_dn: settings.base_dn,
            service_account: settings.service_account,
            username,
            new_password,
        },
        DirectoryAction::Connect {
        url: settings.url,
        starttls: true,
        verify_certificate: false,
    },
    )
}

/// The failure action with text `"Failed to change password: " ++ e`.
fn change_failure(e: &str) -> (res: DirectoryAction)
    ensures
        fails_with(res, change_failure_text(e@)),
{
    DirectoryAction::Finish(Err(concat("Failed to change password: ", e)))
}

/// Writes `new_password` to `user_dn` through `unicodePwd`.
fn write_unicode_pwd(base_dn: String, user_dn: String, new_password: String) -> (res: (
    PasswordChangeState,
    DirectoryAction,
))
    ensures
        writes_unicode_pwd(base_dn, user_dn, new_password, res.0, res.1),
{
    let value = unicode_pwd_value(new_password.as_str());
    let dn = user_dn.clone();
    (
        PasswordChangeState::SettingUnicodePwd { base_dn, user_dn, new_password },
        DirectoryAction::Modify { dn, attribute: String::from_str("unicodePwd"), value },
    )
}

/// Looks up the mail address of `user_dn`.
fn look_up_mail(base_dn: String, user_dn: String) -> (res: (
    PasswordChangeState,
    DirectoryAction,
))
    ensures
        looks_up_mail(base_dn, user_dn, res.0, res.1),
{
    let filter = mail_filter(user_dn.as_str());
    (
        PasswordChangeState::FindingMail { user_dn },
        DirectoryAction::Search { base: base_dn, filter, attribute: String::from_str("mail") },
    )
}

/// One step of changing a user's password in the directory.
pub fn change_user_password(state: PasswordChangeState, event: DirectoryEvent) -> (res: (
    PasswordChangeState,
    DirectoryAction,
))
    requires
        password_change_expects(state, event),
    ensures
        password_change_next(state, event, res.0, res.1),
{
    match state {
        PasswordChangeState::Connecting { base_dn, service_account, username, new_password } => {
            match event {
                DirectoryEvent::Connected(Err(e)) => (
                    PasswordChangeState::Finished,
                    change_failure(e.as_str()),
                ),
                DirectoryEvent::Connected(Ok(_)) => match service_account {
                    Some(acct) => (
                        PasswordChangeState::BindingService { base_dn, username, new_password },
                        DirectoryAction::Bind { dn: acct.user, password: acct.password },
                    ),
                    None => {
                        let dn = username.clone();
                        let password = new_password.clone();
                        (
                            PasswordChangeState::BindingSelf { base_dn, username, new_password },
                            DirectoryAction::Bind { dn, password },
                        )
                    },
                },
                _ => {
                    proof {
                        assert(false);
                    }
                    (PasswordChangeState::Finished, DirectoryAction::Finish(Ok(())))
                },
            }
        },
        PasswordChangeState::BindingService { base_dn, username, new_password } => match event {
            DirectoryEvent::Bound(Err(e)) => (
                PasswordChangeState::Finished,
                change_failure(e.as_str()),
            ),
            DirectoryEvent::Bound(Ok(_)) => {
                let filter = user_filter(username.as_str());
                let base = base_dn.clone();
                (
                    PasswordChangeState::FindingUser { base_dn, username, new_password },
                    DirectoryAction::Search {
                        base,
                        filter,
                        attribute: String::from_str("distinguishedName"),
                    },
                )
            },
            _ => {
                proof {
                    assert(false);
                }
                (PasswordChangeState::Finished, DirectoryAction::Finish(Ok(())))
            },
        },
        PasswordChangeState::BindingSelf { base_dn, username, new_password } => match event {
            DirectoryEvent::Bound(Err(e)) => (
                PasswordChangeState::Finished,
                change_failure(e.as_str()),
            ),
            DirectoryEvent::Bound(Ok(_)) => write_unicode_pwd(base_dn, username, new_password),
            _ => {
                proof {
                    assert(false);
                }
                (PasswordChangeState::Finished, DirectoryAction::Finish(Ok(())))
            },
        },
        PasswordChangeState::FindingUser { base_dn, username, new_password } => match event {
            DirectoryEvent::Searched(Err(e)) => (
                PasswordChangeState::Finished,
                change_failure(e.as_str()),
            ),
            DirectoryEvent::Searched(Ok(entries)) => {
                if entries.len() != 1 {
                    let msg = concat3("User ", username.as_str(), " not found or multiple matches");
                    (PasswordChangeState::Finished, change_failure(msg.as_str()))
                } else {
                    let dn = entries[0].dn.clone();
                    write_unicode_pwd(base_dn, dn, new_password)
                }
            },
            _ => {
                proof {
                    assert(false);
                }
                (PasswordChangeState::Finished, DirectoryAction::Finish(Ok(())))
            },
        },
        PasswordChangeState::SettingUnicodePwd { base_dn, user_dn, new_password } => match event {
            DirectoryEvent::Modified(Ok(_)) => look_up_mail(base_dn, user_dn),
            DirectoryEvent::Modified(Err(e)) => {
                let value = nt_password_value(new_password.as_str());
                let dn = user_dn.clone();
                (
                    PasswordChangeState::SettingNtPassword { base_dn, user_dn, first_error: e },
                    DirectoryAction::Modify {
                        dn,
                        attribute: String::from_str("sambaNTPassword"),
                        value,
                    },
                )
            },
            _ => {
                proof {
                    assert(false);
                }
                (PasswordChangeState::Finished, DirectoryAction::Finish(Ok(())))
            },
        },
        PasswordChangeState::SettingNtPassword { base_dn, user_dn, first_error } => match event {
            DirectoryEvent::Modified(Ok(_)) => look_up_mail(base_dn, user_dn),
            DirectoryEvent::Modified(Err(e)) => {
                let detail = concat(
                    concat3("unicodePwd: ", first_error.as_str(), ", sambaNTPassword: ").as_str(),
                    e.as_str(),
                );
                let inner = concat("Failed to change password: ", detail.as_str());
                (PasswordChangeState::Finished, change_failure(inner.as_str()))
            },
            _ => {
                proof {
                    assert(false);
                }
                (PasswordChangeState::Finished, DirectoryAction::Finish(Ok(())))
            },
        },
        PasswordChangeState::FindingMail { user_dn } => match event {
            DirectoryEvent::Searched(Err(e)) => (
                PasswordChangeState::Finished,
                change_failure(e.as_str()),
            ),
            DirectoryEvent::Searched(Ok(entries)) => {
                if entries.len() != 1 {
                    let msg = concat3("User ", user_dn.as_str(), " not found or multiple matches");
                    (PasswordChangeState::Finished, change_failure(msg.as_str()))
                } else {
                    match &entries[0].mail {
                        None => (
                            PasswordChangeState::Finished,
                            DirectoryAction::Abort(AbortReason::MissingMail),
                        ),
                        Some(values) => {
                            if values.len() == 0 {
                                (
                                    PasswordChangeState::Finished,
                                    DirectoryAction::Abort(AbortReason::EmptyMail),
                                )
                            } else {
                                let to = values[0].clone();
                                (
                                    PasswordChangeState::Notifying,
                                    DirectoryAction::SendEmail { to },
                                )
                            }
                        },
                    }
                }
            },
            _ => {
                proof {
                    assert(false);
                }
                (PasswordChangeState::Finished, DirectoryAction::Finish(Ok(())))
            },
        },
        PasswordChangeState::Notifying => match event {
            DirectoryEvent::EmailSent(_) => (
                PasswordChangeState::Finished,
                DirectoryAction::Finish(Ok(())),
            ),
            _ => {
                proof {
                    assert(false);
                }
                (PasswordChangeState::Finished, DirectoryAction::Finish(Ok(())))
            },
        },
        PasswordChangeState::Finished => {
            proof {
                assert(false);
            }
            (PasswordChangeState::Finished, DirectoryAction::Finish(Ok(())))
        },
    }
}


// ----------------------------------------------------------------------------
// What the procedures keep
// ----------------------------------------------------------------------------

/// The user's password that an authentication still holds, if any.
pub open spec fn held_password(state: AuthenticationState) -> Option<String> {
    match state {
        AuthenticationState::Connecting { password, .. } => Some(password),
        AuthenticationState::BindingService { password, .. } => Some(password),
        AuthenticationState::FindingUser { password, .. } => Some(password),
        _ => None,
    }
}

/// An authentication starts out holding the password it was given.
pub proof fn lemma_authentication_holds_given_password(
    settings: DirectorySettings,
    username: String,
    password: String,
    s0: AuthenticationState,
    a0: DirectoryAction,
)
    requires
        authentication_begins(settings, username, password, s0, a0),
    ensures
        held_password(s0) == Some(password),
{
}

/// Authentication keeps the password it holds, binds as the user with
/// exactly that password, and succeeds only when that bind returned result
/// code 0.
pub proof fn lemma_success_needs_user_bind(
    state: AuthenticationState,
    event: DirectoryEvent,
    next: AuthenticationState,
    action: DirectoryAction,
)
    requires
        authentication_next(state, event, next, action),
    ensures
        held_password(next) is Some ==> held_password(next) == held_password(state),
        next == AuthenticationState::BindingUser ==> (action matches DirectoryAction::Bind {
            password: p,
            ..
        } && held_password(state) == Some(p)),
        (action matches DirectoryAction::Finish(Ok(_))) ==> state == AuthenticationState::BindingUser
            && match event {
            DirectoryEvent::Bound(Ok(rc)) => rc == 0,
            _ => false,
        },
{
}

/// The new password that a password change still holds, if any.
pub open spec fn pending_password(state: PasswordChangeState) -> Option<String> {
    match state {
        PasswordChangeState::Connecting { new_password, .. } => Some(new_password),
        PasswordChangeState::BindingService { new_password, .. } => Some(new_password),
        PasswordChangeState::BindingSelf { new_password, .. } => Some(new_password),
        PasswordChangeState::FindingUser { new_password, .. } => Some(new_password),
        PasswordChangeState::SettingUnicodePwd { new_password, .. } => Some(new_password),
        _ => None,
    }
}

/// A password change starts out holding the new password it was given.
pub proof fn lemma_change_holds_given_password(
    settings: DirectorySettings,
    username: String,
    new_password: String,
    s0: PasswordChangeState,
    a0: DirectoryAction,
)
    requires
        password_change_begins(settings, username, new_password, s0, a0),
    ensures
        pending_password(s0) == Some(new_password),
{
}

/// A password change keeps the new password it holds and writes nothing
/// else: first its `unicodePwd` encoding, and its `sambaNTPassword` encoding
/// only once `unicodePwd` was refused. It reports success only after a
/// write was accepted and the notification was handled, sent or skipped
/// because mail is switched off.
pub proof fn lemma_only_the_new_password_is_written(
    state: PasswordChangeState,
    event: DirectoryEvent,
    next: PasswordChangeState,
    action: DirectoryAction,
)
    requires
        password_change_next(state, event, next, action),
    ensures
        pending_password(next) is Some ==> pending_password(next) == pending_password(state),
        action is Modify ==> pending_password(state) is Some,
        match action {
            DirectoryAction::Modify { attribute, value, .. } => {
                let p = pending_password(state)->0;
                ||| attribute@ == "unicodePwd"@ && value@ == unicode_pwd_bytes(p@)
                ||| attribute@ == "sambaNTPassword"@ && value@ == nt_password_bytes(p@)
                    && state is SettingUnicodePwd && event matches DirectoryEvent::Modified(
                    Err(_),
                )
            },
            _ => true,
        },
        (action matches DirectoryAction::Finish(Ok(_))) ==> (state is Notifying
            && event is EmailSent),
{
}


/// Once the directory has taken the new password and the user's mail entry
/// is found, the change succeeds, also when mail is switched off and no
/// notification is sent.
pub proof fn lemma_written_password_succeeds_without_mail(
    state: PasswordChangeState,
    rc: u32,
    s1: PasswordChangeState,
    a1: DirectoryAction,
    entries: Vec<DirectoryEntry>,
    s2: PasswordChangeState,
    a2: DirectoryAction,
    outcome: MailOutcome,
    s3: PasswordChangeState,
    a3: DirectoryAction,
)
    requires
        state is SettingUnicodePwd || state is SettingNtPassword,
        password_change_next(state, DirectoryEvent::Modified(Ok(rc)), s1, a1),
        entries@.len() == 1,
        entries@[0].mail matches Some(values) && values@.len() > 0,
        password_change_next(s1, DirectoryEvent::Searched(Ok(entries)), s2, a2),
        password_change_next(s2, DirectoryEvent::EmailSent(outcome), s3, a3),
    ensures
        a3 == DirectoryAction::Finish(Ok(())),
        s3 == PasswordChangeState::Finished,
{
}


/// The user search filter holds the whole login name, whatever its length,
/// after the 36 characters of `(&(objectClass=user)(sAMAccountName=` and
/// before the closing `))`; so different login names give different filters.
pub proof fn lemma_user_filter_holds_whole_name(u: Seq<char>, v: Seq<char>)
    ensures
        user_filter_text(u).len() == u.len() + 38,
        user_filter_text(u).subrange(36, 36 + u.len() as int) == u,
        user_filter_text(u) == user_filter_text(v) ==> u == v,
{
    reveal_strlit("(&(objectClass=user)(sAMAccountName=");
    reveal_strlit("))");
    let f = user_filter_text(u);
    assert(f.subrange(36, 36 + u.len() as int) =~= u);
    let g = user_filter_text(v);
    assert(g.subrange(36, 36 + v.len() as int) =~= v);
}

/// The mail lookup filter holds the whole distinguished name, whatever its
/// length, after the 39 characters of `(&(objectClass=user)(distinguishedName=`
/// and before the closing `))`; so different names give different filters.
pub proof fn lemma_mail_filter_holds_whole_dn(d: Seq<char>, e: Seq<char>)
    ensures
        mail_filter_text(d).len() == d.len() + 41,
        mail_filter_text(d).subrange(39, 39 + d.len() as int) == d,
        mail_filter_text(d) == mail_filter_text(e) ==> d == e,
{
    reveal_strlit("(&(objectClass=user)(distinguishedName=");
    reveal_strlit("))");
    let f = mail_filter_text(d);
    assert(f.subrange(39, 39 + d.len() as int) =~= d);
    let g = mail_filter_text(e);
    assert(g.subrange(39, 39 + e.len() as int) =~= e);
}


/// The directory URL is required first, then the base DN; a service
/// account is used exactly when both its user and its password are given,
/// and every given value is used unchanged.
pub proof fn lemma_settings_rules(
    url: Option<String>,
    base_dn: Option<String>,
    service_user: Option<String>,
    service_password: Option<String>,
    res: Result<DirectorySettings, String>,
)
    requires
        settings_from(url, base_dn, service_user, service_password, res),
    ensures
        url is None ==> (res matches Err(e) && e@ == "LDAP_URL not set"@),
        url is Some && base_dn is None ==> (res matches Err(e) && e@ == "LDAP_BASE_DN not set"@),
        url is Some && base_dn is Some ==> res is Ok,
        res is Ok ==> {
            let st = res->Ok_0;
            &&& url == Some(st.url)
            &&& base_dn == Some(st.base_dn)
            &&& (st.service_account is Some <==> (service_user is Some && service_password
                is Some))
            &&& st.service_account is Some ==> (service_user == Some(st.service_account->0.user)
                && service_password == Some(st.service_account->0.password))
        },
{
}

/// Looking a user up succeeds only with exactly one entry, and the entry's
/// DN is the one used next: bound with the user's password when
/// authenticating, written to when changing the password. With no entry or
/// several, the procedure fails.
pub proof fn lemma_user_lookup_needs_one_entry(
    a_state: AuthenticationState,
    c_state: PasswordChangeState,
    entries: Vec<DirectoryEntry>,
    a_next: AuthenticationState,
    a_action: DirectoryAction,
    c_next: PasswordChangeState,
    c_action: DirectoryAction,
)
    requires
        (a_state is FindingUser),
        (c_state is FindingUser),
        authentication_next(a_state, DirectoryEvent::Searched(Ok(entries)), a_next, a_action),
        password_change_next(c_state, DirectoryEvent::Searched(Ok(entries)), c_next, c_action),
    ensures
        entries@.len() != 1 ==> (a_action matches DirectoryAction::Finish(r) && r is Err),
        entries@.len() != 1 ==> (c_action matches DirectoryAction::Finish(r) && r is Err),
        entries@.len() == 1 ==> a_action == (DirectoryAction::Bind {
            dn: entries@[0].dn,
            password: held_password(a_state)->0,
        }),
        entries@.len() == 1 ==> (c_action matches DirectoryAction::Modify { dn, .. } && dn
            == entries@[0].dn),
{
}

/// The notification goes to the first `mail` value of the one entry found.
pub proof fn lemma_notification_goes_to_first_mail(
    state: PasswordChangeState,
    entries: Vec<DirectoryEntry>,
    values: Vec<String>,
    next: PasswordChangeState,
    action: DirectoryAction,
)
    requires
        (state is FindingMail),
        entries@.len() == 1,
        entries@[0].mail == Some(values),
        values@.len() > 0,
        password_change_next(state, DirectoryEvent::Searched(Ok(entries)), next, action),
    ensures
        action == (DirectoryAction::SendEmail { to: values@[0] }),
{
}

} // verus!
