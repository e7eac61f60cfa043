use clavis::encoding::{nt_password_value, unicode_pwd_value};
use clavis::ldap::{
    test_connection,
    authenticate_user, change_user_password, connection_url,
    directory_settings, mail_filter, start_authentication, start_password_change, user_filter,
    AbortReason, AuthenticationState, DirectoryAction, DirectoryEntry, DirectoryEvent,
    DirectorySettings, MailOutcome, PasswordChangeState,
};

fn some(s: &str) -> Option<String> {
    Some(s.to_string())
}

fn settings(with_service: bool) -> DirectorySettings {
    directory_settings(
        some("ldap://dc.example.com"),
        some("dc=example,dc=com"),
        if with_service { some("cn=svc,dc=example,dc=com") } else { None },
        some("svcpw"),
    )
    .unwrap()
}

fn entry(dn: &str, mail: Option<Vec<&str>>) -> DirectoryEntry {
    DirectoryEntry {
        dn: dn.to_string(),
        mail: mail.map(|v| v.into_iter().map(|s| s.to_string()).collect()),
    }
}

fn finish_error(a: DirectoryAction) -> String {
    match a {
        DirectoryAction::Finish(Err(e)) => e,
        other => panic!("{:?}", other),
    }
}

#[test]
fn settings_need_url_then_base_dn() {
    assert_eq!(
        directory_settings(None, None, None, None).err(),
        Some("LDAP_URL not set".to_string())
    );
    assert_eq!(
        directory_settings(some("ldap://x"), None, some("u"), some("p")).err(),
        Some("LDAP_BASE_DN not set".to_string())
    );
    let s = directory_settings(some("ldap://x"), some("dc=x"), some("u"), None).unwrap();
    assert_eq!(s.url, "ldap://x");
    assert_eq!(s.base_dn, "dc=x");
    assert!(s.service_account.is_none());
    let s = directory_settings(some("ldap://x"), some("dc=x"), some("u"), some("p")).unwrap();
    let acct = s.service_account.unwrap();
    assert_eq!(acct.user, "u");
    assert_eq!(acct.password, "p");
}

#[test]
fn connection_probe_messages() {
    assert_eq!(connection_url(None), Err("LDAP_URL not set".to_string()));
    assert_eq!(connection_url(some("ldap://x")), Ok("ldap://x".to_string()));
    assert_eq!(test_connection(Ok(())), Ok("Connected to LDAP server".to_string()));
    assert_eq!(test_connection(Err("refused".to_string())), Err("LDAP Error: refused".to_string()));
}

#[test]
fn search_filters() {
    assert_eq!(user_filter("alice"), "(&(objectClass=user)(sAMAccountName=alice))");
    assert_eq!(
        mail_filter("CN=Alice,DC=example,DC=com"),
        "(&(objectClass=user)(distinguishedName=CN=Alice,DC=example,DC=com))"
    );
}

#[test]
fn authentication_with_service_account() {
    let (s, a) = start_authentication(settings(true), "alice".to_string(), "pw".to_string());
    match a {
        DirectoryAction::Connect { url, starttls, verify_certificate } => {
            assert_eq!(url, "ldap://dc.example.com");
            assert!(starttls);
            assert!(!verify_certificate);
        }
        other => panic!("{:?}", other),
    }
    let (s, a) = authenticate_user(s, DirectoryEvent::Connected(Ok(())));
    match a {
        DirectoryAction::Bind { dn, password } => {
            assert_eq!(dn, "cn=svc,dc=example,dc=com");
            assert_eq!(password, "svcpw");
        }
        other => panic!("{:?}", other),
    }
    // The result code of the service bind is not checked.
    let (s, a) = authenticate_user(s, DirectoryEvent::Bound(Ok(49)));
    match a {
        DirectoryAction::Search { base, filter, attribute } => {
            assert_eq!(base, "dc=example,dc=com");
            assert_eq!(filter, "(&(objectClass=user)(sAMAccountName=alice))");
            assert_eq!(attribute, "distinguishedName");
        }
        other => panic!("{:?}", other),
    }
    let (s, a) = authenticate_user(
        s,
        DirectoryEvent::Searched(Ok(vec![entry("CN=Alice,DC=example,DC=com", None)])),
    );
    match a {
        DirectoryAction::Bind { dn, password } => {
            assert_eq!(dn, "CN=Alice,DC=example,DC=com");
            assert_eq!(password, "pw");
        }
        other => panic!("{:?}", other),
    }
    let (s, a) = authenticate_user(s, DirectoryEvent::Bound(Ok(0)));
    assert!(matches!(s, AuthenticationState::Finished));
    assert!(matches!(a, DirectoryAction::Finish(Ok(()))));
}

#[test]
fn authentication_without_service_account_binds_with_the_login_name() {
    let (s, _) = start_authentication(settings(false), "alice@example.com".to_string(), "pw".to_string());
    let (s, a) = authenticate_user(s, DirectoryEvent::Connected(Ok(())));
    match a {
        DirectoryAction::Bind { dn, password } => {
            assert_eq!(dn, "alice@example.com");
            assert_eq!(password, "pw");
        }
        other => panic!("{:?}", other),
    }
    let (_, a) = authenticate_user(s, DirectoryEvent::Bound(Ok(49)));
    assert_eq!(
        finish_error(a),
        "Invalid credentials or LDAP error: Invalid credentials or LDAP error"
    );
}

#[test]
fn authentication_failures_are_prefixed() {
    let (s, _) = start_authentication(settings(true), "alice".to_string(), "pw".to_string());
    let (_, a) = authenticate_user(s, DirectoryEvent::Connected(Err("timeout".to_string())));
    assert_eq!(finish_error(a), "Invalid credentials or LDAP error: timeout");

    let (s, _) = start_authentication(settings(true), "alice".to_string(), "pw".to_string());
    let (s, _) = authenticate_user(s, DirectoryEvent::Connected(Ok(())));
    let (s, _) = authenticate_user(s, DirectoryEvent::Bound(Ok(0)));
    let (_, a) = authenticate_user(s, DirectoryEvent::Searched(Ok(vec![])));
    assert_eq!(
        finish_error(a),
        "Invalid credentials or LDAP error: User alice not found or multiple matches"
    );

    let (s, _) = start_authentication(settings(true), "bob".to_string(), "pw".to_string());
    let (s, _) = authenticate_user(s, DirectoryEvent::Connected(Ok(())));
    let (s, _) = authenticate_user(s, DirectoryEvent::Bound(Ok(0)));
    let (_, a) = authenticate_user(
        s,
        DirectoryEvent::Searched(Ok(vec![entry("CN=a", None), entry("CN=b", None)])),
    );
    assert_eq!(
        finish_error(a),
        "Invalid credentials or LDAP error: User bob not found or multiple matches"
    );

    let (s, _) = start_authentication(settings(false), "alice".to_string(), "pw".to_string());
    let (s, _) = authenticate_user(s, DirectoryEvent::Connected(Ok(())));
    let (_, a) = authenticate_user(s, DirectoryEvent::Bound(Err("invalidCredentials".to_string())));
    assert_eq!(finish_error(a), "Invalid credentials or LDAP error: invalidCredentials");
}

/// Runs a password change with a service account up to the write of `unicodePwd`.
fn change_until_unicode_pwd() -> PasswordChangeState {
    let (s, a) = start_password_change(settings(true), "alice".to_string(), "Abcdef1!".to_string());
    assert!(matches!(a, DirectoryAction::Connect { .. }));
    let (s, a) = change_user_password(s, DirectoryEvent::Connected(Ok(())));
    assert!(matches!(a, DirectoryAction::Bind { .. }));
    let (s, a) = change_user_password(s, DirectoryEvent::Bound(Ok(0)));
    assert!(matches!(a, DirectoryAction::Search { .. }));
    let (s, a) = change_user_password(
        s,
        DirectoryEvent::Searched(Ok(vec![entry("CN=Alice,DC=example,DC=com", None)])),
    );
    match a {
        DirectoryAction::Modify { dn, attribute, value } => {
            assert_eq!(dn, "CN=Alice,DC=example,DC=com");
            assert_eq!(attribute, "unicodePwd");
            assert_eq!(value, unicode_pwd_value("Abcdef1!"));
        }
        other => panic!("{:?}", other),
    }
    s
}

#[test]
fn change_through_unicode_pwd_then_mail() {
    let s = change_until_unicode_pwd();
    let (s, a) = change_user_password(s, DirectoryEvent::Modified(Ok(0)));
    match a {
        DirectoryAction::Search { base, filter, attribute } => {
            assert_eq!(base, "dc=example,dc=com");
            assert_eq!(filter, "(&(objectClass=user)(distinguishedName=CN=Alice,DC=example,DC=com))");
            assert_eq!(attribute, "mail");
        }
        other => panic!("{:?}", other),
    }
    let (s, a) = change_user_password(
        s,
        DirectoryEvent::Searched(Ok(vec![entry("CN=Alice", Some(vec!["alice@example.com", "a2@example.com"]))])),
    );
    match a {
        DirectoryAction::SendEmail { to } => assert_eq!(to, "alice@example.com"),
        other => panic!("{:?}", other),
    }
    let (s, a) = change_user_password(s, DirectoryEvent::EmailSent(MailOutcome::Sent));
    assert!(matches!(s, PasswordChangeState::Finished));
    assert!(matches!(a, DirectoryAction::Finish(Ok(()))));
}

#[test]
fn change_succeeds_when_mail_is_switched_off() {
    let s = change_until_unicode_pwd();
    // A write answered with a non-zero result code still counts as done.
    let (s, _) = change_user_password(s, DirectoryEvent::Modified(Ok(53)));
    let (s, _) = change_user_password(s, DirectoryEvent::Searched(Ok(vec![entry("CN=Alice", Some(vec!["a@x"]))])));
    let (s, a) = change_user_password(s, DirectoryEvent::EmailSent(MailOutcome::Disabled));
    assert!(matches!(s, PasswordChangeState::Finished));
    assert!(matches!(a, DirectoryAction::Finish(Ok(()))));
}

#[test]
fn missing_mail_attribute_aborts() {
    let s = change_until_unicode_pwd();
    let (s, _) = change_user_password(s, DirectoryEvent::Modified(Ok(0)));
    let (_, a) = change_user_password(s, DirectoryEvent::Searched(Ok(vec![entry("CN=Alice", None)])));
    assert!(matches!(a, DirectoryAction::Abort(AbortReason::MissingMail)));

    let s = change_until_unicode_pwd();
    let (s, _) = change_user_password(s, DirectoryEvent::Modified(Ok(0)));
    let (_, a) = change_user_password(s, DirectoryEvent::Searched(Ok(vec![entry("CN=Alice", Some(vec![]))])));
    assert!(matches!(a, DirectoryAction::Abort(AbortReason::EmptyMail)));
}

#[test]
fn refused_unicode_pwd_falls_back_to_nt_hash() {
    let s = change_until_unicode_pwd();
    let (s, a) = change_user_password(s, DirectoryEvent::Modified(Err("unwillingToPerform".to_string())));
    match a {
        DirectoryAction::Modify { dn, attribute, value } => {
            assert_eq!(dn, "CN=Alice,DC=example,DC=com");
            assert_eq!(attribute, "sambaNTPassword");
            assert_eq!(value, nt_password_value("Abcdef1!"));
        }
        other => panic!("{:?}", other),
    }
    let (s, _) = change_user_password(s, DirectoryEvent::Modified(Ok(0)));
    let (s, _) = change_user_password(s, DirectoryEvent::Searched(Ok(vec![entry("CN=Alice", Some(vec!["a@x"]))])));
    let (_, a) = change_user_password(s, DirectoryEvent::EmailSent(MailOutcome::Disabled));
    assert!(matches!(a, DirectoryAction::Finish(Ok(()))));
}

#[test]
fn both_writes_refused() {
    let s = change_until_unicode_pwd();
    let (s, _) = change_user_password(s, DirectoryEvent::Modified(Err("e1".to_string())));
    let (s, a) = change_user_password(s, DirectoryEvent::Modified(Err("e2".to_string())));
    assert!(matches!(s, PasswordChangeState::Finished));
    assert_eq!(
        finish_error(a),
        "Failed to change password: Failed to change password: unicodePwd: e1, sambaNTPassword: e2"
    );
}

#[test]
fn change_without_service_account_binds_as_the_user_with_the_new_password() {
    let (s, _) = start_password_change(settings(false), "alice".to_string(), "Abcdef1!".to_string());
    let (s, a) = change_user_password(s, DirectoryEvent::Connected(Ok(())));
    match a {
        DirectoryAction::Bind { dn, password } => {
            assert_eq!(dn, "alice");
            assert_eq!(password, "Abcdef1!");
        }
        other => panic!("{:?}", other),
    }
    let (_, a) = change_user_password(s, DirectoryEvent::Bound(Ok(49)));
    match a {
        DirectoryAction::Modify { dn, attribute, .. } => {
            assert_eq!(dn, "alice");
            assert_eq!(attribute, "unicodePwd");
        }
        other => panic!("{:?}", other),
    }
}

#[test]
fn change_failures_are_prefixed() {
    let (s, _) = start_password_change(settings(true), "alice".to_string(), "Abcdef1!".to_string());
    let (_, a) = change_user_password(s, DirectoryEvent::Connected(Err("down".to_string())));
    assert_eq!(finish_error(a), "Failed to change password: down");

    let (s, _) = start_password_change(settings(true), "alice".to_string(), "Abcdef1!".to_string());
    let (s, _) = change_user_password(s, DirectoryEvent::Connected(Ok(())));
    let (_, a) = change_user_password(s, DirectoryEvent::Bound(Err("bad svc".to_string())));
    assert_eq!(finish_error(a), "Failed to change password: bad svc");

    let (s, _) = start_password_change(settings(true), "alice".to_string(), "Abcdef1!".to_string());
    let (s, _) = change_user_password(s, DirectoryEvent::Connected(Ok(())));
    let (s, _) = change_user_password(s, DirectoryEvent::Bound(Ok(0)));
    let (_, a) = change_user_password(s, DirectoryEvent::Searched(Ok(vec![])));
    assert_eq!(finish_error(a), "Failed to change password: User alice not found or multiple matches");

    let s = change_until_unicode_pwd();
    let (s, _) = change_user_password(s, DirectoryEvent::Modified(Ok(0)));
    let (_, a) = change_user_password(s, DirectoryEvent::Searched(Ok(vec![])));
    assert_eq!(
        finish_error(a),
        "Failed to change password: User CN=Alice,DC=example,DC=com not found or multiple matches"
    );
}
