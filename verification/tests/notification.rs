use clavis::notification::{
    check_activated, parse_port, password_change_email, password_change_notification, AddressRole,
    BodyFormat, SMTPConfig,
};

#[test]
fn ports_are_read_like_u16_parse() {
    for s in ["587", "+25", "0", "65535", "00025", "65536", "", "+", "-1", "12a", " 25", "99999999999"] {
        assert_eq!(parse_port(s), s.parse::<u16>().ok(), "input {:?}", s);
    }
    assert_eq!(parse_port("587"), Some(587));
    assert_eq!(parse_port("65536"), None);
}

fn some(s: &str) -> Option<String> {
    Some(s.to_string())
}

#[test]
fn full_configuration_is_active() {
    let c = SMTPConfig::load(some("smtp.example.com"), some("587"), some("user"), some("pw"));
    assert!(c.activate);
    assert_eq!(c.host, "smtp.example.com");
    assert_eq!(c.port, 587);
    assert_eq!(c.username, "user");
    assert_eq!(c.password, "pw");
    assert_eq!(check_activated(&c), Ok(()));
}

#[test]
fn any_missing_setting_deactivates_mail() {
    let cases = [
        (None, some("587"), some("u"), some("p")),
        (some("h"), None, some("u"), some("p")),
        (some("h"), some("587"), None, some("p")),
        (some("h"), some("587"), some("u"), None),
    ];
    for (h, p, u, w) in cases {
        let c = SMTPConfig::load(h, p, u, w);
        assert!(!c.activate);
        assert_eq!(c.host, "");
        assert_eq!(c.port, 0);
        assert_eq!(c.username, "");
        assert_eq!(c.password, "");
        assert_eq!(check_activated(&c), Err("SMTP is not activated".to_string()));
    }
    // A port that is not a number does not matter when another setting is missing.
    let c = SMTPConfig::load(None, some("abc"), some("u"), some("p"));
    assert!(!c.activate);
}

#[test]
fn notification_message() {
    let n = password_change_email("from@example.com", "to@example.com").unwrap();
    let e = n.email();
    assert_eq!(e.from, "from@example.com");
    assert_eq!(e.to, "to@example.com");
    assert_eq!(e.subject, "Password Change");
    assert_eq!(e.format, BodyFormat::Html);
    assert!(e.body.contains("<h1>Password changed</h1>"));
    let text = String::from_utf8(n.message().formatted()).unwrap();
    assert!(text.contains("Subject: Password Change"));
    assert!(text.contains("From: from@example.com"));
    assert!(text.contains("To: to@example.com"));
    assert!(text.contains("text/html"));
    assert!(text.contains("Password changed"));
}

#[test]
fn invalid_addresses_are_reported_sender_first() {
    assert_eq!(password_change_email("not an address", "to@example.com").err(), Some(AddressRole::From));
    assert_eq!(password_change_email("not an address", "also bad").err(), Some(AddressRole::From));
    assert_eq!(password_change_email("from@example.com", "bad").err(), Some(AddressRole::To));
}

#[test]
fn notification_content() {
    let e = password_change_notification("a@x.org", "b@y.org");
    assert_eq!(e.from, "a@x.org");
    assert_eq!(e.to, "b@y.org");
    assert_eq!(e.subject, "Password Change");
    assert_eq!(e.format, BodyFormat::Html);
    assert_eq!(
        e.body,
        "\n\t<div style=\"width: 80%; margin: 0 auto; border: 1px solid #ccc; padding: 20px;\">\n\t<h1>Password changed</h1>\n\t<p>\n\tYou requested a password change\n\t</p>\n\t</div>\n\t"
    );
}
