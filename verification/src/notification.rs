//! The mail notification sent after a password change: the SMTP settings,
//! when mail is sent at all, and the message itself.
use vstd::prelude::*;
use lettre::message::header::ContentType;
use lettre::message::Mailbox;
use lettre::Message;

verus! {

/// The `lettre` mailbox type: a display name and an address.
#[verifier::external_type_specification]
#[verifier::external_body]
pub struct ExMailbox(Mailbox);

/// The `lettre` e-mail message type.
#[verifier::external_type_specification]
#[verifier::external_body]
pub struct ExMessage(Message);

/// The error `lettre` reports for text that is not a mailbox.
#[verifier::external_type_specification]
#[verifier::external_body]
pub struct ExAddressError(lettre::address::AddressError);


/// SMTP settings. `activate` is false when any of them is not configured,
/// and then no mail is sent.
#[derive(Debug)]
pub struct SMTPConfig {
    pub host: String,
    pub port: u16,
    pub username: String,
    pub password: String,
    pub activate: bool,
}

/// `c` is an ASCII decimal digit.
pub open spec fn is_digit(c: char) -> bool {
    '0' <= c <= '9'
}

/// The number written in decimal by the digits `s`.
pub open spec fn decimal_value(s: Seq<char>) -> nat
    decreases s.len(),
{
    if s.len() == 0 {
        0
    } else {
        decimal_value(s.drop_last()) * 10 + (s.last() as nat - '0' as nat) as nat
    }
}

/// `s` with one leading `+` removed, if it has one.
pub open spec fn unsigned_digits(s: Seq<char>) -> Seq<char> {
    if s.len() > 0 && s[0] == '+' {
        s.drop_first()
    } else {
        s
    }
}

/// A port number as text, the way `str::parse::<u16>` reads it: an
/// optional `+`, then one or more decimal digits whose value fits in 16 bits.
pub open spec fn port_value(s: Seq<char>) -> Option<u16> {
    let d = unsigned_digits(s);
    if d.len() > 0 && (forall|i: int| 0 <= i < d.len() ==> is_digit(#[trigger] d[i]))
        && decimal_value(d) <= 65535 {
        Some(decimal_value(d) as u16)
    } else {
        None
    }
}

/// A digit string is worth at least as much as any of its prefixes.
proof fn lemma_decimal_value_prefix(d: Seq<char>, k: int)
    requires
        0 <= k <= d.len(),
        forall|i: int| 0 <= i < d.len() ==> is_digit(#[trigger] d[i]),
    ensures
        decimal_value(d.take(k)) <= decimal_value(d),
    decreases d.len(),
{
    if k < d.len() {
        let p = d.drop_last();
        assert(p.take(k) =~= d.take(k));
        assert forall|i: int| 0 <= i < p.len() implies is_digit(#[trigger] p[i]) by {
            assert(p[i] == d[i]);
        }
        lemma_decimal_value_prefix(p, k);
    } else {
        assert(d.take(k) =~= d);
    }
}

/// Reads a port number.
pub fn parse_port(s: &str) -> (res: Option<u16>)
    ensures
        res == port_value(s@),
{
    let chars = crate::text::chars_of(s);
    let n = chars.len();
    let start: usize = if n > 0 && chars[0] == '+' {
        1
    } else {
        0
    };
    let ghost d = unsigned_digits(s@);
    assert(d =~= chars@.subrange(start as int, n as int));
    if start == n {
        return None;
    }
    let mut value: u32 = 0;
    let mut i: usize = start;
    while i < n
        invariant
            chars@ == s@,
            n == chars@.len(),
            start <= i <= n,
            start < n,
            d == unsigned_digits(s@),
            d =~= chars@.subrange(start as int, n as int),
            forall|j: int| 0 <= j < i - start ==> is_digit(#[trigger] d[j]),
            value == decimal_value(d.take(i - start)),
            value <= 65535,
        decreases n - i,
    {
        let c = chars[i];
        if !('0' <= c && c <= '9') {
            assert(!is_digit(d[i - start]));
            return None;
        }
        let digit = (c as u32) - ('0' as u32);
        proof {
            assert(d.take(i - start + 1).drop_last() =~= d.take(i - start));
            assert(d.take(i - start + 1).last() == c);
        }
        value = value * 10 + digit;
        i = i + 1;
        if value > 65535 {
            proof {
                if forall|j: int| 0 <= j < d.len() ==> is_digit(#[trigger] d[j]) {
                    lemma_decimal_value_prefix(d, i - start);
                }
            }
            return None;
        }
    }
    assert(d.take(n - start) =~= d);
    Some(value as u16)
}

/// The digit that writes `d` (below ten).
pub open spec fn digit_char(d: nat) -> char {
    if d == 0 {
        '0'
    } else if d == 1 {
        '1'
    } else if d == 2 {
        '2'
    } else if d == 3 {
        '3'
    } else if d == 4 {
        '4'
    } else if d == 5 {
        '5'
    } else if d == 6 {
        '6'
    } else if d == 7 {
        '7'
    } else if d == 8 {
        '8'
    } else {
        '9'
    }
}

/// `n` written in decimal, most significant digit first, without leading zeros.
pub open spec fn decimal_digits(n: nat) -> Seq<char>
    decreases n,
{
    if n < 10 {
        seq![digit_char(n)]
    } else {
        decimal_digits(n / 10).push(digit_char(n % 10))
    }
}

proof fn lemma_digit_char_value(d: nat)
    requires
        d < 10,
    ensures
        is_digit(digit_char(d)),
        (digit_char(d) as nat - '0' as nat) as nat == d,
{
}

proof fn lemma_decimal_digits_value(n: nat)
    ensures
        decimal_digits(n).len() > 0,
        forall|i: int| 0 <= i < decimal_digits(n).len() ==> is_digit(#[trigger] decimal_digits(n)[i]),
        decimal_value(decimal_digits(n)) == n,
    decreases n,
{
    let d = decimal_digits(n);
    lemma_digit_char_value(n % 10);
    if n < 10 {
        assert(d.drop_last() =~= Seq::<char>::empty());
        assert(decimal_value(d) == decimal_value(d.drop_last()) * 10 + (d.last() as nat - '0' as nat) as nat);
    } else {
        lemma_decimal_digits_value(n / 10);
        let p = decimal_digits(n / 10);
        assert(d.drop_last() =~= p);
        assert(decimal_value(d) == decimal_value(p) * 10 + (d.last() as nat - '0' as nat) as nat);
        assert forall|i: int| 0 <= i < d.len() implies is_digit(#[trigger] d[i]) by {
            if i < p.len() {
                assert(d[i] == p[i]);
            }
        }
    }
}

/// Port numbers read back: every number up to 65535 written in decimal,
/// with or without a leading `+` or leading zeros, is read as itself, and a
/// larger number is refused. So is any text with a character that is not a
/// digit, other than one leading `+`, and a text with no digit at all.
pub proof fn lemma_port_reading(n: nat, s: Seq<char>, k: int)
    ensures
        n <= 65535 ==> port_value(decimal_digits(n)) == Some(n as u16),
        n <= 65535 ==> port_value(seq!['+'] + decimal_digits(n)) == Some(n as u16),
        n <= 65535 ==> port_value(seq!['0'] + decimal_digits(n)) == Some(n as u16),
        n > 65535 ==> port_value(decimal_digits(n)) is None,
        port_value(Seq::<char>::empty()) is None,
        port_value(seq!['+']) is None,
        0 <= k < s.len() && !is_digit(s[k]) && !(k == 0 && s[k] == '+') ==> port_value(s) is None,
{
    lemma_decimal_digits_value(n);
    let d = decimal_digits(n);
    assert(unsigned_digits(d) == d);
    assert((seq!['+'] + d).drop_first() =~= d);
    let z = seq!['0'] + d;
    assert(unsigned_digits(z) == z);
    assert forall|i: int| 0 <= i < z.len() implies is_digit(#[trigger] z[i]) by {
        if i > 0 {
            assert(z[i] == d[i - 1]);
        }
    }
    lemma_leading_zero_value(d);
    assert(seq!['+'].drop_first() =~= Seq::<char>::empty());
    if 0 <= k < s.len() && !is_digit(s[k]) && !(k == 0 && s[k] == '+') {
        let u = unsigned_digits(s);
        if s.len() > 0 && s[0] == '+' {
            assert(u[k - 1] == s[k]);
        } else {
            assert(u[k] == s[k]);
        }
    }
}

/// A leading zero does not change the value of a digit string.
proof fn lemma_leading_zero_value(d: Seq<char>)
    ensures
        decimal_value(seq!['0'] + d) == decimal_value(d),
    decreases d.len(),
{
    let z = seq!['0'] + d;
    if d.len() > 0 {
        assert(z.drop_last() =~= seq!['0'] + d.drop_last());
        assert(z.last() == d.last());
        lemma_leading_zero_value(d.drop_last());
        assert(decimal_value(z) == decimal_value(z.drop_last()) * 10 + (z.last() as nat - '0' as nat) as nat);
        assert(decimal_value(d) == decimal_value(d.drop_last()) * 10 + (d.last() as nat - '0' as nat) as nat);
    } else {
        assert(z.drop_last() =~= Seq::<char>::empty());
        assert(d =~= Seq::<char>::empty());
        assert(decimal_value(z) == decimal_value(z.drop_last()) * 10 + (z.last() as nat - '0' as nat) as nat);
        assert(decimal_value(Seq::<char>::empty()) == 0);
    }
}

/// The configuration built from the configured values (`SMTP_HOST`,
/// `SMTP_PORT`, `SMTP_USERNAME`, `SMTP_PASSWORD`).
pub open spec fn smtp_config_from(
    host: Option<String>,
    port: Option<String>,
    username: Option<String>,
    password: Option<String>,
    c: SMTPConfig,
) -> bool {
    match (host, port, username, password) {
        (Some(h), Some(p), Some(u), Some(w)) => {
            &&& c.activate
            &&& c.host == h
            &&& port_value(p@) == Some(c.port)
            &&& c.username == u
            &&& c.password == w
        },
        _ => {
            &&& !c.activate
            &&& c.host@.len() == 0
            &&& c.port == 0
            &&& c.username@.len() == 0
            &&& c.password@.len() == 0
        },
    }
}

impl SMTPConfig {
    /// The SMTP configuration for the configured values: active when all four
    /// are set, inactive and empty otherwise. A set port must be a number.
    pub fn load(
        host: Option<String>,
        port: Option<String>,
        username: Option<String>,
        password: Option<String>,
    ) -> (res: SMTPConfig)
        requires
            host is Some && username is Some && password is Some ==> match port {
                Some(p) => port_value(p@) is Some,
                None => true,
            },
        ensures
            smtp_config_from(host, port, username, password, res),
    {
        match (host, port, username, password) {
            (Some(host), Some(port), Some(username), Some(password)) => {
                let port = match parse_port(port.as_str()) {
                    Some(p) => p,
                    None => {
                        proof {
                            assert(false);
                        }
                        0
                    },
                };
                SMTPConfig { host, port, username, password, activate: true }
            },
            _ => SMTPConfig {
                host: String::new(),
                port: 0,
                username: String::new(),
                password: String::new(),
                activate: false,
            },
        }
    }
}

/// With all four SMTP settings given, mail is on and uses exactly the given
/// host, user and password, and the port the given text reads as.
pub proof fn lemma_full_settings_enable_mail(
    host: String,
    port: String,
    username: String,
    password: String,
    c: SMTPConfig,
)
    requires
        smtp_config_from(Some(host), Some(port), Some(username), Some(password), c),
    ensures
        c.activate,
        c.host == host,
        c.username == username,
        c.password == password,
        port_value(port@) == Some(c.port),
{
}

/// Whether a notification may be sent with `config`.
pub fn check_activated(config: &SMTPConfig) -> (res: Result<(), String>)
    ensures
        config.activate ==> res is Ok,
        !config.activate ==> (res matches Err(e) && e@ == "SMTP is not activated"@),
{
    if config.activate {
        Ok(())
    } else {
        Err(String::from_str("SMTP is not activated"))
    }
}

/// Mail is switched off by leaving any SMTP setting out: the configuration
/// is then inactive, and sending is refused.
pub proof fn lemma_missing_setting_disables_mail(
    host: Option<String>,
    port: Option<String>,
    username: Option<String>,
    password: Option<String>,
    c: SMTPConfig,
)
    requires
        smtp_config_from(host, port, username, password, c),
        host is None || port is None || username is None || password is None,
    ensures
        !c.activate,
{
}

/// Whether `lettre` reads `s` as a mailbox (an address, optionally with a
/// display name), as `Mailbox::from_str` decides.
pub uninterp spec fn mailbox_accepts(s: Seq<char>) -> bool;

/// `<lettre::message::Mailbox as FromStr>::from_str`: succeeds exactly when
/// the text is a mailbox, which is named `mailbox_accepts`.
#[verifier::external_body]
fn parse_mailbox(s: &str) -> (res: Result<Mailbox, lettre::address::AddressError>)
    ensures
        res is Ok <==> mailbox_accepts(s@),
{
    s.parse::<Mailbox>()
}

/// How a mail body is to be read.
#[derive(Debug, Clone, Copy, PartialEq, Eq, Structural)]
pub enum BodyFormat {
    /// HTML, UTF-8 (`text/html; charset=utf-8`).
    Html,
    /// Plain text, UTF-8 (`text/plain; charset=utf-8`).
    Plain,
}

/// A mail as plain values: sender, recipient, subject, body and its format.
#[derive(Debug)]
pub struct NotificationEmail {
    pub from: String,
    pub to: String,
    pub subject: String,
    pub body: String,
    pub format: BodyFormat,
}

/// The HTML body of the password change notification.
pub open spec fn notification_body_text() -> Seq<char> {
    "\n\t<div style=\"width: 80%; margin: 0 auto; border: 1px solid #ccc; padding: 20px;\">\n\t<h1>Password changed</h1>\n\t<p>\n\tYou requested a password change\n\t</p>\n\t</div>\n\t"@
}

/// `e` is the password change notification from `from` to `to`.
pub open spec fn is_password_change_notification(
    e: NotificationEmail,
    from: Seq<char>,
    to: Seq<char>,
) -> bool {
    &&& e.from@ == from
    &&& e.to@ == to
    &&& e.subject@ == "Password Change"@
    &&& e.body@ == notification_body_text()
    &&& e.format == BodyFormat::Html
}

/// The password change notification from `from` to `to`: subject
/// "Password Change" and a short HTML body.
pub fn password_change_notification(from: &str, to: &str) -> (res: NotificationEmail)
    ensures
        is_password_change_notification(res, from@, to@),
{
    NotificationEmail {
        from: String::from_str(from),
        to: String::from_str(to),
        subject: String::from_str("Password Change"),
        body: String::from_str(
            "\n\t<div style=\"width: 80%; margin: 0 auto; border: 1px solid #ccc; padding: 20px;\">\n\t<h1>Password changed</h1>\n\t<p>\n\tYou requested a password change\n\t</p>\n\t</div>\n\t",
        ),
        format: BodyFormat::Html,
    }
}

/// A `lettre` message together with the mail it was built from.
pub struct Notification {
    message: Message,
    email: NotificationEmail,
}

impl Notification {
    /// The mail this message was built from.
    pub closed spec fn source(&self) -> NotificationEmail {
        self.email
    }

    /// The message, ready to be sent.
    pub fn message(&self) -> &Message {
        &self.message
    }

    /// The mail this message was built from.
    pub fn email(&self) -> (res: &NotificationEmail)
        ensures
            *res == self.source(),
    {
        &self.email
    }
}

/// Builds the `lettre` message for `email` and keeps `email` beside it:
/// `Mailbox::from_str` on its sender and its recipient, then
/// `Message::builder()` with that `From` and `To`, the content type of its
/// format (`ContentType::TEXT_HTML` or `ContentType::TEXT_PLAIN`), its
/// subject, and `MessageBuilder::body` with its body. The result is `Some`
/// exactly when both addresses are mailboxes: with one `From` and one `To`
/// `lettre` always builds the message.
#[verifier::external_body]
fn build_notification(email: NotificationEmail) -> (res: Option<Notification>)
    ensures
        res is Some <==> (mailbox_accepts(email.from@) && mailbox_accepts(email.to@)),
        match res {
            Some(n) => n.source() == email,
            None => true,
        },
{
    let from = email.from.parse::<Mailbox>().ok()?;
    let to = email.to.parse::<Mailbox>().ok()?;
    let content_type = match email.format {
        BodyFormat::Html => ContentType::TEXT_HTML,
        BodyFormat::Plain => ContentType::TEXT_PLAIN,
    };
    let message = Message::builder().from(from).to(to).header(content_type).subject(
        email.subject.clone(),
    ).body(email.body.clone()).ok()?;
    Some(Notification { message, email })
}

/// Which address of a notification is not a valid mailbox.
#[derive(Debug, Clone, Copy, PartialEq, Eq, Structural)]
pub enum AddressRole {
    From,
    To,
}

/// The password change notification from `from` to `to`, built: the sender
/// is checked first, then the recipient.
pub fn password_change_email(from: &str, to: &str) -> (res: Result<Notification, AddressRole>)
    ensures
        !mailbox_accepts(from@) ==> res == Err::<Notification, AddressRole>(AddressRole::From),
        mailbox_accepts(from@) && !mailbox_accepts(to@) ==> res == Err::<
            Notification,
            AddressRole,
        >(AddressRole::To),
        mailbox_accepts(from@) && mailbox_accepts(to@) ==> match res {
            Ok(n) => is_password_change_notification(n.source(), from@, to@),
            Err(_) => false,
        },
{
    if parse_mailbox(from).is_err() {
        return Err(AddressRole::From);
    }
    if parse_mailbox(to).is_err() {
        return Err(AddressRole::To);
    }
    let email = password_change_notification(from, to);
    match build_notification(email) {
        Some(n) => Ok(n),
        None => {
            proof {
                assert(false);
            }
            Err(AddressRole::To)
        },
    }
}


/// The notification keeps the sender and the recipient as given, each in
/// its own role, with the subject "Password Change" and an HTML body.
pub proof fn lemma_notification_addresses(e: NotificationEmail, from: Seq<char>, to: Seq<char>)
    requires
        is_password_change_notification(e, from, to),
    ensures
        e.from@ == from,
        e.to@ == to,
        e.subject@ == "Password Change"@,
        e.format == BodyFormat::Html,
{
}

} // verus!
