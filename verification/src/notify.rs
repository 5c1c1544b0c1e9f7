//! The notifier's side of a trigger: whether a mail is owed, to whom, and
//! under which subject. Building the body and talking to the mail server are
//! the caller's part.

use vstd::prelude::*;
use vstd::string::*;
use crate::config::EmailConfig;
use crate::models::{Alert, AlertCondition};

verus! {

/// Seconds the mail server is given to answer.
pub const SMTP_TIMEOUT_SECS: u64 = 30;

/// How the connection to the mail server is secured.
#[derive(Clone, Copy, Debug, PartialEq, Eq, Structural)]
pub enum SmtpSecurity {
    /// Plain connection, upgraded by STARTTLS.
    StartTls,
    /// TLS from the first byte.
    ImplicitTls,
}

/// A mail that is to be sent, but for its body.
#[derive(Debug)]
pub struct Envelope {
    /// The sender, as `name <address>`.
    pub from: String,
    pub to: String,
    pub subject: String,
}

/// Why no mail can be sent.
#[derive(Clone, Copy, Debug, PartialEq, Eq, Structural)]
pub enum NotifyError {
    /// Mail is switched off in the settings.
    Disabled,
}

/// The notifier: the mail settings, and what follows from them.
#[derive(Debug)]
pub struct EmailNotifier {
    pub config: EmailConfig,
}

/// The sender of every mail: the configured name, then the address in angle
/// brackets.
pub open spec fn sender_of(config: EmailConfig) -> Seq<char> {
    config.from_name@ + " <"@ + config.from_email@ + ">"@
}

/// The recipient of the notification for `alert`: the address the alert
/// names, or the configured one where it names none.
pub open spec fn recipient_of(config: EmailConfig, alert: Alert) -> Seq<char> {
    match alert.notification_email {
        Some(address) => address@,
        None => config.to_email@,
    }
}

impl AlertCondition {
    /// The words for a trigger on this condition.
    pub fn notice_label(&self) -> (s: &'static str)
        ensures
            s@ == match *self {
                AlertCondition::Above => "突破上限"@,
                AlertCondition::Below => "跌破下限"@,
            },
    {
        match self {
            AlertCondition::Above => "突破上限",
            AlertCondition::Below => "跌破下限",
        }
    }
}

impl EmailNotifier {
    /// A notifier with these settings.
    pub fn new(config: EmailConfig) -> (notifier: EmailNotifier)
        ensures
            notifier.config == config,
    {
        EmailNotifier { config }
    }

    /// How to secure the connection: STARTTLS on port 587, TLS from the start
    /// on every other port.
    pub fn security(&self) -> (s: SmtpSecurity)
        ensures
            s == if self.config.smtp_port == 587 {
                SmtpSecurity::StartTls
            } else {
                SmtpSecurity::ImplicitTls
            },
    {
        if self.config.smtp_port == 587 {
            SmtpSecurity::StartTls
        } else {
            SmtpSecurity::ImplicitTls
        }
    }

    /// The sender of every mail.
    pub fn sender(&self) -> (s: String)
        ensures
            s@ == sender_of(self.config),
    {
        self.config.from_name.clone().concat(" <").concat(self.config.from_email.as_str()).concat(
            ">",
        )
    }

    /// The mail that the trigger of `alert` owes its owner, if any: none where
    /// mail is switched off; else one to the address the alert names, or to
    /// the configured recipient, with the symbol in the subject.
    pub fn send_alert_notification(&self, alert: &Alert) -> (r: Option<Envelope>)
        ensures
            !self.config.enabled ==> r is None,
            self.config.enabled ==> (r matches Some(mail) && mail.from@ == sender_of(self.config)
                && mail.to@ == recipient_of(self.config, *alert) && mail.subject@
                == "交易预警触发 - "@ + alert.symbol@),
    {
        if !self.config.enabled {
            return None;
        }
        let to = match &alert.notification_email {
            Some(address) => address.clone(),
            None => self.config.to_email.clone(),
        };
        Some(
            Envelope {
                from: self.sender(),
                to,
                subject: String::from_str("交易预警触发 - ").concat(alert.symbol.as_str()),
            },
        )
    }

    /// The test mail: refused where mail is switched off; else one to the
    /// configured recipient.
    pub fn send_test_email(&self) -> (r: Result<Envelope, NotifyError>)
        ensures
            !self.config.enabled ==> r == Err::<Envelope, NotifyError>(NotifyError::Disabled),
            self.config.enabled ==> (r matches Ok(mail) && mail.from@ == sender_of(self.config)
                && mail.to@ == self.config.to_email@ && mail.subject@ == "交易预警系统 - 测试邮件"@),
    {
        if !self.config.enabled {
            return Err(NotifyError::Disabled);
        }
        Ok(
            Envelope {
                from: self.sender(),
                to: self.config.to_email.clone(),
                subject: String::from_str("交易预警系统 - 测试邮件"),
            },
        )
    }
}

} // verus!
