//! Desktop notifications and the arguments of the `notify-send` tool.

use crate::text::{decimal, decimal_string, owned};
use std::time::Duration;
use vstd::prelude::*;

verus! {

/// Something that can deliver a notification to the user.
pub trait Notifiable {
    fn notify(&self, notif: Notification) -> Result<(), NotifyError>;
}

/// A desktop notification.
#[derive(Clone, Debug)]
pub struct Notification {
    pub summary: String,
    pub body: Option<String>,
    pub urgency: Option<Urgency>,
    pub expire_time: Option<Duration>,
    pub app_name: Option<String>,
    /// Path of the icon, as text.
    pub icon: Option<String>,
}

impl Default for Notification {
    fn default() -> (n: Self)
        ensures
            n.summary@ == Seq::<char>::empty(),
            n.body is None,
            n.urgency is None,
            n.expire_time is None,
            n.app_name is None,
            n.icon is None,
    {
        Notification {
            summary: String::new(),
            body: None,
            urgency: None,
            expire_time: None,
            app_name: None,
            icon: None,
        }
    }
}

/// How urgent a notification is.
#[derive(Clone, Copy, Debug, PartialEq, Eq, Structural)]
pub enum Urgency {
    Low,
    Normal,
    Critical,
}

/// Why a notification could not be delivered.
#[derive(Clone, Debug, PartialEq, Eq)]
pub enum NotifyError {
    NotFound(String),
    Failed(String),
    InvalidNotification(String),
    PermissionDenied(String),
}

impl NotifyError {
    /// The message that the error shows.
    pub fn message(&self) -> (s: String)
        ensures
            s@ == match self {
                NotifyError::NotFound(m) => "Notification command not found: "@ + m@,
                NotifyError::Failed(m) => "Failed to send notification: "@ + m@,
                NotifyError::InvalidNotification(m) => "Invalid notification data: "@ + m@,
                NotifyError::PermissionDenied(m) => "Permission denied: "@ + m@,
            },
    {
        let (mut s, m) = match self {
            NotifyError::NotFound(m) => (owned("Notification command not found: "), m),
            NotifyError::Failed(m) => (owned("Failed to send notification: "), m),
            NotifyError::InvalidNotification(m) => (owned("Invalid notification data: "), m),
            NotifyError::PermissionDenied(m) => (owned("Permission denied: "), m),
        };
        s.append(m.as_str());
        s
    }
}

/// Delivers notifications through the `notify-send` command.
pub struct LinuxNotify {}

/// The word `notify-send` takes for an urgency.
pub open spec fn urgency_word(u: Urgency) -> Seq<char> {
    match u {
        Urgency::Low => "low"@,
        Urgency::Normal => "normal"@,
        Urgency::Critical => "critical"@,
    }
}

/// The command-line arguments for `n`: each option that is set, in the
/// order urgency, expiry (milliseconds), application name, icon, then the
/// summary and, last, the body if there is one.
pub open spec fn notify_send_args(n: Notification) -> Seq<Seq<char>> {
    (match n.urgency {
        Some(u) => seq!["-u"@, urgency_word(u)],
        None => Seq::empty(),
    }) + (match n.expire_time {
        Some(t) => seq!["-t"@, decimal(crate::duration::duration_millis(t) as nat)],
        None => Seq::empty(),
    }) + (match n.app_name {
        Some(a) => seq!["-a"@, a@],
        None => Seq::empty(),
    }) + (match n.icon {
        Some(i) => seq!["-i"@, i@],
        None => Seq::empty(),
    }) + seq![n.summary@] + (match n.body {
        Some(b) => seq![b@],
        None => Seq::empty(),
    })
}

impl LinuxNotify {
    pub fn new() -> (l: Self) {
        Self {}
    }

    /// The arguments that `notify-send` is run with for `notif`.
    pub fn get_args(notif: Notification) -> (args: Vec<String>)
        ensures
            args.deep_view() == notify_send_args(notif),
    {
        let ghost n = notif;
        let mut ret: Vec<String> = Vec::new();
        let ghost mut expected: Seq<Seq<char>> = Seq::empty();

        if let Some(urgency) = notif.urgency {
            ret.push(owned("-u"));
            let u = match urgency {
                Urgency::Low => "low",
                Urgency::Normal => "normal",
                Urgency::Critical => "critical",
            };
            ret.push(owned(u));
            proof { expected = expected + seq!["-u"@, urgency_word(urgency)]; }
        }
        assert(ret.deep_view() =~= expected);
        if let Some(expire_time) = notif.expire_time {
            ret.push(owned("-t"));
            let ms = crate::duration::duration_as_millis(&expire_time);
            ret.push(decimal_string(ms));
            proof { expected = expected + seq!["-t"@, decimal(ms as nat)]; }
        }
        assert(ret.deep_view() =~= expected);
        if let Some(app_name) = notif.app_name {
            ret.push(owned("-a"));
            proof { expected = expected + seq!["-a"@, app_name@]; }
            ret.push(app_name);
        }
        assert(ret.deep_view() =~= expected);
        if let Some(icon) = notif.icon {
            ret.push(owned("-i"));
            proof { expected = expected + seq!["-i"@, icon@]; }
            ret.push(icon);
        }
        assert(ret.deep_view() =~= expected);
        proof { expected = expected + seq![notif.summary@]; }
        ret.push(notif.summary);
        assert(ret.deep_view() =~= expected);
        if let Some(body) = notif.body {
            proof { expected = expected + seq![body@]; }
            ret.push(body);
        }
        assert(ret.deep_view() =~= expected);
        assert(expected =~= notify_send_args(n));
        ret
    }
}

/// Each urgency is handed over under its own word.
pub proof fn lemma_urgency_words(u1: Urgency, u2: Urgency)
    ensures
        u1 != u2 ==> urgency_word(u1) != urgency_word(u2),
{
    reveal_strlit("low");
    reveal_strlit("normal");
    reveal_strlit("critical");
    assert("low"@.len() == 3 && "normal"@.len() == 6 && "critical"@.len() == 8);
}

/// The summary is always handed over, right after the options and before
/// the body; there are two arguments per option that is set.
pub proof fn lemma_args_shape(n: Notification)
    ensures
        ({
            let args = notify_send_args(n);
            let opts = (if n.urgency is Some { 2int } else { 0 }) + (if n.expire_time is Some { 2int } else { 0 })
                + (if n.app_name is Some { 2int } else { 0 }) + (if n.icon is Some { 2int } else { 0 });
            &&& args.len() == opts + 1 + (if n.body is Some { 1int } else { 0 })
            &&& args[opts] == n.summary@
            &&& (n.body matches Some(b) ==> args.last() == b@)
        }),
{
}

} // verus!
