use vigilance::notify::{LinuxNotify, Notification, NotifyError, Urgency};
use std::time::Duration;

#[test]
fn args_summary_only() {
    let n = Notification { summary: "Hi".to_string(), ..Default::default() };
    assert_eq!(LinuxNotify::get_args(n), vec!["Hi".to_string()]);
}

#[test]
fn args_all_options_in_order() {
    let n = Notification {
        summary: "Sum".to_string(),
        body: Some("Body".to_string()),
        urgency: Some(Urgency::Critical),
        expire_time: Some(Duration::from_millis(1500)),
        app_name: Some("vigilance".to_string()),
        icon: Some("/tmp/icon.png".to_string()),
    };
    assert_eq!(
        LinuxNotify::get_args(n),
        vec!["-u", "critical", "-t", "1500", "-a", "vigilance", "-i", "/tmp/icon.png", "Sum", "Body"]
    );
}

#[test]
fn args_urgency_words_and_expiry() {
    for (u, w) in [(Urgency::Low, "low"), (Urgency::Normal, "normal"), (Urgency::Critical, "critical")] {
        let n = Notification { summary: "s".to_string(), urgency: Some(u), ..Default::default() };
        assert_eq!(LinuxNotify::get_args(n), vec!["-u", w, "s"]);
    }
    let n = Notification { summary: "s".to_string(), expire_time: Some(Duration::from_secs(5)), ..Default::default() };
    assert_eq!(LinuxNotify::get_args(n), vec!["-t", "5000", "s"]);
    let n = Notification { summary: "s".to_string(), expire_time: Some(Duration::ZERO), body: Some("b".to_string()), ..Default::default() };
    assert_eq!(LinuxNotify::get_args(n), vec!["-t", "0", "s", "b"]);
}

#[test]
fn default_notification_is_empty() {
    let n = Notification::default();
    assert_eq!(n.summary, "");
    assert!(n.body.is_none() && n.urgency.is_none() && n.expire_time.is_none());
    assert!(n.app_name.is_none() && n.icon.is_none());
    let _ = LinuxNotify::new();
}

#[test]
fn notify_error_messages() {
    assert_eq!(NotifyError::NotFound("x".to_string()).message(), "Notification command not found: x");
    assert_eq!(NotifyError::Failed("y".to_string()).message(), "Failed to send notification: y");
    assert_eq!(NotifyError::InvalidNotification("z".to_string()).message(), "Invalid notification data: z");
    assert_eq!(NotifyError::PermissionDenied("w".to_string()).message(), "Permission denied: w");
}
