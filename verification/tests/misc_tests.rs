use dev_cli::healthcheck::{keep_ticking, TickOutcome};
use dev_cli::terminal::{shell_step, ShellAction, ShellEvent};
use dev_cli::devfile::{start_confirmed, start_stop_patch, started_patch_document, GenerateDevfileContext};
use dev_cli::healthcheck::{activity_tick, ACTIVITY_INTERVAL_MS};
use dev_cli::level::VerboseSwapLevel;

#[test]
fn started_patch_document_replaces_the_flag() {
    assert_eq!(
        started_patch_document(true),
        "[{\"op\":\"replace\",\"path\":\"/spec/started\",\"value\":true}]"
    );
    assert_eq!(
        started_patch_document(false),
        "[{\"op\":\"replace\",\"path\":\"/spec/started\",\"value\":false}]"
    );
}

#[test]
fn start_stop_patch_parses_to_one_replace() {
    let patch = start_stop_patch(true).unwrap();
    let value = serde_json::to_value(&patch).unwrap();
    assert_eq!(
        value,
        serde_json::from_str::<serde_json::Value>(
            "[{\"op\":\"replace\",\"path\":\"/spec/started\",\"value\":true}]"
        )
        .unwrap()
    );
    let stop = serde_json::to_value(start_stop_patch(false).unwrap()).unwrap();
    assert_eq!(stop[0]["value"], serde_json::Value::Bool(false));
}

#[test]
fn answers_with_a_y_agree() {
    assert!(start_confirmed("y\n"));
    assert!(start_confirmed("Yes"));
    assert!(start_confirmed("okay"));
    assert!(!start_confirmed("no\n"));
    assert!(!start_confirmed(""));
    assert!(!start_confirmed("N"));
}

#[test]
fn generate_succeeds() {
    let ctx = GenerateDevfileContext {
        devfile_path: None,
        devfile_url: None,
        devfile_content: None,
        editor_path: None,
        editor_url: None,
        editor_content: None,
    };
    assert_eq!(ctx.generate(), Ok(()));
}

#[test]
fn activity_tick_targets_local_port() {
    let t = activity_tick(3333);
    assert_eq!(t.method, "POST");
    assert_eq!(t.uri, "/activity/tick");
    assert_eq!(t.connection, "close");
    assert_eq!(t.host, "127.0.0.1:3333");
    assert_eq!(activity_tick(0).host, "127.0.0.1:0");
    assert_eq!(activity_tick(65535).host, "127.0.0.1:65535");
    assert_eq!(activity_tick(10).host, "127.0.0.1:10");
}

#[test]
fn activity_interval_is_one_minute() {
    assert_eq!(ACTIVITY_INTERVAL_MS, 60_000);
}

#[test]
fn severities_follow_the_level_order() {
    let levels = [
        VerboseSwapLevel::TRACE,
        VerboseSwapLevel::DEBUG,
        VerboseSwapLevel::INFO,
        VerboseSwapLevel::WARN,
        VerboseSwapLevel::ERROR,
    ];
    for (i, l) in levels.iter().enumerate() {
        assert_eq!(l.severity() as usize, i);
    }
    assert!(VerboseSwapLevel::TRACE < VerboseSwapLevel::ERROR);
    assert!(VerboseSwapLevel::WARN > VerboseSwapLevel::INFO);
}

#[test]
fn only_delivered_ticks_keep_reporting() {
    assert!(keep_ticking(TickOutcome::Delivered));
    assert!(!keep_ticking(TickOutcome::PortForwardFailed));
    assert!(!keep_ticking(TickOutcome::NoStream));
    assert!(!keep_ticking(TickOutcome::HandshakeFailed));
    assert!(!keep_ticking(TickOutcome::RequestFailed));
}

#[test]
fn shell_forwards_streams_and_stops_when_one_ends() {
    assert!(shell_step(ShellEvent::LocalInput) == ShellAction::SendToRemote);
    assert!(shell_step(ShellEvent::RemoteOutput) == ShellAction::ShowLocally);
    assert!(shell_step(ShellEvent::LocalClosed) == ShellAction::Stop);
    assert!(shell_step(ShellEvent::RemoteClosed) == ShellAction::Stop);
    assert!(shell_step(ShellEvent::ResizeEnded(false)) == ShellAction::ReportResizeEnd(false));
    assert!(shell_step(ShellEvent::ResizeEnded(true)) == ShellAction::ReportResizeEnd(true));
}
