use roblox_studio_bridge::bridge::{
    command_reply, BridgeState, CommandKind, CommandOutcome, CommandResult, PendingCommand,
};

fn cmd(id: &str) -> PendingCommand {
    PendingCommand { id: id.to_string(), kind: CommandKind::Snapshot {} }
}

#[test]
fn poll_gets_the_latest_command_once() {
    let mut q: BridgeState<u32> = BridgeState::new();
    assert!(q.take_pending().is_none());
    assert!(q.register(cmd("a"), 1).is_none());
    assert!(q.register(cmd("b"), 2).is_none());
    let p = q.take_pending().expect("pending command");
    assert_eq!(p.id, "b");
    assert!(q.take_pending().is_none());
}

#[test]
fn results_reach_their_caller_once() {
    let mut q: BridgeState<u32> = BridgeState::new();
    q.register(cmd("a"), 1);
    q.register(cmd("b"), 2);
    assert_eq!(q.complete(&"a".to_string()), Some(1));
    assert_eq!(q.complete(&"a".to_string()), None);
    assert_eq!(q.complete(&"zzz".to_string()), None);
    assert_eq!(q.complete(&"b".to_string()), Some(2));
}

#[test]
fn same_id_displaces_the_old_waiter() {
    let mut q: BridgeState<u32> = BridgeState::new();
    assert_eq!(q.register(cmd("a"), 1), None);
    assert_eq!(q.register(cmd("a"), 2), Some(1));
    assert_eq!(q.complete(&"a".to_string()), Some(2));
}

#[test]
fn abandoned_call_leaves_nothing() {
    let mut q: BridgeState<u32> = BridgeState::new();
    q.register(cmd("a"), 1);
    q.register(cmd("b"), 2);
    assert_eq!(q.abandon(&"a".to_string()), Some(1));
    assert!(q.take_pending().is_none());
    assert_eq!(q.complete(&"a".to_string()), None);
    assert_eq!(q.complete(&"b".to_string()), Some(2));
}

#[test]
fn online_for_fifteen_seconds_after_contact() {
    let mut q: BridgeState<u32> = BridgeState::new();
    assert!(!q.is_plugin_online());
    q.refresh_online_status_at(1000);
    assert!(!q.is_plugin_online());
    q.touch_at(1000);
    assert!(q.is_plugin_online());
    q.refresh_online_status_at(1014);
    assert!(q.is_plugin_online());
    q.refresh_online_status_at(1015);
    assert!(!q.is_plugin_online());
    q.refresh_online_status_at(900);
    assert!(q.is_plugin_online());
    q.touch();
    q.refresh_online_status();
    assert!(q.is_plugin_online());
}

#[test]
fn replies_to_the_caller() {
    let ok = command_reply(CommandOutcome::Answered(CommandResult {
        id: "a".to_string(),
        output: "done".to_string(),
        success: true,
    }));
    assert_eq!(ok, Ok("done".to_string()));
    let bad = command_reply(CommandOutcome::Answered(CommandResult {
        id: "a".to_string(),
        output: "boom".to_string(),
        success: false,
    }));
    assert_eq!(bad, Err("Studio error: boom".to_string()));
    assert_eq!(
        command_reply(CommandOutcome::ChannelClosed),
        Err("Channel closed unexpectedly".to_string())
    );
    assert_eq!(
        command_reply(CommandOutcome::TimedOut),
        Err("Timeout: Studio plugin không phản hồi trong 30s".to_string())
    );
}
