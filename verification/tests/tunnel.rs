use roblox_studio_bridge::config::Config;
use roblox_studio_bridge::tunnel::{
    extract_tunnel_url, named_tunnel_args, quick_tunnel_args, quick_tunnel_step, scan_stderr_line,
    tunnel_plan, StderrLine, TunnelAction, TunnelEvent, TunnelPlan,
};

#[test]
fn extracts_valid_tunnel_url() {
    assert_eq!(extract_tunnel_url("2024-01-01 INF +----+"), None);
    assert_eq!(
        extract_tunnel_url("2024-01-01 INF  |  https://abc123.trycloudflare.com  |"),
        Some("https://abc123.trycloudflare.com".to_string())
    );
}

#[test]
fn rejects_non_trycloudflare_urls() {
    assert_eq!(extract_tunnel_url("https://cloudflare.com/something"), None);
    assert_eq!(extract_tunnel_url("https://evil.com https://abc.trycloudflare.com"), None);
}

#[test]
fn extracts_from_various_formats() {
    assert_eq!(
        extract_tunnel_url("Tunnel created at https://xyz789.trycloudflare.com"),
        Some("https://xyz789.trycloudflare.com".to_string())
    );
}

#[test]
fn url_stops_at_every_terminator() {
    for line in [
        "x https://a.trycloudflare.com|y",
        "x \"https://a.trycloudflare.com\"",
        "(https://a.trycloudflare.com)",
        "<https://a.trycloudflare.com>",
        "https://a.trycloudflare.com\tnext",
        "https://a.trycloudflare.com\u{a0}next",
        "https://a.trycloudflare.com\u{3000}next",
    ] {
        assert_eq!(extract_tunnel_url(line), Some("https://a.trycloudflare.com".to_string()), "{line}");
    }
}

#[test]
fn url_must_end_with_the_quick_tunnel_host() {
    assert_eq!(extract_tunnel_url("https://a.trycloudflare.com/path"), None);
    assert_eq!(extract_tunnel_url("http://a.trycloudflare.com"), None);
    assert_eq!(extract_tunnel_url(""), None);
    assert_eq!(extract_tunnel_url("https://"), None);
    assert_eq!(
        extract_tunnel_url("https://.trycloudflare.com"),
        Some("https://.trycloudflare.com".to_string())
    );
}

#[test]
fn stderr_lines_are_classified() {
    match scan_stderr_line("INF |  https://q.trycloudflare.com  |") {
        StderrLine::Url(u) => assert_eq!(u, "https://q.trycloudflare.com"),
        _ => panic!("expected a URL"),
    }
    assert!(matches!(scan_stderr_line("ERR failed to connect"), StderrLine::Warn));
    assert!(matches!(scan_stderr_line("an error occurred"), StderrLine::Warn));
    assert!(matches!(scan_stderr_line("ERROR upper case"), StderrLine::Quiet));
    assert!(matches!(scan_stderr_line("INF registered connection"), StderrLine::Quiet));
}

#[test]
fn tunnel_arguments() {
    assert_eq!(
        quick_tunnel_args(3000),
        vec!["tunnel", "--no-autoupdate", "--url", "http://localhost:3000"]
    );
    assert_eq!(
        quick_tunnel_args(0),
        vec!["tunnel", "--no-autoupdate", "--url", "http://localhost:0"]
    );
    assert_eq!(
        named_tunnel_args("tok"),
        vec!["tunnel", "--no-autoupdate", "run", "--token", "tok"]
    );
}

#[test]
fn plan_follows_the_token() {
    let quick = Config { mcp_port: 4000, bridge_port: 7878, cf_tunnel_token: None };
    match tunnel_plan(&quick) {
        TunnelPlan::Quick { args } => assert_eq!(args[3], "http://localhost:4000"),
        _ => panic!("expected a quick tunnel"),
    }
    let named = Config { mcp_port: 4000, bridge_port: 7878, cf_tunnel_token: Some("abc".to_string()) };
    match tunnel_plan(&named) {
        TunnelPlan::Named { args, url } => {
            assert_eq!(args, vec!["tunnel", "--no-autoupdate", "run", "--token", "abc"]);
            assert_eq!(url, "(named tunnel — xem dashboard.cloudflare.com)");
        }
        _ => panic!("expected a named tunnel"),
    }
}

#[test]
fn quick_tunnel_restarts_itself() {
    let exited = quick_tunnel_step(&TunnelEvent::Exited);
    assert_eq!(exited.len(), 3);
    assert!(matches!(exited[0], TunnelAction::Publish(None)));
    assert!(matches!(exited[1], TunnelAction::WaitSecs(3)));
    assert!(matches!(exited[2], TunnelAction::Respawn));
    let back = quick_tunnel_step(&TunnelEvent::Respawned("https://n.trycloudflare.com".to_string()));
    assert_eq!(back.len(), 1);
    match &back[0] {
        TunnelAction::Publish(Some(u)) => assert_eq!(u, "https://n.trycloudflare.com"),
        _ => panic!("expected the new URL"),
    }
    let failed = quick_tunnel_step(&TunnelEvent::RespawnFailed);
    assert_eq!(failed.len(), 1);
    assert!(matches!(failed[0], TunnelAction::Stop));
}
