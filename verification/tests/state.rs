use roblox_studio_bridge::config::Config;
use roblox_studio_bridge::state::{
    plugin_status_line, push, server_error_text, server_started_text, HeaderStatus, LogKind, LogLine,
    Server, SharedState, UrlBadge,
};

fn texts(s: &SharedState) -> Vec<(LogKind, String)> {
    s.lines.iter().map(|l| (l.kind, l.text.clone())).collect()
}

#[test]
fn lines_are_stamped_with_the_time_of_day() {
    let l = LogLine::at(LogKind::Info, "hi", 3 * 3600 + 4 * 60 + 5 + 86400 * 3);
    assert_eq!(l.time.as_deref(), Some("03:04:05"));
    assert_eq!(l.text, "hi");
    let l = LogLine::at(LogKind::Info, "x", 86399);
    assert_eq!(l.time.as_deref(), Some("23:59:59"));
    let now = LogLine::warn("w");
    assert_eq!(now.kind, LogKind::Warn);
    assert_eq!(now.time.as_ref().map(|t| t.len()), Some(8));
    let sep = LogLine::sep();
    assert_eq!(sep.kind, LogKind::Separator);
    assert!(sep.text.is_empty() && sep.time.is_none());
}

#[test]
fn push_appends_and_snapshot_copies() {
    let mut s = SharedState::default();
    push(&mut s, LogLine::info("one"));
    push(&mut s, LogLine::sep());
    s.plugin_online = true;
    let ui = s.clone_for_ui();
    assert_eq!(ui.lines.len(), 2);
    assert_eq!(ui.lines[0].text, "one");
    assert!(ui.plugin_online && !ui.ready);
    assert_eq!(ui.header_status(), HeaderStatus::Starting);
}

#[test]
fn tunnel_ready_then_lost_then_new() {
    let mut s = SharedState::default();
    s.on_tunnel_ready("https://a.trycloudflare.com");
    assert!(s.ready);
    assert_eq!(s.tunnel_url.as_deref(), Some("https://a.trycloudflare.com"));
    assert_eq!(
        texts(&s),
        vec![
            (LogKind::Separator, "".to_string()),
            (LogKind::Success, "✅  READY".to_string()),
            (LogKind::Dim, "Public URL  →  https://a.trycloudflare.com".to_string()),
            (LogKind::Url, "https://a.trycloudflare.com".to_string()),
            (LogKind::Separator, "".to_string()),
            (LogKind::Dim, "Thêm URL vào: MCP client → Settings → Connectors → Add custom".to_string()),
            (LogKind::Separator, "".to_string()),
        ]
    );
    assert_eq!(s.take_auto_copy_url().as_deref(), Some("https://a.trycloudflare.com"));
    assert_eq!(s.lines.last().unwrap().text, "URL đã copy vào clipboard tự động");
    assert!(s.take_auto_copy_url().is_none());
    s.on_tunnel_url_changed(None);
    assert!(s.tunnel_url.is_none() && s.ready);
    assert!(matches!(s.clone_for_ui().url_badge(), UrlBadge::Restarting));
    s.on_tunnel_url_changed(Some("https://b.trycloudflare.com".to_string()));
    assert_eq!(s.auto_copy_url.as_deref(), Some("https://b.trycloudflare.com"));
    let n = s.lines.len();
    assert_eq!(s.lines[n - 3].text, "Tunnel mới: https://b.trycloudflare.com");
    assert_eq!(s.lines[n - 1].text, "⚠ URL đã đổi — cập nhật connector trong MCP client");
}

#[test]
fn tunnel_error_is_reported() {
    let mut s = SharedState::default();
    s.on_tunnel_error("no cloudflared");
    assert_eq!(s.error.as_deref(), Some("no cloudflared"));
    assert_eq!(s.lines[0].kind, LogKind::Error);
    assert_eq!(s.lines[0].text, "Tunnel lỗi: no cloudflared");
    assert_eq!(s.clone_for_ui().header_status(), HeaderStatus::Error);
}

#[test]
fn restart_request_round_trip() {
    let mut s = SharedState::default();
    s.ready = true;
    s.tunnel_url = Some("u".to_string());
    s.request_restart(Config { mcp_port: 1, bridge_port: 2, cf_tunnel_token: None });
    assert!(!s.ready && s.tunnel_url.is_none());
    assert_eq!(texts(&s)[1], (LogKind::Warn, "Restart với config mới…".to_string()));
    let c = s.take_restart_config().expect("config");
    assert_eq!((c.mcp_port, c.bridge_port), (1, 2));
    assert_eq!(s.lines.last().unwrap().text, "Đang restart…");
    assert!(s.take_restart_config().is_none());
}

#[test]
fn startup_banner() {
    let mut s = SharedState::default();
    s.log_startup(&Config { mcp_port: 3000, bridge_port: 7878, cf_tunnel_token: Some("t".to_string()) });
    let t = texts(&s);
    assert_eq!(t.len(), 7);
    assert_eq!(t[2].1, "MCP port   →  localhost:3000");
    assert_eq!(t[3].1, "Bridge     →  localhost:7878");
    assert_eq!(t[4].1, "Tunnel     →  Named (URL cố định)");
    assert_eq!(t[6].1, "Đang khởi động…");
}

#[test]
fn downloads_and_servers() {
    let mut s = SharedState::default();
    s.on_download_started();
    assert!(s.downloading);
    s.on_download_finished(Err("404".to_string()));
    assert!(!s.downloading);
    assert_eq!(s.lines[0].text, "Download lỗi: 404");
    assert_eq!(server_started_text(Server::Bridge, 7878), "Bridge server  localhost:7878");
    assert_eq!(server_started_text(Server::Mcp, 3000), "MCP server     localhost:3000");
    assert_eq!(server_error_text(Server::Mcp, "bind"), "MCP error: bind");
}

#[test]
fn plugin_connection_changes() {
    assert_eq!(plugin_status_line(false, true).unwrap().text, "Plugin Roblox Studio đã kết nối");
    assert_eq!(plugin_status_line(true, false).unwrap().kind, LogKind::Warn);
    assert!(plugin_status_line(true, true).is_none());
    assert!(plugin_status_line(false, false).is_none());
}
