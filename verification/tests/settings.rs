use roblox_studio_bridge::config::{AppConfig, TunnelMode};
use roblox_studio_bridge::settings::{status_summary, PortField, SettingsForm};

#[test]
fn editing_marks_the_form_dirty() {
    let mut f = SettingsForm::new(AppConfig::default());
    assert!(!f.cfg_dirty);
    f.edit_port(PortField::Mcp, "abc");
    assert!(!f.cfg_dirty);
    assert_eq!(f.cfg.mcp_port, 3000);
    f.edit_port(PortField::Bridge, "9000");
    assert!(f.cfg_dirty);
    assert_eq!(f.cfg.bridge_port, 9000);
    assert!(f.can_restart(true));
    assert!(!f.can_restart(false));
    f.mark_saved();
    assert!(!f.can_restart(true));
    f.select_mode(TunnelMode::Named);
    f.edit_token("secret");
    assert_eq!(f.cfg.tunnel_token, "secret");
    assert_eq!(f.token_buf, "secret");
    f.toggle_token_visibility();
    assert!(f.show_token);
}

#[test]
fn status_bar_summary() {
    let mut c = AppConfig::default();
    assert_eq!(status_summary(&c), "mcp :3000  bridge :7878  quick tunnel");
    c.tunnel_mode = TunnelMode::Named;
    c.mcp_port = 1;
    assert_eq!(status_summary(&c), "mcp :1  bridge :7878  named tunnel");
}
