use roblox_studio_bridge::config::{
    cf_asset_name, cf_binary_name, env_port, select_asset_url, AppConfig, Config, Platform,
    TunnelMode,
};

#[test]
fn default_settings() {
    let c = AppConfig::default();
    assert_eq!(c.tunnel_mode, TunnelMode::Quick);
    assert_eq!(c.tunnel_token, "");
    assert_eq!(c.mcp_port, 3000);
    assert_eq!(c.bridge_port, 7878);
}

#[test]
fn environment_overrides_ports() {
    assert_eq!(env_port(Some("4000"), 3000), 4000);
    assert_eq!(env_port(Some("junk"), 3000), 3000);
    assert_eq!(env_port(Some("70000"), 3000), 3000);
    assert_eq!(env_port(None, 3000), 3000);
}

#[test]
fn runtime_config_from_settings() {
    let mut app = AppConfig::default();
    let c = Config::from_app(&app, Some("4000"), None);
    assert_eq!((c.mcp_port, c.bridge_port), (4000, 7878));
    assert!(c.cf_tunnel_token.is_none());
    app.tunnel_mode = TunnelMode::Named;
    assert!(Config::from_app(&app, None, None).cf_tunnel_token.is_none());
    app.tunnel_token = "tok".to_string();
    assert_eq!(Config::from_app(&app, None, Some("8888")).cf_tunnel_token.as_deref(), Some("tok"));
    assert_eq!(Config::from_app(&app, None, Some("8888")).bridge_port, 8888);
    app.tunnel_mode = TunnelMode::Quick;
    assert!(Config::from_app(&app, None, None).cf_tunnel_token.is_none());
}

#[test]
fn cloudflared_names() {
    assert_eq!(cf_binary_name(Platform::Windows), "cloudflared.exe");
    assert_eq!(cf_binary_name(Platform::Linux), "cloudflared");
    assert_eq!(cf_asset_name(Platform::Windows), "cloudflared-windows-amd64.exe");
    assert_eq!(cf_asset_name(Platform::Linux), "cloudflared-linux-amd64");
    assert_eq!(cf_asset_name(Platform::MacOs), "cloudflared-darwin-amd64");
}

#[test]
fn release_asset_selection() {
    let release: serde_json::Value = serde_json::from_str(
        r#"{"assets":[
            {"name":"other","browser_download_url":"https://x/other"},
            {"name":"cloudflared-linux-amd64","browser_download_url":"https://x/linux"},
            {"name":"cloudflared-linux-amd64","browser_download_url":"https://x/second"}
        ]}"#,
    )
    .unwrap();
    assert_eq!(select_asset_url(&release, "cloudflared-linux-amd64"), Ok("https://x/linux".to_string()));
    assert_eq!(
        select_asset_url(&release, "cloudflared-darwin-amd64"),
        Err("Asset cloudflared-darwin-amd64 không tìm thấy trong release".to_string())
    );
    let no_url: serde_json::Value =
        serde_json::from_str(r#"{"assets":[{"name":"a"},{"name":"a","browser_download_url":"u"}]}"#).unwrap();
    assert_eq!(select_asset_url(&no_url, "a"), Err("Asset a không tìm thấy trong release".to_string()));
    let none: serde_json::Value = serde_json::from_str(r#"{"message":"rate limited"}"#).unwrap();
    assert_eq!(select_asset_url(&none, "a"), Err("No assets".to_string()));
}
