//! Persisted settings, the runtime configuration derived from them, and the
//! choice of the `cloudflared` release asset.

use vstd::prelude::*;
use crate::json::{json_as_array, json_as_str, json_index, json_of, JsonSpec};
use crate::text::{parse_u16, spec_parse_u16, str_eq};

verus! {

/// Quick tunnel (random URL, no account) or named tunnel (fixed URL, token).
#[derive(Debug, Clone, Copy, PartialEq, Eq, Structural)]
pub enum TunnelMode {
    Quick,
    Named,
}

/// The settings kept in `config.json`.
#[derive(Debug)]
pub struct AppConfig {
    /// Quick or named tunnel.
    pub tunnel_mode: TunnelMode,
    /// The token of a named tunnel (used only in that mode).
    pub tunnel_token: String,
    pub mcp_port: u16,
    pub bridge_port: u16,
}

impl Default for AppConfig {
    fn default() -> (r: Self)
        ensures
            r.tunnel_mode == TunnelMode::Quick,
            r.tunnel_token@ == Seq::<char>::empty(),
            r.mcp_port == 3000,
            r.bridge_port == 7878,
    {
        AppConfig {
            tunnel_mode: TunnelMode::Quick,
            tunnel_token: String::new(),
            mcp_port: 3000,
            bridge_port: 7878,
        }
    }
}

/// The configuration the servers and the tunnel run with.
#[derive(Debug)]
pub struct Config {
    pub mcp_port: u16,
    pub bridge_port: u16,
    /// Present exactly for a named tunnel with a token.
    pub cf_tunnel_token: Option<String>,
}

/// The mathematical form of a runtime configuration.
pub struct ConfigSpec {
    pub mcp_port: u16,
    pub bridge_port: u16,
    pub cf_tunnel_token: Option<Seq<char>>,
}

impl View for Config {
    type V = ConfigSpec;

    open spec fn view(&self) -> ConfigSpec {
        ConfigSpec {
            mcp_port: self.mcp_port,
            bridge_port: self.bridge_port,
            cf_tunnel_token: match self.cf_tunnel_token {
                Some(t) => Some(t@),
                None => None,
            },
        }
    }
}

impl Config {
    /// A copy of this configuration.
    pub fn duplicate(&self) -> (r: Config)
        ensures
            r.mcp_port == self.mcp_port,
            r.bridge_port == self.bridge_port,
            r.cf_tunnel_token == self.cf_tunnel_token,
    {
        Config {
            mcp_port: self.mcp_port,
            bridge_port: self.bridge_port,
            cf_tunnel_token: match &self.cf_tunnel_token {
                Some(t) => Some(t.clone()),
                None => None,
            },
        }
    }
}

/// The port that an environment variable gives: its value when it parses as a
/// port number, else `default`.
pub open spec fn spec_env_port(value: Option<Seq<char>>, default: u16) -> u16 {
    match value {
        Some(v) => match spec_parse_u16(v) {
            Some(p) => p,
            None => default,
        },
        None => default,
    }
}

/// The port that an environment variable holding `value` (absent: `None`) gives.
pub fn env_port(value: Option<&str>, default: u16) -> (r: u16)
    ensures
        r == spec_env_port(
            match value {
                Some(v) => Some(v@),
                None => None,
            },
            default,
        ),
{
    match value {
        Some(v) => match parse_u16(v) {
            Some(p) => p,
            None => default,
        },
        None => default,
    }
}

impl Config {
    /// The runtime configuration for settings `app`, where `mcp_port_env` and
    /// `bridge_port_env` are the values of `MCP_PORT` and `BRIDGE_PORT` in the
    /// environment; a named tunnel with an empty token runs as a quick one.
    pub fn from_app(app: &AppConfig, mcp_port_env: Option<&str>, bridge_port_env: Option<&str>) -> (r:
        Config)
        ensures
            r.mcp_port == spec_env_port(
                match mcp_port_env {
                    Some(v) => Some(v@),
                    None => None,
                },
                app.mcp_port,
            ),
            r.bridge_port == spec_env_port(
                match bridge_port_env {
                    Some(v) => Some(v@),
                    None => None,
                },
                app.bridge_port,
            ),
            r.cf_tunnel_token matches Some(t) ==> app.tunnel_mode == TunnelMode::Named
                && app.tunnel_token@.len() > 0 && t@ == app.tunnel_token@,
            r.cf_tunnel_token is None ==> app.tunnel_mode == TunnelMode::Quick
                || app.tunnel_token@.len() == 0,
    {
        let token = match app.tunnel_mode {
            TunnelMode::Named => if app.tunnel_token.as_str().unicode_len() > 0 {
                Some(app.tunnel_token.clone())
            } else {
                None
            },
            TunnelMode::Quick => None,
        };
        Config {
            mcp_port: env_port(mcp_port_env, app.mcp_port),
            bridge_port: env_port(bridge_port_env, app.bridge_port),
            cf_tunnel_token: token,
        }
    }
}

// ── cloudflared ──────────────────────────────────────────────────

/// The operating systems that `cloudflared` is fetched for.
#[derive(Debug, Clone, Copy, PartialEq, Eq, Structural)]
pub enum Platform {
    Windows,
    Linux,
    MacOs,
}

/// The file name of the `cloudflared` binary.
pub fn cf_binary_name(platform: Platform) -> (r: &'static str)
    ensures
        r@ == (if platform == Platform::Windows {
            "cloudflared.exe"@
        } else {
            "cloudflared"@
        }),
{
    match platform {
        Platform::Windows => "cloudflared.exe",
        _ => "cloudflared",
    }
}

/// The name of the release asset that holds `cloudflared` for `platform`.
pub fn cf_asset_name(platform: Platform) -> (r: &'static str)
    ensures
        r@ == (match platform {
            Platform::Windows => "cloudflared-windows-amd64.exe"@,
            Platform::Linux => "cloudflared-linux-amd64"@,
            Platform::MacOs => "cloudflared-darwin-amd64"@,
        }),
{
    match platform {
        Platform::Windows => "cloudflared-windows-amd64.exe",
        Platform::Linux => "cloudflared-linux-amd64",
        Platform::MacOs => "cloudflared-darwin-amd64",
    }
}

/// The first element of `items` whose `name` member is the string `asset`.
pub open spec fn first_named(items: Seq<JsonSpec>, asset: Seq<char>) -> Option<JsonSpec>
    decreases items.len(),
{
    if items.len() == 0 {
        None
    } else if items[0].at("name"@).str_value() == Some(asset) {
        Some(items[0])
    } else {
        first_named(items.drop_first(), asset)
    }
}

/// The error when the release lists the asset without a usable download URL, or not at all.
pub open spec fn asset_missing_message(asset: Seq<char>) -> Seq<char> {
    "Asset "@ + asset + " không tìm thấy trong release"@
}

/// Where to download `asset` from, according to the GitHub release description
/// `release`: the `browser_download_url` of the first asset named `asset`.
pub open spec fn spec_asset_url(release: JsonSpec, asset: Seq<char>) -> Result<Seq<char>, Seq<char>> {
    match release.at("assets"@) {
        JsonSpec::Array(items) => match first_named(items, asset) {
            Some(a) => match a.at("browser_download_url"@).str_value() {
                Some(u) => Ok(u),
                None => Err(asset_missing_message(asset)),
            },
            None => Err(asset_missing_message(asset)),
        },
        _ => Err("No assets"@),
    }
}

/// Finds the download URL of `asset` in a GitHub release description.
pub fn select_asset_url(release: &serde_json::Value, asset: &str) -> (r: Result<String, String>)
    ensures
        spec_asset_url(json_of(*release), asset@) == (match r {
            Ok(u) => Ok::<Seq<char>, Seq<char>>(u@),
            Err(e) => Err::<Seq<char>, Seq<char>>(e@),
        }),
{
    let items = match json_index(release, "assets") {
        Some(a) => match json_as_array(a) {
            Some(items) => items,
            None => return Err(String::from_str("No assets")),
        },
        None => return Err(String::from_str("No assets")),
    };
    let ghost specs = items@.map_values(|x: serde_json::Value| json_of(x));
    assert(json_of(*release).at("assets"@) == JsonSpec::Array(specs));
    assert(specs.skip(0) =~= specs);
    let missing = String::from_str("Asset ").concat(asset).concat(" không tìm thấy trong release");
    let mut i: usize = 0;
    while i < items.len()
        invariant
            i <= items@.len(),
            specs == items@.map_values(|x: serde_json::Value| json_of(x)),
            first_named(specs, asset@) == first_named(specs.skip(i as int), asset@),
            missing@ == asset_missing_message(asset@),
            json_of(*release).at("assets"@) == JsonSpec::Array(specs),
        decreases items@.len() - i,
    {
        let item = &items[i];
        assert(json_of(*item) == specs[i as int]);
        let name_matches = match json_index(item, "name") {
            Some(n) => match json_as_str(n) {
                Some(s) => str_eq(s, asset),
                None => false,
            },
            None => false,
        };
        assert(specs.skip(i as int)[0] == json_of(items@[i as int]));
        if name_matches {
            assert(first_named(specs.skip(i as int), asset@) == Some(json_of(items@[i as int])));
            return match json_index(item, "browser_download_url") {
                Some(u) => match json_as_str(u) {
                    Some(s) => Ok(String::from_str(s)),
                    None => Err(missing),
                },
                None => Err(missing),
            };
        }
        assert(specs.skip(i as int).drop_first() =~= specs.skip(i + 1));
        i = i + 1;
    }
    assert(specs.skip(i as int).len() == 0);
    Err(missing)
}

} // verus!
