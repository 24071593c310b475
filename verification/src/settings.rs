//! The settings form of the window: tunnel mode, token and ports, edited until
//! saved.

use vstd::prelude::*;
use crate::config::{AppConfig, TunnelMode};
use crate::text::{decimal, decimal_string, parse_u16, spec_parse_u16};

verus! {

/// Which port a field edits.
#[derive(Debug, Clone, Copy, PartialEq, Eq, Structural)]
pub enum PortField {
    Mcp,
    Bridge,
}

/// The settings being edited, and whether they differ from what was saved.
#[derive(Debug)]
pub struct SettingsForm {
    pub cfg: AppConfig,
    /// The text of the token field.
    pub token_buf: String,
    /// The token is shown in clear.
    pub show_token: bool,
    /// There are unsaved changes.
    pub cfg_dirty: bool,
}

impl SettingsForm {
    /// A form showing `cfg`, with nothing changed yet.
    pub fn new(cfg: AppConfig) -> (r: SettingsForm)
        ensures
            r.cfg == cfg,
            r.token_buf@ == cfg.tunnel_token@,
            !r.show_token,
            !r.cfg_dirty,
    {
        let token_buf = cfg.tunnel_token.clone();
        SettingsForm { cfg, token_buf, show_token: false, cfg_dirty: false }
    }

    /// A tunnel mode tile was clicked.
    pub fn select_mode(&mut self, mode: TunnelMode)
        ensures
            final(self).cfg.tunnel_mode == mode,
            final(self).cfg.tunnel_token == old(self).cfg.tunnel_token,
            final(self).cfg.mcp_port == old(self).cfg.mcp_port,
            final(self).cfg.bridge_port == old(self).cfg.bridge_port,
            final(self).token_buf == old(self).token_buf,
            final(self).show_token == old(self).show_token,
            final(self).cfg_dirty,
    {
        self.cfg.tunnel_mode = mode;
        self.cfg_dirty = true;
    }

    /// The token field now holds `text`.
    pub fn edit_token(&mut self, text: &str)
        ensures
            final(self).token_buf@ == text@,
            final(self).cfg.tunnel_token@ == text@,
            final(self).cfg.tunnel_mode == old(self).cfg.tunnel_mode,
            final(self).cfg.mcp_port == old(self).cfg.mcp_port,
            final(self).cfg.bridge_port == old(self).cfg.bridge_port,
            final(self).show_token == old(self).show_token,
            final(self).cfg_dirty,
    {
        self.token_buf = String::from_str(text);
        self.cfg.tunnel_token = String::from_str(text);
        self.cfg_dirty = true;
    }

    /// A port field now holds `text`; it takes effect only when it reads as a port.
    pub fn edit_port(&mut self, field: PortField, text: &str)
        ensures
            spec_parse_u16(text@) is None ==> *final(self) == *old(self),
            spec_parse_u16(text@) matches Some(p) ==> {
                &&& final(self).cfg.mcp_port == (if field == PortField::Mcp {
                    p
                } else {
                    old(self).cfg.mcp_port
                })
                &&& final(self).cfg.bridge_port == (if field == PortField::Bridge {
                    p
                } else {
                    old(self).cfg.bridge_port
                })
                &&& final(self).cfg.tunnel_mode == old(self).cfg.tunnel_mode
                &&& final(self).cfg.tunnel_token == old(self).cfg.tunnel_token
                &&& final(self).token_buf == old(self).token_buf
                &&& final(self).show_token == old(self).show_token
                &&& final(self).cfg_dirty
            },
    {
        match parse_u16(text) {
            Some(p) => {
                match field {
                    PortField::Mcp => self.cfg.mcp_port = p,
                    PortField::Bridge => self.cfg.bridge_port = p,
                }
                self.cfg_dirty = true;
            },
            None => {},
        }
    }

    /// The show/hide button of the token was clicked.
    pub fn toggle_token_visibility(&mut self)
        ensures
            final(self).show_token == !old(self).show_token,
            final(self).cfg == old(self).cfg,
            final(self).token_buf == old(self).token_buf,
            final(self).cfg_dirty == old(self).cfg_dirty,
    {
        self.show_token = !self.show_token;
    }

    /// The settings were written to disk.
    pub fn mark_saved(&mut self)
        ensures
            !final(self).cfg_dirty,
            final(self).cfg == old(self).cfg,
            final(self).token_buf == old(self).token_buf,
            final(self).show_token == old(self).show_token,
    {
        self.cfg_dirty = false;
    }

    /// "Save & restart" is offered only for unsaved changes to a running bridge.
    pub fn can_restart(&self, ready: bool) -> (r: bool)
        ensures
            r == (self.cfg_dirty && ready),
    {
        self.cfg_dirty && ready
    }
}

/// The status bar's summary of the settings: `mcp :PORT  bridge :PORT  MODE tunnel`.
pub open spec fn spec_status_summary(mcp_port: u16, bridge_port: u16, mode: TunnelMode) -> Seq<char> {
    "mcp :"@ + decimal(mcp_port as nat) + "  bridge :"@ + decimal(bridge_port as nat) + "  "@ + (
    match mode {
        TunnelMode::Quick => "quick tunnel"@,
        TunnelMode::Named => "named tunnel"@,
    })
}

/// The status bar's summary of `cfg`.
pub fn status_summary(cfg: &AppConfig) -> (r: String)
    ensures
        r@ == spec_status_summary(cfg.mcp_port, cfg.bridge_port, cfg.tunnel_mode),
{
    let mode = match cfg.tunnel_mode {
        TunnelMode::Quick => "quick tunnel",
        TunnelMode::Named => "named tunnel",
    };
    String::from_str("mcp :").concat(decimal_string(cfg.mcp_port as u64).as_str()).concat(
        "  bridge :",
    ).concat(decimal_string(cfg.bridge_port as u64).as_str()).concat("  ").concat(mode)
}

} // verus!
