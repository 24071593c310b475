//! The log and status shared between the backend and the window.

use vstd::prelude::*;
use crate::bridge::now_secs;
use crate::config::{Config, ConfigSpec};
use crate::text::{decimal, decimal_string, two_digit_string, two_digits};

verus! {

/// How a log line is shown.
#[derive(Debug, Clone, Copy, PartialEq, Eq, Structural)]
pub enum LogKind {
    Info,
    Success,
    Warn,
    Error,
    Dim,
    Url,
    Separator,
}

/// One line of the log, stamped with the time of day it was written.
#[derive(Debug)]
pub struct LogLine {
    pub kind: LogKind,
    pub text: String,
    pub time: Option<String>,
}

/// The mathematical form of a log line.
pub struct LineSpec {
    pub kind: LogKind,
    pub text: Seq<char>,
    pub time: Option<Seq<char>>,
}

impl View for LogLine {
    type V = LineSpec;

    open spec fn view(&self) -> LineSpec {
        LineSpec {
            kind: self.kind,
            text: self.text@,
            time: match self.time {
                Some(t) => Some(t@),
                None => None,
            },
        }
    }
}

/// The time of day (UTC) `secs` seconds after the epoch, as `HH:MM:SS`.
pub open spec fn clock_text(secs: nat) -> Seq<char> {
    two_digits((secs / 3600) % 24) + seq![':'] + two_digits((secs / 60) % 60) + seq![':']
        + two_digits(secs % 60)
}

/// `s` is the time of day of some instant.
pub open spec fn is_clock_text(s: Seq<char>) -> bool {
    exists|secs: u64| s == #[trigger] clock_text(secs as nat)
}

/// A line of kind `kind` saying `text`, whatever its time stamp.
pub open spec fn says(line: LineSpec, kind: LogKind, text: Seq<char>) -> bool {
    line.kind == kind && line.text == text
}

/// A fresh line stamped with a time of day.
pub open spec fn stamped(line: LineSpec, kind: LogKind, text: Seq<char>) -> bool {
    &&& says(line, kind, text)
    &&& line.time matches Some(t) && is_clock_text(t)
}

/// The separator line.
pub open spec fn separator() -> LineSpec {
    LineSpec { kind: LogKind::Separator, text: Seq::empty(), time: None }
}

/// `HH:MM:SS` for the instant `secs` seconds after the epoch.
pub fn clock_string(secs: u64) -> (r: String)
    ensures
        r@ == clock_text(secs as nat),
{
    let h = two_digit_string((secs / 3600) % 24);
    let m = two_digit_string((secs / 60) % 60);
    let s = two_digit_string(secs % 60);
    let r = h.concat(":").concat(m.as_str()).concat(":").concat(s.as_str());
    proof {
        reveal_strlit(":");
    }
    assert(r@ =~= clock_text(secs as nat));
    r
}

impl LogLine {
    /// A line stamped with the time of day of instant `secs`.
    pub fn at(kind: LogKind, text: &str, secs: u64) -> (r: LogLine)
        ensures
            r@ == (LineSpec { kind, text: text@, time: Some(clock_text(secs as nat)) }),
    {
        LogLine { kind, text: String::from_str(text), time: Some(clock_string(secs)) }
    }

    /// A line stamped with the current time of day.
    pub fn new(kind: LogKind, text: &str) -> (r: LogLine)
        ensures
            stamped(r@, kind, text@),
    {
        let secs = now_secs();
        let r = LogLine::at(kind, text, secs);
        assert(clock_text(secs as nat) == clock_text(secs as nat));
        r
    }

    pub fn info(t: &str) -> (r: LogLine)
        ensures
            stamped(r@, LogKind::Info, t@),
    {
        LogLine::new(LogKind::Info, t)
    }

    pub fn success(t: &str) -> (r: LogLine)
        ensures
            stamped(r@, LogKind::Success, t@),
    {
        LogLine::new(LogKind::Success, t)
    }

    pub fn warn(t: &str) -> (r: LogLine)
        ensures
            stamped(r@, LogKind::Warn, t@),
    {
        LogLine::new(LogKind::Warn, t)
    }

    pub fn error(t: &str) -> (r: LogLine)
        ensures
            stamped(r@, LogKind::Error, t@),
    {
        LogLine::new(LogKind::Error, t)
    }

    pub fn dim(t: &str) -> (r: LogLine)
        ensures
            stamped(r@, LogKind::Dim, t@),
    {
        LogLine::new(LogKind::Dim, t)
    }

    pub fn url(t: &str) -> (r: LogLine)
        ensures
            stamped(r@, LogKind::Url, t@),
    {
        LogLine::new(LogKind::Url, t)
    }

    /// The separator: no text, no time.
    pub fn sep() -> (r: LogLine)
        ensures
            r@ == separator(),
    {
        LogLine { kind: LogKind::Separator, text: String::new(), time: None }
    }

    /// A copy of this line.
    pub fn duplicate(&self) -> (r: LogLine)
        ensures
            r@ == self@,
    {
        LogLine {
            kind: self.kind,
            text: self.text.clone(),
            time: match &self.time {
                Some(t) => Some(t.clone()),
                None => None,
            },
        }
    }
}

/// The text of an optional string.
pub open spec fn opt_text(o: Option<String>) -> Option<Seq<char>> {
    match o {
        Some(s) => Some(s@),
        None => None,
    }
}

/// The lines of a log, as mathematical lines.
pub open spec fn line_specs(lines: Seq<LogLine>) -> Seq<LineSpec> {
    lines.map_values(|l: LogLine| l@)
}

/// What the backend and the window share.
pub struct SharedState {
    pub lines: Vec<LogLine>,
    pub tunnel_url: Option<String>,
    pub plugin_online: bool,
    pub ready: bool,
    pub error: Option<String>,
    /// A URL the window should copy to the clipboard once.
    pub auto_copy_url: Option<String>,
    /// A configuration the backend should restart with (set from the settings).
    pub restart_config: Option<Config>,
    /// `cloudflared` is being downloaded.
    pub downloading: bool,
}

/// The mathematical form of the shared state.
pub struct StateSpec {
    pub lines: Seq<LineSpec>,
    pub tunnel_url: Option<Seq<char>>,
    pub plugin_online: bool,
    pub ready: bool,
    pub error: Option<Seq<char>>,
    pub auto_copy_url: Option<Seq<char>>,
    pub restart_config: Option<ConfigSpec>,
    pub downloading: bool,
}

impl View for SharedState {
    type V = StateSpec;

    open spec fn view(&self) -> StateSpec {
        StateSpec {
            lines: line_specs(self.lines@),
            tunnel_url: opt_text(self.tunnel_url),
            plugin_online: self.plugin_online,
            ready: self.ready,
            error: opt_text(self.error),
            auto_copy_url: opt_text(self.auto_copy_url),
            restart_config: match self.restart_config {
                Some(c) => Some(c@),
                None => None,
            },
            downloading: self.downloading,
        }
    }
}

impl Default for SharedState {
    fn default() -> (r: Self)
        ensures
            r@ == (StateSpec {
                lines: Seq::empty(),
                tunnel_url: None,
                plugin_online: false,
                ready: false,
                error: None,
                auto_copy_url: None,
                restart_config: None,
                downloading: false,
            }),
    {
        let r = SharedState {
            lines: Vec::new(),
            tunnel_url: None,
            plugin_online: false,
            ready: false,
            error: None,
            auto_copy_url: None,
            restart_config: None,
            downloading: false,
        };
        assert(line_specs(r.lines@) =~= Seq::<LineSpec>::empty());
        r
    }
}

/// Appends `line` to the log; nothing else changes.
pub fn push(state: &mut SharedState, line: LogLine)
    ensures
        final(state)@ == (StateSpec { lines: old(state)@.lines.push(line@), ..old(state)@ }),
{
    let ghost l = line@;
    state.lines.push(line);
    assert(line_specs(state.lines@) =~= old(state)@.lines.push(l));
}

/// What the window draws from, copied out of the shared state.
pub struct UiSnapshot {
    pub lines: Vec<LogLine>,
    pub tunnel_url: Option<String>,
    pub plugin_online: bool,
    pub ready: bool,
    pub error: Option<String>,
    pub downloading: bool,
}

fn copy_text(o: &Option<String>) -> (r: Option<String>)
    ensures
        opt_text(r) == opt_text(*o),
{
    match o {
        Some(s) => Some(s.clone()),
        None => None,
    }
}

/// Entries of kinds and texts.
pub open spec fn entry_specs(entries: Seq<(LogKind, String)>) -> Seq<(LogKind, Seq<char>)> {
    entries.map_values(|e: (LogKind, String)| (e.0, e.1@))
}

/// The lines a header shows around a freshly opened tunnel.
pub open spec fn ready_lines(url: Seq<char>) -> Seq<(LogKind, Seq<char>)> {
    seq![
        (LogKind::Separator, Seq::empty()),
        (LogKind::Success, "✅  READY"@),
        (LogKind::Dim, "Public URL  →  "@ + url),
        (LogKind::Url, url),
        (LogKind::Separator, Seq::empty()),
        (LogKind::Dim, "Thêm URL vào: MCP client → Settings → Connectors → Add custom"@),
        (LogKind::Separator, Seq::empty()),
    ]
}

/// `added` are fresh lines of the given kinds and texts: separators bare, the
/// others stamped with a time of day.
pub open spec fn fresh_lines(added: Seq<LineSpec>, expected: Seq<(LogKind, Seq<char>)>) -> bool {
    &&& added.len() == expected.len()
    &&& forall|i: int|
        0 <= i < added.len() ==> if expected[i].0 == LogKind::Separator {
            #[trigger] added[i] == separator()
        } else {
            stamped(added[i], expected[i].0, expected[i].1)
        }
}

/// The log grew by fresh lines as `expected` lists them.
pub open spec fn appended(
    before: Seq<LineSpec>,
    after: Seq<LineSpec>,
    expected: Seq<(LogKind, Seq<char>)>,
) -> bool {
    &&& after.len() == before.len() + expected.len()
    &&& after.subrange(0, before.len() as int) == before
    &&& fresh_lines(after.subrange(before.len() as int, after.len() as int), expected)
}

/// The lines announcing a new URL after the tunnel restarted.
pub open spec fn new_url_lines(url: Seq<char>) -> Seq<(LogKind, Seq<char>)> {
    seq![
        (LogKind::Success, "Tunnel mới: "@ + url),
        (LogKind::Url, url),
        (LogKind::Dim, "⚠ URL đã đổi — cập nhật connector trong MCP client"@),
    ]
}

/// The line announcing that the tunnel dropped.
pub open spec fn lost_tunnel_lines() -> Seq<(LogKind, Seq<char>)> {
    seq![(LogKind::Warn, "Tunnel mất kết nối, đang restart…"@)]
}

/// The lines written when a restart is requested.
pub open spec fn restart_lines() -> Seq<(LogKind, Seq<char>)> {
    seq![(LogKind::Separator, Seq::empty()), (LogKind::Warn, "Restart với config mới…"@)]
}

/// The banner written when the backend starts with `config`.
pub open spec fn startup_banner(config: ConfigSpec) -> Seq<(LogKind, Seq<char>)> {
    seq![
        (LogKind::Dim, "Roblox Studio Bridge  v0.2"@),
        (LogKind::Separator, Seq::empty()),
        (LogKind::Info, "MCP port   →  localhost:"@ + decimal(config.mcp_port as nat)),
        (LogKind::Info, "Bridge     →  localhost:"@ + decimal(config.bridge_port as nat)),
        (LogKind::Info, "Tunnel     →  "@ + (if config.cf_tunnel_token is Some {
            "Named (URL cố định)"@
        } else {
            "Quick (auto-restart)"@
        })),
        (LogKind::Separator, Seq::empty()),
        (LogKind::Dim, "Đang khởi động…"@),
    ]
}

proof fn lemma_append_fresh(
    before: Seq<LineSpec>,
    mid: Seq<LineSpec>,
    expected: Seq<(LogKind, Seq<char>)>,
    line: LineSpec,
    kind: LogKind,
    text: Seq<char>,
)
    requires
        appended(before, mid, expected),
        kind == LogKind::Separator ==> line == separator(),
        kind != LogKind::Separator ==> stamped(line, kind, text),
    ensures
        appended(before, mid.push(line), expected.push((kind, text))),
{
    let after = mid.push(line);
    let e2 = expected.push((kind, text));
    assert(after.subrange(0, before.len() as int) =~= before);
    let added = after.subrange(before.len() as int, after.len() as int);
    let old_added = mid.subrange(before.len() as int, mid.len() as int);
    assert(added =~= old_added.push(line));
    assert forall|i: int| 0 <= i < added.len() implies if e2[i].0 == LogKind::Separator {
        #[trigger] added[i] == separator()
    } else {
        stamped(added[i], e2[i].0, e2[i].1)
    } by {
        if i < old_added.len() {
            assert(added[i] == old_added[i]);
            assert(e2[i] == expected[i]);
        }
    }
}

impl SharedState {
    /// Appends a fresh line, keeping track of what has been appended so far.
    fn log(&mut self, kind: LogKind, text: &str, Ghost(before): Ghost<Seq<LineSpec>>, Ghost(
        expected,
    ): Ghost<Seq<(LogKind, Seq<char>)>>)
        requires
            appended(before, old(self)@.lines, expected),
        ensures
            appended(before, final(self)@.lines, expected.push((kind, text@))),
            final(self)@ == (StateSpec { lines: final(self)@.lines, ..old(self)@ }),
    {
        let line = if kind == LogKind::Separator {
            LogLine::sep()
        } else {
            LogLine::new(kind, text)
        };
        let ghost l = line@;
        let ghost mid = self@.lines;
        push(self, line);
        proof {
            lemma_append_fresh(before, mid, expected, l, kind, text@);
        }
    }

    /// A copy of what the window draws from.
    pub fn clone_for_ui(&self) -> (r: UiSnapshot)
        ensures
            line_specs(r.lines@) == self@.lines,
            opt_text(r.tunnel_url) == self@.tunnel_url,
            r.plugin_online == self.plugin_online,
            r.ready == self.ready,
            opt_text(r.error) == self@.error,
            r.downloading == self.downloading,
    {
        let mut lines: Vec<LogLine> = Vec::new();
        let mut i: usize = 0;
        while i < self.lines.len()
            invariant
                i <= self.lines@.len(),
                lines@.len() == i,
                line_specs(lines@) == line_specs(self.lines@).take(i as int),
            decreases self.lines@.len() - i,
        {
            let l = self.lines[i].duplicate();
            let ghost prev = lines@;
            lines.push(l);
            assert forall|j: int| 0 <= j < i + 1 implies line_specs(lines@)[j] == line_specs(
                self.lines@,
            ).take(i + 1)[j] by {
                if j < i {
                    assert(lines@[j] == prev[j]);
                    assert(line_specs(prev)[j] == line_specs(self.lines@).take(i as int)[j]);
                }
            }
            assert(line_specs(lines@) =~= line_specs(self.lines@).take(i + 1));
            i = i + 1;
        }
        assert(line_specs(self.lines@).take(self.lines@.len() as int) =~= line_specs(self.lines@));
        UiSnapshot {
            lines,
            tunnel_url: copy_text(&self.tunnel_url),
            plugin_online: self.plugin_online,
            ready: self.ready,
            error: copy_text(&self.error),
            downloading: self.downloading,
        }
    }

    /// Appends fresh lines of the given kinds and texts (separators bare).
    pub fn log_lines(&mut self, entries: &Vec<(LogKind, String)>)
        ensures
            appended(old(self)@.lines, final(self)@.lines, entry_specs(entries@)),
            final(self)@ == (StateSpec { lines: final(self)@.lines, ..old(self)@ }),
    {
        let ghost before = self@.lines;
        assert(before.subrange(0, before.len() as int) =~= before);
        assert(before.subrange(before.len() as int, before.len() as int) =~= Seq::<LineSpec>::empty());
        assert(entry_specs(entries@).take(0) =~= Seq::<(LogKind, Seq<char>)>::empty());
        let mut i: usize = 0;
        while i < entries.len()
            invariant
                i <= entries@.len(),
                appended(before, self@.lines, entry_specs(entries@).take(i as int)),
                self@ == (StateSpec { lines: self@.lines, ..old(self)@ }),
                before == old(self)@.lines,
            decreases entries@.len() - i,
        {
            let kind = entries[i].0;
            self.log(
                kind,
                entries[i].1.as_str(),
                Ghost(before),
                Ghost(entry_specs(entries@).take(i as int)),
            );
            assert(entry_specs(entries@).take(i as int).push((kind, entries@[i as int].1@))
                =~= entry_specs(entries@).take(i + 1));
            i = i + 1;
        }
        assert(entry_specs(entries@).take(entries@.len() as int) =~= entry_specs(entries@));
    }

    /// The backend starts with `config`: the banner goes to the log.
    pub fn log_startup(&mut self, config: &Config)
        ensures
            appended(old(self)@.lines, final(self)@.lines, startup_banner(config@)),
            final(self)@ == (StateSpec { lines: final(self)@.lines, ..old(self)@ }),
    {
        let mut e: Vec<(LogKind, String)> = Vec::new();
        e.push((LogKind::Dim, String::from_str("Roblox Studio Bridge  v0.2")));
        e.push((LogKind::Separator, String::new()));
        e.push(
            (
                LogKind::Info,
                String::from_str("MCP port   →  localhost:").concat(
                    decimal_string(config.mcp_port as u64).as_str(),
                ),
            ),
        );
        e.push(
            (
                LogKind::Info,
                String::from_str("Bridge     →  localhost:").concat(
                    decimal_string(config.bridge_port as u64).as_str(),
                ),
            ),
        );
        let mode = if config.cf_tunnel_token.is_some() {
            "Named (URL cố định)"
        } else {
            "Quick (auto-restart)"
        };
        e.push((LogKind::Info, String::from_str("Tunnel     →  ").concat(mode)));
        e.push((LogKind::Separator, String::new()));
        e.push((LogKind::Dim, String::from_str("Đang khởi động…")));
        assert(entry_specs(e@) =~= startup_banner(config@));
        self.log_lines(&e);
    }

    /// The tunnel is up at `url`: the log says so, the URL is shown and offered
    /// for copying, and the bridge counts as ready.
    pub fn on_tunnel_ready(&mut self, url: &str)
        ensures
            appended(old(self)@.lines, final(self)@.lines, ready_lines(url@)),
            final(self)@ == (StateSpec {
                lines: final(self)@.lines,
                tunnel_url: Some(url@),
                ready: true,
                auto_copy_url: Some(url@),
                ..old(self)@
            }),
    {
        let mut e: Vec<(LogKind, String)> = Vec::new();
        e.push((LogKind::Separator, String::new()));
        e.push((LogKind::Success, String::from_str("✅  READY")));
        e.push((LogKind::Dim, String::from_str("Public URL  →  ").concat(url)));
        e.push((LogKind::Url, String::from_str(url)));
        e.push((LogKind::Separator, String::new()));
        e.push(
            (
                LogKind::Dim,
                String::from_str("Thêm URL vào: MCP client → Settings → Connectors → Add custom"),
            ),
        );
        e.push((LogKind::Separator, String::new()));
        assert(entry_specs(e@) =~= ready_lines(url@));
        self.log_lines(&e);
        self.tunnel_url = Some(String::from_str(url));
        self.ready = true;
        self.auto_copy_url = Some(String::from_str(url));
    }

    /// The tunnel's URL changed: `None` while it restarts, then the new URL, which
    /// is shown and offered for copying.
    pub fn on_tunnel_url_changed(&mut self, new_url: Option<String>)
        ensures
            new_url is None ==> appended(old(self)@.lines, final(self)@.lines, lost_tunnel_lines())
                && final(self)@ == (StateSpec {
                lines: final(self)@.lines,
                tunnel_url: None,
                ..old(self)@
            }),
            new_url matches Some(u) ==> appended(
                old(self)@.lines,
                final(self)@.lines,
                new_url_lines(u@),
            ) && final(self)@ == (StateSpec {
                lines: final(self)@.lines,
                tunnel_url: Some(u@),
                auto_copy_url: Some(u@),
                ..old(self)@
            }),
    {
        let mut e: Vec<(LogKind, String)> = Vec::new();
        match new_url {
            None => {
                e.push((LogKind::Warn, String::from_str("Tunnel mất kết nối, đang restart…")));
                assert(entry_specs(e@) =~= lost_tunnel_lines());
                self.log_lines(&e);
                self.tunnel_url = None;
            },
            Some(u) => {
                e.push((LogKind::Success, String::from_str("Tunnel mới: ").concat(u.as_str())));
                e.push((LogKind::Url, u.clone()));
                e.push(
                    (
                        LogKind::Dim,
                        String::from_str("⚠ URL đã đổi — cập nhật connector trong MCP client"),
                    ),
                );
                assert(entry_specs(e@) =~= new_url_lines(u@));
                self.log_lines(&e);
                self.tunnel_url = Some(u.clone());
                self.auto_copy_url = Some(u);
            },
        }
    }

    /// The tunnel could not start: the log and the error field say why.
    pub fn on_tunnel_error(&mut self, message: &str)
        ensures
            appended(
                old(self)@.lines,
                final(self)@.lines,
                seq![(LogKind::Error, "Tunnel lỗi: "@ + message@)],
            ),
            final(self)@ == (StateSpec {
                lines: final(self)@.lines,
                error: Some(message@),
                ..old(self)@
            }),
    {
        let mut e: Vec<(LogKind, String)> = Vec::new();
        e.push((LogKind::Error, String::from_str("Tunnel lỗi: ").concat(message)));
        assert(entry_specs(e@) =~= seq![(LogKind::Error, "Tunnel lỗi: "@ + message@)]);
        self.log_lines(&e);
        self.error = Some(String::from_str(message));
    }

    /// The settings ask for a restart with `config`: the bridge is no longer ready
    /// and has no URL until the backend picks the configuration up.
    pub fn request_restart(&mut self, config: Config)
        ensures
            appended(old(self)@.lines, final(self)@.lines, restart_lines()),
            final(self)@ == (StateSpec {
                lines: final(self)@.lines,
                restart_config: Some(config@),
                ready: false,
                tunnel_url: None,
                ..old(self)@
            }),
    {
        self.restart_config = Some(config);
        self.ready = false;
        self.tunnel_url = None;
        let mut e: Vec<(LogKind, String)> = Vec::new();
        e.push((LogKind::Separator, String::new()));
        e.push((LogKind::Warn, String::from_str("Restart với config mới…")));
        assert(entry_specs(e@) =~= restart_lines());
        self.log_lines(&e);
    }

    /// The backend takes the requested configuration, if any, clears the request
    /// and logs that it restarts.
    pub fn take_restart_config(&mut self) -> (r: Option<Config>)
        ensures
            (match r {
                Some(c) => Some(c@),
                None => None,
            }) == old(self)@.restart_config,
            r is None ==> final(self)@ == old(self)@,
            r is Some ==> appended(
                old(self)@.lines,
                final(self)@.lines,
                seq![(LogKind::Dim, "Đang restart…"@)],
            ) && final(self)@ == (StateSpec {
                lines: final(self)@.lines,
                restart_config: None,
                ..old(self)@
            }),
    {
        let r = self.restart_config.take();
        if r.is_some() {
            let mut e: Vec<(LogKind, String)> = Vec::new();
            e.push((LogKind::Dim, String::from_str("Đang restart…")));
            assert(entry_specs(e@) =~= seq![(LogKind::Dim, "Đang restart…"@)]);
            self.log_lines(&e);
        }
        r
    }

    /// The window takes the URL to copy, if any; taking one logs that it was copied.
    pub fn take_auto_copy_url(&mut self) -> (r: Option<String>)
        ensures
            opt_text(r) == old(self)@.auto_copy_url,
            r is None ==> final(self)@ == old(self)@,
            r is Some ==> appended(
                old(self)@.lines,
                final(self)@.lines,
                seq![(LogKind::Success, "URL đã copy vào clipboard tự động"@)],
            ) && final(self)@ == (StateSpec {
                lines: final(self)@.lines,
                auto_copy_url: None,
                ..old(self)@
            }),
    {
        let r = self.auto_copy_url.take();
        if r.is_some() {
            let mut e: Vec<(LogKind, String)> = Vec::new();
            e.push((LogKind::Success, String::from_str("URL đã copy vào clipboard tự động")));
            assert(entry_specs(e@) =~= seq![
                (LogKind::Success, "URL đã copy vào clipboard tự động"@),
            ]);
            self.log_lines(&e);
        }
        r
    }

    /// A download of `cloudflared` starts.
    pub fn on_download_started(&mut self)
        ensures
            final(self)@ == (StateSpec { downloading: true, ..old(self)@ }),
    {
        self.downloading = true;
    }

    /// A download of `cloudflared` ended, well (`Ok`) or with an error message.
    pub fn on_download_finished(&mut self, outcome: Result<(), String>)
        ensures
            appended(
                old(self)@.lines,
                final(self)@.lines,
                match outcome {
                    Ok(_) => seq![(LogKind::Success, "✅ cloudflared đã tải xong"@)],
                    Err(e) => seq![(LogKind::Error, "Download lỗi: "@ + e@)],
                },
            ),
            final(self)@ == (StateSpec {
                lines: final(self)@.lines,
                downloading: false,
                ..old(self)@
            }),
    {
        let mut e: Vec<(LogKind, String)> = Vec::new();
        match outcome {
            Ok(_) => {
                e.push((LogKind::Success, String::from_str("✅ cloudflared đã tải xong")));
                assert(entry_specs(e@) =~= seq![(LogKind::Success, "✅ cloudflared đã tải xong"@)]);
            },
            Err(msg) => {
                e.push((LogKind::Error, String::from_str("Download lỗi: ").concat(msg.as_str())));
                assert(entry_specs(e@) =~= seq![(LogKind::Error, "Download lỗi: "@ + msg@)]);
            },
        }
        self.log_lines(&e);
        self.downloading = false;
    }

}

/// The line that a change in the plugin's connection writes, if any.
pub fn plugin_status_line(last_online: bool, now_online: bool) -> (r: Option<LogLine>)
    ensures
        now_online && !last_online ==> (r matches Some(l) && stamped(
            l@,
            LogKind::Success,
            "Plugin Roblox Studio đã kết nối"@,
        )),
        !now_online && last_online ==> (r matches Some(l) && stamped(
            l@,
            LogKind::Warn,
            "Plugin mất kết nối"@,
        )),
        now_online == last_online ==> r is None,
{
    if now_online != last_online {
        if now_online {
            Some(LogLine::success("Plugin Roblox Studio đã kết nối"))
        } else if last_online {
            Some(LogLine::warn("Plugin mất kết nối"))
        } else {
            None
        }
    } else {
        None
    }
}

/// The state the header's dot shows.
#[derive(Debug, Clone, Copy, PartialEq, Eq, Structural)]
pub enum HeaderStatus {
    Error,
    Starting,
    Connected,
    WaitingForPlugin,
}

/// What the header shows in place of the URL.
pub enum UrlBadge {
    Url(String),
    Restarting,
    Starting,
}

impl UiSnapshot {
    /// An error wins; before the tunnel is ready the bridge is starting; then the
    /// plugin is connected or awaited.
    pub fn header_status(&self) -> (r: HeaderStatus)
        ensures
            r == (if self.error is Some {
                HeaderStatus::Error
            } else if !self.ready {
                HeaderStatus::Starting
            } else if self.plugin_online {
                HeaderStatus::Connected
            } else {
                HeaderStatus::WaitingForPlugin
            }),
    {
        if self.error.is_some() {
            HeaderStatus::Error
        } else if !self.ready {
            HeaderStatus::Starting
        } else if self.plugin_online {
            HeaderStatus::Connected
        } else {
            HeaderStatus::WaitingForPlugin
        }
    }

    /// The URL when there is one; without one, a ready bridge is restarting its
    /// tunnel and any other is still starting.
    pub fn url_badge(&self) -> (r: UrlBadge)
        ensures
            self.tunnel_url matches Some(u) ==> (r matches UrlBadge::Url(v) && v@ == u@),
            self.tunnel_url is None && self.ready ==> r is Restarting,
            self.tunnel_url is None && !self.ready ==> r is Starting,
    {
        match &self.tunnel_url {
            Some(u) => UrlBadge::Url(u.clone()),
            None => if self.ready {
                UrlBadge::Restarting
            } else {
                UrlBadge::Starting
            },
        }
    }
}

/// The two local servers.
#[derive(Debug, Clone, Copy, PartialEq, Eq, Structural)]
pub enum Server {
    Bridge,
    Mcp,
}

/// The label a server's log lines start with.
pub open spec fn server_label(server: Server) -> Seq<char> {
    match server {
        Server::Bridge => "Bridge server  localhost:"@,
        Server::Mcp => "MCP server     localhost:"@,
    }
}

/// The text announcing that `server` listens on `port`.
pub fn server_started_text(server: Server, port: u16) -> (r: String)
    ensures
        r@ == server_label(server) + decimal(port as nat),
{
    let label = match server {
        Server::Bridge => "Bridge server  localhost:",
        Server::Mcp => "MCP server     localhost:",
    };
    String::from_str(label).concat(decimal_string(port as u64).as_str())
}

/// The text reporting that `server` stopped with `error`.
pub fn server_error_text(server: Server, error: &str) -> (r: String)
    ensures
        r@ == (match server {
            Server::Bridge => "Bridge error: "@,
            Server::Mcp => "MCP error: "@,
        }) + error@,
{
    let label = match server {
        Server::Bridge => "Bridge error: ",
        Server::Mcp => "MCP error: ",
    };
    String::from_str(label).concat(error)
}

} // verus!
