//! Reading the public URL of a Cloudflare quick tunnel out of `cloudflared`'s output.

use vstd::prelude::*;
use crate::config::Config;
use crate::text::{
    lemma_find_from, occurs_at, starts_with, contains_chars, decimal, decimal_string, ends_with, ends_with_chars, find_chars, is_whitespace,
    spec_contains, spec_find, spec_is_whitespace, subrange_chars, to_chars,
};

verus! {

/// The scheme that starts every tunnel URL.
pub open spec fn https_scheme() -> Seq<char> {
    seq!['h', 't', 't', 'p', 's', ':', '/', '/']
}

/// The host suffix of every quick-tunnel URL.
pub open spec fn quick_tunnel_suffix() -> Seq<char> {
    seq![
        '.', 't', 'r', 'y', 'c', 'l', 'o', 'u', 'd', 'f', 'l', 'a', 'r', 'e', '.', 'c', 'o', 'm',
    ]
}

/// A character that ends a URL inside a log line.
pub open spec fn is_url_terminator(c: char) -> bool {
    spec_is_whitespace(c) || c == '|' || c == '"' || c == ')' || c == '>'
}

/// Position of the first URL terminator in `s` at or after `k`, or `s.len()` if none.
pub open spec fn url_end_from(s: Seq<char>, k: int) -> int
    decreases s.len() - k,
{
    if k < 0 || k >= s.len() {
        s.len() as int
    } else if is_url_terminator(s[k]) {
        k
    } else {
        url_end_from(s, k + 1)
    }
}

/// The tunnel URL that a line of `cloudflared` output announces: the text from the
/// first `https://` up to the first terminator, kept only if it ends in
/// `.trycloudflare.com`.
pub open spec fn spec_extract_tunnel_url(line: Seq<char>) -> Option<Seq<char>> {
    match spec_find(line, https_scheme()) {
        None => None,
        Some(start) => {
            let rest = line.subrange(start, line.len() as int);
            let url = rest.subrange(0, url_end_from(rest, 0));
            if ends_with(url, quick_tunnel_suffix()) {
                Some(url)
            } else {
                None
            }
        },
    }
}

proof fn lemma_url_end_bounds(s: Seq<char>, k: int)
    requires
        0 <= k <= s.len(),
    ensures
        k <= url_end_from(s, k) <= s.len(),
        forall|j: int| k <= j < url_end_from(s, k) ==> !is_url_terminator(#[trigger] s[j]),
    decreases s.len() - k,
{
    if k < s.len() && !is_url_terminator(s[k]) {
        lemma_url_end_bounds(s, k + 1);
    }
}

fn scheme_chars() -> (v: Vec<char>)
    ensures
        v@ == https_scheme(),
{
    let v = vec!['h', 't', 't', 'p', 's', ':', '/', '/'];
    assert(v@ =~= https_scheme());
    v
}

fn suffix_chars() -> (v: Vec<char>)
    ensures
        v@ == quick_tunnel_suffix(),
{
    let v = vec![
        '.', 't', 'r', 'y', 'c', 'l', 'o', 'u', 'd', 'f', 'l', 'a', 'r', 'e', '.', 'c', 'o', 'm',
    ];
    assert(v@ =~= quick_tunnel_suffix());
    v
}

fn is_terminator(c: char) -> (r: bool)
    ensures
        r == is_url_terminator(c),
{
    is_whitespace(c) || c == '|' || c == '"' || c == ')' || c == '>'
}

/// Returns the quick-tunnel URL announced in `line`, if any.
pub fn extract_tunnel_url(line: &str) -> (r: Option<String>)
    ensures
        r matches Some(u) ==> spec_extract_tunnel_url(line@) == Some(u@),
        r is None ==> spec_extract_tunnel_url(line@) is None,
{
    let chars = to_chars(line);
    let scheme = scheme_chars();
    let start = match find_chars(chars.as_slice(), scheme.as_slice()) {
        None => return None,
        Some(s) => s,
    };
    let ghost rest = line@.subrange(start as int, line@.len() as int);
    let n = chars.len();
    let mut end = start;
    while end < n && !is_terminator(chars[end])
        invariant
            n == line@.len(),
            chars@ == line@,
            start <= end <= n,
            url_end_from(rest, 0) == url_end_from(rest, end - start),
            rest == line@.subrange(start as int, n as int),
        decreases n - end,
    {
        end = end + 1;
    }
    assert(url_end_from(rest, 0) == end - start);
    let url_chars = subrange_chars(chars.as_slice(), start, end);
    proof {
        assert(url_chars@ =~= rest.subrange(0, url_end_from(rest, 0)));
    }
    if ends_with_chars(url_chars.as_slice(), suffix_chars().as_slice()) {
        let url = String::from_str(line.substring_char(start, end));
        assert(url@ =~= rest.subrange(0, url_end_from(rest, 0)));
        Some(url)
    } else {
        None
    }
}

/// What a line that `cloudflared` writes to its error stream means while the
/// tunnel starts.
pub enum StderrLine {
    /// The line announces the tunnel's URL.
    Url(String),
    /// The line reports a failure or an error (worth a warning).
    Warn,
    /// Anything else.
    Quiet,
}

/// Reads one line of `cloudflared`'s error stream: the URL it announces, else
/// whether it mentions `failed` or `error`.
pub fn scan_stderr_line(line: &str) -> (r: StderrLine)
    ensures
        spec_extract_tunnel_url(line@) matches Some(u) ==> (r matches StderrLine::Url(v) && v@
            == u),
        spec_extract_tunnel_url(line@) is None ==> (r is Warn <==> (spec_contains(
            line@,
            "failed"@,
        ) || spec_contains(line@, "error"@))),
        spec_extract_tunnel_url(line@) is None ==> !(r is Url),
{
    match extract_tunnel_url(line) {
        Some(u) => StderrLine::Url(u),
        None => {
            let chars = to_chars(line);
            if contains_chars(chars.as_slice(), to_chars("failed").as_slice()) || contains_chars(
                chars.as_slice(),
                to_chars("error").as_slice(),
            ) {
                StderrLine::Warn
            } else {
                StderrLine::Quiet
            }
        },
    }
}

/// The text shown for a named tunnel, whose URL is configured elsewhere.
pub open spec fn named_tunnel_url() -> Seq<char> {
    "(named tunnel — xem dashboard.cloudflare.com)"@
}

/// How `cloudflared` is started.
pub enum TunnelPlan {
    /// A named tunnel run with its token; its URL is not known here.
    Named { args: Vec<String>, url: String },
    /// A quick tunnel to the local MCP port; its URL is read from the output.
    Quick { args: Vec<String> },
}

/// The texts of a list of strings.
pub open spec fn texts(v: Seq<String>) -> Seq<Seq<char>> {
    v.map_values(|s: String| s@)
}

/// The arguments of a quick tunnel to `http://localhost:PORT`.
pub open spec fn spec_quick_args(port: u16) -> Seq<Seq<char>> {
    seq!["tunnel"@, "--no-autoupdate"@, "--url"@, "http://localhost:"@ + decimal(port as nat)]
}

/// The arguments of a named tunnel run with `token`.
pub open spec fn spec_named_args(token: Seq<char>) -> Seq<Seq<char>> {
    seq!["tunnel"@, "--no-autoupdate"@, "run"@, "--token"@, token]
}

/// The command-line arguments of a quick tunnel to the local `port`.
pub fn quick_tunnel_args(port: u16) -> (r: Vec<String>)
    ensures
        texts(r@) == spec_quick_args(port),
{
    let mut v: Vec<String> = Vec::new();
    v.push(String::from_str("tunnel"));
    v.push(String::from_str("--no-autoupdate"));
    v.push(String::from_str("--url"));
    v.push(String::from_str("http://localhost:").concat(decimal_string(port as u64).as_str()));
    assert(texts(v@) =~= spec_quick_args(port));
    v
}

/// The command-line arguments of a named tunnel run with `token`.
pub fn named_tunnel_args(token: &str) -> (r: Vec<String>)
    ensures
        texts(r@) == spec_named_args(token@),
{
    let mut v: Vec<String> = Vec::new();
    v.push(String::from_str("tunnel"));
    v.push(String::from_str("--no-autoupdate"));
    v.push(String::from_str("run"));
    v.push(String::from_str("--token"));
    v.push(String::from_str(token));
    assert(texts(v@) =~= spec_named_args(token@));
    v
}

/// A named tunnel when the configuration has a token, else a quick tunnel to the
/// MCP port.
pub fn tunnel_plan(config: &Config) -> (r: TunnelPlan)
    ensures
        config.cf_tunnel_token matches Some(t) ==> (r matches TunnelPlan::Named { args, url }
            && texts(args@) == spec_named_args(t@) && url@ == named_tunnel_url()),
        config.cf_tunnel_token is None ==> (r matches TunnelPlan::Quick { args } && texts(args@)
            == spec_quick_args(config.mcp_port)),
{
    match &config.cf_tunnel_token {
        Some(t) => TunnelPlan::Named {
            args: named_tunnel_args(t.as_str()),
            url: String::from_str("(named tunnel — xem dashboard.cloudflare.com)"),
        },
        None => TunnelPlan::Quick { args: quick_tunnel_args(config.mcp_port) },
    }
}

/// Every URL read from `cloudflared`'s output is a piece of the line that starts
/// with `https://`, ends with `.trycloudflare.com` and holds no white space, `|`,
/// `"`, `)` or `>`.
pub proof fn law_tunnel_url_shape(line: Seq<char>)
    ensures
        spec_extract_tunnel_url(line) matches Some(url) ==> {
            &&& starts_with(url, https_scheme())
            &&& ends_with(url, quick_tunnel_suffix())
            &&& forall|i: int| 0 <= i < url.len() ==> !is_url_terminator(#[trigger] url[i])
            &&& exists|start: int| occurs_at(line, url, start)
        },
        spec_find(line, https_scheme()) is None ==> spec_extract_tunnel_url(line) is None,
{
    lemma_find_from(line, https_scheme(), 0);
    if let Some(url) = spec_extract_tunnel_url(line) {
        let start = spec_find(line, https_scheme())->0;
        let rest = line.subrange(start, line.len() as int);
        let end = url_end_from(rest, 0);
        lemma_url_end_bounds(rest, 0);
        assert(url == rest.subrange(0, end));
        assert forall|i: int| 0 <= i < url.len() implies !is_url_terminator(#[trigger] url[i]) by {
            assert(url[i] == rest[i]);
        }
        // A terminator never occurs inside `https://`, so the URL keeps the whole scheme.
        assert(occurs_at(line, https_scheme(), start));
        assert forall|i: int| 0 <= i < 8 implies !is_url_terminator(#[trigger] rest[i]) by {
            assert(rest[i] == line.subrange(start, start + 8)[i]);
        }
        if end < 8 {
            assert(!is_url_terminator(rest[end]));
        }
        assert(url.subrange(0, 8) =~= https_scheme());
        assert(line.subrange(start, start + url.len()) =~= url);
        assert(occurs_at(line, url, start));
    }
}

/// A character that may appear in a quick-tunnel host name: an ASCII letter or
/// digit, `-` or `.`.
pub open spec fn is_host_char(c: char) -> bool {
    ||| 'a' <= c <= 'z'
    ||| 'A' <= c <= 'Z'
    ||| '0' <= c <= '9'
    ||| c == '-'
    ||| c == '.'
}

proof fn lemma_url_end_at(s: Seq<char>, k: int, e: int)
    requires
        0 <= k <= e <= s.len(),
        forall|j: int| k <= j < e ==> !is_url_terminator(#[trigger] s[j]),
        e == s.len() || is_url_terminator(s[e]),
    ensures
        url_end_from(s, k) == e,
    decreases e - k,
{
    if k < e {
        lemma_url_end_at(s, k + 1, e);
    }
}

proof fn lemma_scheme_first_after(p: Seq<char>, rest: Seq<char>)
    requires
        spec_find(p, https_scheme()) is None,
        starts_with(rest, https_scheme()),
    ensures
        spec_find(p + rest, https_scheme()) == Some(p.len() as int),
{
    let scheme = https_scheme();
    let line = p + rest;
    let n = p.len() as int;
    assert(line.subrange(n, n + 8) =~= rest.subrange(0, 8));
    assert(occurs_at(line, scheme, n));
    lemma_find_from(p, scheme, 0);
    assert forall|j: int| 0 <= j < n implies !occurs_at(line, scheme, j) by {
        if j + 8 <= n {
            assert(line.subrange(j, j + 8) =~= p.subrange(j, j + 8));
            assert(!occurs_at(p, scheme, j));
        } else if occurs_at(line, scheme, j) {
            // The `h` that starts the scheme at `n` would sit inside `ttps://`.
            let k = n - j;
            assert(line[n] == rest[0]);
            assert(rest[0] == rest.subrange(0, 8)[0]);
            assert(line.subrange(j, j + 8)[k] == line[n]);
            assert(1 <= k < 8);
            assert(scheme[1] != 'h' && scheme[2] != 'h' && scheme[3] != 'h' && scheme[4] != 'h'
                && scheme[5] != 'h' && scheme[6] != 'h' && scheme[7] != 'h');
            assert(scheme[k] != 'h');
        }
    }
    lemma_find_from(line, scheme, 0);
}

proof fn lemma_host_char_not_terminator(c: char)
    requires
        is_host_char(c),
    ensures
        !is_url_terminator(c),
{
}

proof fn lemma_url_body_has_no_terminator(h: Seq<char>)
    requires
        forall|i: int| 0 <= i < h.len() ==> is_host_char(#[trigger] h[i]),
    ensures
        forall|j: int|
            0 <= j < (https_scheme() + h + quick_tunnel_suffix()).len() ==> !is_url_terminator(
                #[trigger] (https_scheme() + h + quick_tunnel_suffix())[j],
            ),
{
    let scheme = https_scheme();
    let suffix = quick_tunnel_suffix();
    let body = scheme + h + suffix;
    assert forall|j: int| 0 <= j < body.len() implies !is_url_terminator(#[trigger] body[j]) by {
        if j < 8 {
            assert(body[j] == scheme[j]);
        } else if j < 8 + h.len() {
            assert(body[j] == h[j - 8]);
            lemma_host_char_not_terminator(h[j - 8]);
        } else {
            assert(body[j] == suffix[j - 8 - h.len()]);
        }
    }
}

/// Every quick-tunnel URL that `cloudflared` announces is found whole: in a line
/// `P + "https://" + H + ".trycloudflare.com" + T`, where `P` holds no `https://`,
/// the host `H` is a non-empty run of ASCII letters, digits, `-` and `.`, and `T`
/// is empty or starts with white space, `|`, `"`, `)` or `>`, the URL read is
/// exactly `"https://" + H + ".trycloudflare.com"`.
pub proof fn law_quick_tunnel_url_found(p: Seq<char>, h: Seq<char>, t: Seq<char>)
    requires
        spec_find(p, "https://"@) is None,
        h.len() > 0,
        forall|i: int| 0 <= i < h.len() ==> is_host_char(#[trigger] h[i]),
        t.len() == 0 || spec_is_whitespace(t[0]) || t[0] == '|' || t[0] == '"' || t[0] == ')'
            || t[0] == '>',
    ensures
        spec_extract_tunnel_url(p + "https://"@ + h + ".trycloudflare.com"@ + t) == Some(
            "https://"@ + h + ".trycloudflare.com"@,
        ),
{
    reveal_strlit("https://");
    reveal_strlit(".trycloudflare.com");
    let scheme = https_scheme();
    let suffix = quick_tunnel_suffix();
    assert("https://"@ =~= scheme);
    assert(".trycloudflare.com"@ =~= suffix);
    let body = scheme + h + suffix;
    let rest = body + t;
    let line = p + rest;
    assert(p + "https://"@ + h + ".trycloudflare.com"@ + t =~= line);
    assert(rest.subrange(0, 8) =~= scheme);
    lemma_scheme_first_after(p, rest);
    let n = p.len() as int;
    assert(line.subrange(n, line.len() as int) =~= rest);
    let e = body.len() as int;
    lemma_url_body_has_no_terminator(h);
    assert forall|j: int| 0 <= j < e implies !is_url_terminator(#[trigger] rest[j]) by {
        assert(rest[j] == body[j]);
    }
    if t.len() > 0 {
        assert(rest[e] == t[0]);
    }
    lemma_url_end_at(rest, 0, e);
    assert(rest.subrange(0, e) =~= body);
    assert(body.subrange(body.len() - suffix.len(), body.len() as int) =~= suffix);
}

/// Seconds a quick tunnel waits after `cloudflared` exits before it starts again.
pub const RESTART_DELAY_SECS: u64 = 3;

/// What happens to a running quick tunnel.
pub enum TunnelEvent {
    /// `cloudflared` exited (or could not be waited for).
    Exited,
    /// A new `cloudflared` started and announced this URL.
    Respawned(String),
    /// A new `cloudflared` could not be started or announced no URL.
    RespawnFailed,
}

/// What the supervisor of a quick tunnel does next, in order.
pub enum TunnelAction {
    /// Tell the window the current URL (`None`: the tunnel is down).
    Publish(Option<String>),
    /// Sleep this many seconds.
    WaitSecs(u64),
    /// Start `cloudflared` again and wait for its URL.
    Respawn,
    /// Give up supervising.
    Stop,
}

/// The mathematical form of a supervisor action.
pub enum ActionSpec {
    Publish(Option<Seq<char>>),
    WaitSecs(u64),
    Respawn,
    Stop,
}

impl View for TunnelAction {
    type V = ActionSpec;

    open spec fn view(&self) -> ActionSpec {
        match self {
            TunnelAction::Publish(u) => ActionSpec::Publish(
                match u {
                    Some(s) => Some(s@),
                    None => None,
                },
            ),
            TunnelAction::WaitSecs(n) => ActionSpec::WaitSecs(*n),
            TunnelAction::Respawn => ActionSpec::Respawn,
            TunnelAction::Stop => ActionSpec::Stop,
        }
    }
}

/// The supervisor's answer to each event: after an exit the tunnel is reported
/// down, and after a pause it is started again; a restarted tunnel's URL is
/// reported; a failed restart ends the supervision.
pub open spec fn spec_quick_tunnel_step(event: TunnelEvent) -> Seq<ActionSpec> {
    match event {
        TunnelEvent::Exited => seq![
            ActionSpec::Publish(None),
            ActionSpec::WaitSecs(RESTART_DELAY_SECS),
            ActionSpec::Respawn,
        ],
        TunnelEvent::Respawned(u) => seq![ActionSpec::Publish(Some(u@))],
        TunnelEvent::RespawnFailed => seq![ActionSpec::Stop],
    }
}

/// The actions with which a quick tunnel's supervisor answers `event`.
pub fn quick_tunnel_step(event: &TunnelEvent) -> (r: Vec<TunnelAction>)
    ensures
        r@.map_values(|a: TunnelAction| a@) == spec_quick_tunnel_step(*event),
{
    let mut r: Vec<TunnelAction> = Vec::new();
    match event {
        TunnelEvent::Exited => {
            r.push(TunnelAction::Publish(None));
            r.push(TunnelAction::WaitSecs(RESTART_DELAY_SECS));
            r.push(TunnelAction::Respawn);
        },
        TunnelEvent::Respawned(u) => {
            r.push(TunnelAction::Publish(Some(u.clone())));
        },
        TunnelEvent::RespawnFailed => {
            r.push(TunnelAction::Stop);
        },
    }
    assert(r@.map_values(|a: TunnelAction| a@) =~= spec_quick_tunnel_step(*event));
    r
}

} // verus!
