//! The command queue between MCP clients and the Roblox Studio plugin.
//!
//! A tool call registers a waiter under a fresh id and leaves one pending
//! command for the plugin; the plugin polls for it, runs it and posts a result
//! that is handed to the waiter with the same id.  The plugin counts as online
//! while it has been seen within the last `OFFLINE_TIMEOUT_SECS` seconds.

use vstd::prelude::*;

verus! {

/// What the plugin is asked to do.
#[derive(Debug)]
pub enum CommandKind {
    RunCode { code: String },
    GetInstances { path: String },
    InsertPart { name: String, parent: String },
    GetScripts {},
    Snapshot {},
    BatchRun { codes: Vec<String> },
}

/// The mathematical form of a command.
pub enum CommandSpec {
    RunCode(Seq<char>),
    GetInstances(Seq<char>),
    InsertPart(Seq<char>, Seq<char>),
    GetScripts,
    Snapshot,
    BatchRun(Seq<Seq<char>>),
}

impl View for CommandKind {
    type V = CommandSpec;

    open spec fn view(&self) -> CommandSpec {
        match self {
            CommandKind::RunCode { code } => CommandSpec::RunCode(code@),
            CommandKind::GetInstances { path } => CommandSpec::GetInstances(path@),
            CommandKind::InsertPart { name, parent } => CommandSpec::InsertPart(name@, parent@),
            CommandKind::GetScripts {  } => CommandSpec::GetScripts,
            CommandKind::Snapshot {  } => CommandSpec::Snapshot,
            CommandKind::BatchRun { codes } => CommandSpec::BatchRun(
                codes@.map_values(|c: String| c@),
            ),
        }
    }
}

/// A command waiting to be fetched by the plugin, with the id its result will carry.
#[derive(Debug)]
pub struct PendingCommand {
    pub id: String,
    pub kind: CommandKind,
}

/// What the plugin posts back after running a command.
#[derive(Debug)]
pub struct CommandResult {
    pub id: String,
    pub output: String,
    pub success: bool,
}

/// The plugin counts as offline once it has not been seen for this many seconds.
pub const OFFLINE_TIMEOUT_SECS: u64 = 15;

/// Seconds since the Unix epoch, as the system clock reads now.
#[verifier::external_body]
pub fn now_secs() -> u64 {
    std::time::SystemTime::now().duration_since(std::time::UNIX_EPOCH).unwrap_or_default().as_secs()
}

/// Whether a plugin last seen at `last_seen` (0: never) counts as online at `now`.
pub open spec fn spec_online(now: u64, last_seen: u64) -> bool {
    let elapsed = if now >= last_seen {
        now - last_seen
    } else {
        0
    };
    elapsed < OFFLINE_TIMEOUT_SECS && last_seen != 0
}

/// The waiters of a queue as a map from command id to the handle that awaits its result.
pub open spec fn waiter_map<W>(s: Seq<(String, W)>) -> Map<Seq<char>, W>
    decreases s.len(),
{
    if s.len() == 0 {
        Map::empty()
    } else {
        waiter_map(s.drop_last()).insert(s.last().0@, s.last().1)
    }
}

/// No two waiters share an id.
pub open spec fn distinct_ids<W>(s: Seq<(String, W)>) -> bool {
    forall|i: int, j: int| 0 <= i < j < s.len() ==> s[i].0@ != s[j].0@
}

/// The abstract state of a command queue.
pub struct BridgeModel<W> {
    /// The one command the plugin will receive on its next poll.
    pub pending: Option<PendingCommand>,
    /// Result handles, by command id.
    pub waiters: Map<Seq<char>, W>,
    pub plugin_online: bool,
    /// When the plugin was last seen (0: never).
    pub last_seen_secs: u64,
}

impl<W> BridgeModel<W> {
    /// A tool call: its waiter is registered and its command replaces any pending one.
    pub open spec fn register(self, cmd: PendingCommand, handle: W) -> Self {
        BridgeModel {
            pending: Some(cmd),
            waiters: self.waiters.insert(cmd.id@, handle),
            ..self
        }
    }

    /// A poll takes the pending command out.
    pub open spec fn after_take(self) -> Self {
        BridgeModel { pending: None, ..self }
    }

    /// A result for `id` removes that waiter.
    pub open spec fn after_complete(self, id: Seq<char>) -> Self {
        BridgeModel { waiters: self.waiters.remove(id), ..self }
    }

    /// A timed-out call drops its waiter and whatever command is pending.
    pub open spec fn abandon(self, id: Seq<char>) -> Self {
        BridgeModel { pending: None, waiters: self.waiters.remove(id), ..self }
    }

    /// The plugin shows up at time `now`.
    pub open spec fn touch(self, now: u64) -> Self {
        BridgeModel { plugin_online: true, last_seen_secs: now, ..self }
    }

    /// The online flag is recomputed at time `now`.
    pub open spec fn refresh(self, now: u64) -> Self {
        BridgeModel { plugin_online: spec_online(now, self.last_seen_secs), ..self }
    }
}

/// A registered call gets exactly one result: the result for its id reaches the
/// handle it registered, even when other calls registered meanwhile, and a second
/// result for the same id finds no waiter.
pub proof fn law_result_reaches_its_caller<W>(
    m: BridgeModel<W>,
    cmd: PendingCommand,
    handle: W,
    others: Seq<(PendingCommand, W)>,
)
    requires
        forall|i: int| 0 <= i < others.len() ==> (#[trigger] others[i]).0.id@ != cmd.id@,
    ensures
        ({
            let after = register_all(m.register(cmd, handle), others);
            &&& after.waiters.dom().contains(cmd.id@)
            &&& after.waiters[cmd.id@] == handle
            &&& !after.after_complete(cmd.id@).waiters.dom().contains(cmd.id@)
        }),
    decreases others.len(),
{
    if others.len() > 0 {
        law_result_reaches_its_caller(m, cmd, handle, others.drop_last());
    }
}

/// The queue after the calls in `calls` registered, in order.
pub open spec fn register_all<W>(m: BridgeModel<W>, calls: Seq<(PendingCommand, W)>) -> BridgeModel<W>
    decreases calls.len(),
{
    if calls.len() == 0 {
        m
    } else {
        register_all(m, calls.drop_last()).register(calls.last().0, calls.last().1)
    }
}

/// A poll hands out the command registered last, once: the next poll finds nothing.
pub proof fn law_poll_delivers_latest_once<W>(
    m: BridgeModel<W>,
    first: PendingCommand,
    h1: W,
    second: PendingCommand,
    h2: W,
)
    ensures
        m.register(first, h1).register(second, h2).pending == Some(second),
        m.register(second, h2).after_take().pending is None,
{
}

/// A poll only takes the pending command: every waiter stays where it was, so the
/// call whose command the plugin fetched still receives the result posted for it.
pub proof fn law_poll_keeps_waiters<W>(m: BridgeModel<W>, cmd: PendingCommand, handle: W)
    ensures
        m.after_take().waiters == m.waiters,
        m.after_take().plugin_online == m.plugin_online,
        m.after_take().last_seen_secs == m.last_seen_secs,
        ({
            let polled = m.register(cmd, handle).after_take();
            &&& polled.waiters.dom().contains(cmd.id@)
            &&& polled.waiters[cmd.id@] == handle
        }),
{
}

/// A call that timed out leaves no waiter behind and no command pending.
pub proof fn law_abandoned_call_is_gone<W>(m: BridgeModel<W>, cmd: PendingCommand, handle: W)
    ensures
        !m.register(cmd, handle).abandon(cmd.id@).waiters.dom().contains(cmd.id@),
        m.register(cmd, handle).abandon(cmd.id@).pending is None,
{
}

/// The plugin counts as online from the moment it is seen until fifteen seconds
/// later; a plugin never seen is offline.
pub proof fn law_online_window<W>(m: BridgeModel<W>, seen: u64, now: u64)
    ensures
        m.touch(seen).plugin_online,
        m.touch(seen).refresh(now).plugin_online <==> (seen != 0 && now < seen + OFFLINE_TIMEOUT_SECS),
        m.last_seen_secs == 0 ==> !m.refresh(now).plugin_online,
{
}

/// Outcome of waiting for the plugin's answer to one command.
pub enum CommandOutcome {
    /// The plugin posted a result.
    Answered(CommandResult),
    /// The waiter was dropped before any result arrived.
    ChannelClosed,
    /// No result within the waiting time.
    TimedOut,
}

/// The answer that a tool call gets from the plugin: its output, or an error message.
pub open spec fn spec_command_reply(outcome: CommandOutcome) -> Result<Seq<char>, Seq<char>> {
    match outcome {
        CommandOutcome::Answered(r) => if r.success {
            Ok(r.output@)
        } else {
            Err("Studio error: "@ + r.output@)
        },
        CommandOutcome::ChannelClosed => Err("Channel closed unexpectedly"@),
        CommandOutcome::TimedOut => Err("Timeout: Studio plugin không phản hồi trong 30s"@),
    }
}

/// Turns the outcome of waiting for the plugin into the call's answer: the output of
/// a successful run, otherwise an error message.
pub fn command_reply(outcome: CommandOutcome) -> (r: Result<String, String>)
    ensures
        spec_command_reply(outcome) == (match r {
            Ok(s) => Ok::<Seq<char>, Seq<char>>(s@),
            Err(e) => Err::<Seq<char>, Seq<char>>(e@),
        }),
{
    match outcome {
        CommandOutcome::Answered(r) => if r.success {
            Ok(r.output)
        } else {
            Err(String::from_str("Studio error: ").concat(r.output.as_str()))
        },
        CommandOutcome::ChannelClosed => Err(String::from_str("Channel closed unexpectedly")),
        CommandOutcome::TimedOut => Err(
            String::from_str("Timeout: Studio plugin không phản hồi trong 30s"),
        ),
    }
}

/// The command queue.  `W` is the handle through which a result reaches its caller.
pub struct BridgeState<W> {
    pending: Option<PendingCommand>,
    waiters: Vec<(String, W)>,
    plugin_online: bool,
    last_seen_secs: u64,
}

impl<W> View for BridgeState<W> {
    type V = BridgeModel<W>;

    closed spec fn view(&self) -> BridgeModel<W> {
        BridgeModel {
            pending: self.pending,
            waiters: waiter_map(self.waiters@),
            plugin_online: self.plugin_online,
            last_seen_secs: self.last_seen_secs,
        }
    }
}

proof fn lemma_waiter_map_dom<W>(s: Seq<(String, W)>, k: Seq<char>)
    ensures
        waiter_map(s).dom().contains(k) <==> exists|i: int| 0 <= i < s.len() && s[i].0@ == k,
    decreases s.len(),
{
    if s.len() > 0 {
        lemma_waiter_map_dom(s.drop_last(), k);
        if waiter_map(s).dom().contains(k) && k != s.last().0@ {
            let i = choose|i: int| 0 <= i < s.drop_last().len() && s.drop_last()[i].0@ == k;
            assert(s[i].0@ == k);
        }
        if exists|i: int| 0 <= i < s.len() && s[i].0@ == k {
            let i = choose|i: int| 0 <= i < s.len() && s[i].0@ == k;
            if i < s.len() - 1 {
                assert(s.drop_last()[i].0@ == k);
            }
        }
    }
}

proof fn lemma_waiter_map_at<W>(s: Seq<(String, W)>, i: int)
    requires
        distinct_ids(s),
        0 <= i < s.len(),
    ensures
        waiter_map(s).dom().contains(s[i].0@),
        waiter_map(s)[s[i].0@] == s[i].1,
    decreases s.len(),
{
    if i < s.len() - 1 {
        assert(s.drop_last()[i] == s[i]);
        assert(distinct_ids(s.drop_last()));
        lemma_waiter_map_at(s.drop_last(), i);
    }
}

proof fn lemma_waiter_map_remove<W>(s: Seq<(String, W)>, i: int)
    requires
        distinct_ids(s),
        0 <= i < s.len(),
    ensures
        waiter_map(s.remove(i)) =~= waiter_map(s).remove(s[i].0@),
        distinct_ids(s.remove(i)),
    decreases s.len(),
{
    let k = s[i].0@;
    if i == s.len() - 1 {
        assert(s.remove(i) =~= s.drop_last());
        lemma_waiter_map_dom(s.drop_last(), k);
        assert(!waiter_map(s.drop_last()).dom().contains(k));
    } else {
        let d = s.drop_last();
        assert(distinct_ids(d));
        assert(d[i] == s[i]);
        lemma_waiter_map_remove(d, i);
        assert(s.remove(i).drop_last() =~= d.remove(i));
        assert(s.remove(i).last() == s.last());
        assert(s.last().0@ != k);
    }
    assert forall|a: int, b: int| 0 <= a < b < s.remove(i).len() implies s.remove(i)[a].0@ != s.remove(
        i,
    )[b].0@ by {
        let a2 = if a < i { a } else { a + 1 };
        let b2 = if b < i { b } else { b + 1 };
        assert(s.remove(i)[a] == s[a2]);
        assert(s.remove(i)[b] == s[b2]);
    }
}

fn position<W>(ws: &Vec<(String, W)>, id: &String) -> (r: Option<usize>)
    ensures
        r matches Some(i) ==> i < ws@.len() && ws@[i as int].0@ == id@,
        r is None ==> !waiter_map(ws@).dom().contains(id@),
{
    let mut i: usize = 0;
    while i < ws.len()
        invariant
            i <= ws@.len(),
            forall|j: int| 0 <= j < i ==> ws@[j].0@ != id@,
        decreases ws@.len() - i,
    {
        if ws[i].0 == *id {
            return Some(i);
        }
        i = i + 1;
    }
    proof {
        lemma_waiter_map_dom(ws@, id@);
    }
    None
}

impl<W> BridgeState<W> {
    #[verifier::type_invariant]
    spec fn ids_distinct(self) -> bool {
        distinct_ids(self.waiters@)
    }

    /// An empty queue; the plugin has never been seen.
    pub fn new() -> (r: Self)
        ensures
            r@.pending is None,
            r@.waiters == Map::<Seq<char>, W>::empty(),
            !r@.plugin_online,
            r@.last_seen_secs == 0,
    {
        BridgeState { pending: None, waiters: Vec::new(), plugin_online: false, last_seen_secs: 0 }
    }

    /// Registers `handle` as the waiter for `cmd.id` and makes `cmd` the pending
    /// command.  A waiter already registered under that id is displaced and returned.
    pub fn register(&mut self, cmd: PendingCommand, handle: W) -> (displaced: Option<W>)
        ensures
            final(self)@ == old(self)@.register(cmd, handle),
            displaced == (if old(self)@.waiters.dom().contains(cmd.id@) {
                Some(old(self)@.waiters[cmd.id@])
            } else {
                None
            }),
    {
        proof {
            use_type_invariant(&*self);
        }
        let ghost old_model = self@;
        let mut ws: Vec<(String, W)> = Vec::new();
        std::mem::swap(&mut ws, &mut self.waiters);
        let displaced = match position(&ws, &cmd.id) {
            Some(i) => {
                proof {
                    lemma_waiter_map_at(ws@, i as int);
                    lemma_waiter_map_remove(ws@, i as int);
                }
                let (_, h) = ws.remove(i);
                Some(h)
            },
            None => None,
        };
        let ghost removed = ws@;
        assert(waiter_map(removed) =~= old_model.waiters.remove(cmd.id@));
        proof {
            lemma_waiter_map_dom(removed, cmd.id@);
        }
        let id = cmd.id.clone();
        ws.push((id, handle));
        assert(ws@.drop_last() =~= removed);
        assert(waiter_map(ws@) =~= old_model.waiters.insert(cmd.id@, handle));
        assert(distinct_ids(ws@));
        self.waiters = ws;
        self.pending = Some(cmd);
        displaced
    }

    /// Takes the pending command out, as a poll of the plugin does.
    pub fn take_pending(&mut self) -> (r: Option<PendingCommand>)
        ensures
            r == old(self)@.pending,
            final(self)@ == old(self)@.after_take(),
    {
        proof {
            use_type_invariant(&*self);
        }
        let mut p: Option<PendingCommand> = None;
        std::mem::swap(&mut p, &mut self.pending);
        p
    }

    /// Hands out the waiter registered for `id` and forgets it; `None` when no call
    /// waits for that id (a result that nobody awaits).
    pub fn complete(&mut self, id: &String) -> (r: Option<W>)
        ensures
            r == (if old(self)@.waiters.dom().contains(id@) {
                Some(old(self)@.waiters[id@])
            } else {
                None
            }),
            final(self)@ == old(self)@.after_complete(id@),
    {
        proof {
            use_type_invariant(&*self);
        }
        let ghost old_model = self@;
        let mut ws: Vec<(String, W)> = Vec::new();
        std::mem::swap(&mut ws, &mut self.waiters);
        let r = match position(&ws, id) {
            Some(i) => {
                proof {
                    lemma_waiter_map_at(ws@, i as int);
                    lemma_waiter_map_remove(ws@, i as int);
                }
                let (_, h) = ws.remove(i);
                Some(h)
            },
            None => {
                assert(old_model.waiters.remove(id@) =~= old_model.waiters);
                None
            },
        };
        self.waiters = ws;
        r
    }

    /// Gives up on the call with `id`: its waiter is dropped, and so is whatever
    /// command is still pending.
    pub fn abandon(&mut self, id: &String) -> (dropped: Option<W>)
        ensures
            final(self)@ == old(self)@.abandon(id@),
            dropped == (if old(self)@.waiters.dom().contains(id@) {
                Some(old(self)@.waiters[id@])
            } else {
                None
            }),
    {
        let dropped = self.complete(id);
        proof {
            use_type_invariant(&*self);
        }
        self.pending = None;
        dropped
    }

    /// Records that the plugin was seen at time `now`.
    pub fn touch_at(&mut self, now: u64)
        ensures
            final(self)@ == old(self)@.touch(now),
    {
        proof {
            use_type_invariant(&*self);
        }
        self.last_seen_secs = now;
        self.plugin_online = true;
    }

    /// Records that the plugin was seen just now.
    pub fn touch(&mut self)
        ensures
            final(self)@ == old(self)@.touch(final(self)@.last_seen_secs),
    {
        let now = now_secs();
        self.touch_at(now);
    }

    /// Recomputes the online flag at time `now`.
    pub fn refresh_online_status_at(&mut self, now: u64)
        ensures
            final(self)@ == old(self)@.refresh(now),
    {
        proof {
            use_type_invariant(&*self);
        }
        let elapsed = now.saturating_sub(self.last_seen_secs);
        self.plugin_online = elapsed < OFFLINE_TIMEOUT_SECS && self.last_seen_secs != 0;
    }

    /// Recomputes the online flag against the system clock.
    pub fn refresh_online_status(&mut self)
        ensures
            exists|now: u64| final(self)@ == #[trigger] old(self)@.refresh(now),
    {
        let now = now_secs();
        self.refresh_online_status_at(now);
    }

    /// Whether the plugin currently counts as online.
    pub fn is_plugin_online(&self) -> (r: bool)
        ensures
            r == self@.plugin_online,
    {
        self.plugin_online
    }
}

} // verus!
