//! The lifecycle of the local service: its status, the probe of its port, the
//! decisions of starting, watching and stopping it, and its capped log.

use vstd::prelude::*;
use crate::number::{decimal, decimal_string, parse_u32, parse_u32_range};
use crate::text::{
    chars_of, contains_seq, opt_view, trim, trim_range, Strip, copy_range, ends_with, line_bounds, lines, range_ends_with, range_equals, word_bounds,
    words,
};

verus! {

/// A first column that names TCP, in any ASCII case.
pub open spec fn is_tcp_word(w: Seq<char>) -> bool {
    &&& w.len() == 3
    &&& (w[0] == 't' || w[0] == 'T')
    &&& (w[1] == 'c' || w[1] == 'C')
    &&& (w[2] == 'p' || w[2] == 'P')
}

/// The state column of a listening socket.
pub open spec fn listening_word() -> Seq<char> {
    seq!['L', 'I', 'S', 'T', 'E', 'N', 'I', 'N', 'G']
}

/// The end of a local address on `port`: `:` and the port's numeral.
pub open spec fn port_suffix(port: u16) -> Seq<char> {
    seq![':'] + decimal(port as nat)
}

/// The process id that a line of `netstat -ano -p tcp` gives for a socket listening on
/// `port`: at least five columns, a TCP protocol, a local address ending in `:port`,
/// state `LISTENING`, and a numeric process id in the fifth column.
pub open spec fn listening_entry(line: Seq<char>, port: u16) -> Option<u32> {
    let cols = words(line);
    if cols.len() >= 5 && is_tcp_word(cols[0]) && cols[3] == listening_word() && ends_with(
        cols[1],
        port_suffix(port),
    ) {
        parse_u32(cols[4])
    } else {
        None
    }
}

/// The first process id that the `lines` give for `port`.
pub open spec fn first_listening(lines: Seq<Seq<char>>, port: u16) -> Option<u32>
    decreases lines.len(),
{
    if lines.len() == 0 {
        None
    } else if listening_entry(lines[0], port) is Some {
        listening_entry(lines[0], port)
    } else {
        first_listening(lines.drop_first(), port)
    }
}

fn is_tcp_range(v: &Vec<char>, lo: usize, hi: usize) -> (res: bool)
    requires
        lo <= hi <= v.len(),
    ensures
        res == is_tcp_word(v@.subrange(lo as int, hi as int)),
{
    hi - lo == 3 && (v[lo] == 't' || v[lo] == 'T') && (v[lo + 1] == 'c' || v[lo + 1] == 'C') && (
    v[lo + 2] == 'p' || v[lo + 2] == 'P')
}

fn listening_in_line(line: &Vec<char>, port: u16, state: &Vec<char>, suffix: &Vec<char>) -> (res:
    Option<u32>)
    requires
        state@ == listening_word(),
        suffix@ == port_suffix(port),
    ensures
        res == listening_entry(line@, port),
{
    let cols = word_bounds(line);
    if cols.len() < 5 {
        return None;
    }
    let (a0, b0) = cols[0];
    let (a1, b1) = cols[1];
    let (a3, b3) = cols[3];
    let (a4, b4) = cols[4];
    if is_tcp_range(line, a0, b0) && range_equals(line, a3, b3, state) && range_ends_with(
        line,
        a1,
        b1,
        suffix,
    ) {
        parse_u32_range(line, a4, b4)
    } else {
        None
    }
}

/// The process id listening on `port`, read from the output of `netstat -ano -p tcp`:
/// the first line that names it.
pub fn listening_pid(netstat_output: &str, port: u16) -> (res: Option<u32>)
    ensures
        res == first_listening(lines(netstat_output@), port),
{
    let v = chars_of(netstat_output);
    let state = chars_of("LISTENING");
    proof {
        reveal_strlit("LISTENING");
        assert(state@ =~= listening_word());
    }
    let mut needle = String::from_str(":");
    needle.append(decimal_string(port as u64).as_str());
    let suffix = chars_of(needle.as_str());
    proof {
        reveal_strlit(":");
        assert(suffix@ =~= port_suffix(port));
    }
    let bounds = line_bounds(&v);
    let ghost ls = lines(v@);
    let mut t: usize = 0;
    assert(ls.skip(0) =~= ls);
    while t < bounds.len()
        invariant
            t <= bounds@.len(),
            bounds@.len() == ls.len(),
            ls == lines(netstat_output@),
            v@ == netstat_output@,
            state@ == listening_word(),
            suffix@ == port_suffix(port),
            forall|u: int|
                0 <= u < bounds@.len() ==> {
                    &&& (#[trigger] bounds@[u]).0 <= bounds@[u].1 <= v@.len()
                    &&& v@.subrange(bounds@[u].0 as int, bounds@[u].1 as int) == ls[u]
                },
            first_listening(ls, port) == first_listening(ls.skip(t as int), port),
        decreases bounds@.len() - t,
    {
        let (a, b) = bounds[t];
        let line = copy_range(&v, a, b);
        let found = listening_in_line(&line, port, &state, &suffix);
        proof {
            assert(ls.skip(t as int)[0] == ls[t as int]);
            assert(ls.skip(t as int).drop_first() =~= ls.skip(t + 1));
        }
        if found.is_some() {
            return found;
        }
        t = t + 1;
    }
    proof {
        assert(ls.skip(t as int) =~= seq![]);
    }
    None
}

/// What a probe of the service's port found.
#[derive(Debug, PartialEq)]
pub enum Probe {
    /// The port answered with the service's page.
    Healthy,
    /// The port is open, but what answered is not the service.
    PortOpen,
    /// Nothing listens on the port.
    Closed,
    /// The probe itself failed, with the reason.
    Failed(String),
}

/// The marker that the service's page carries, which tells it apart from other
/// programs on the port.
pub open spec fn service_marker() -> Seq<char> {
    "__DSH_BOOT__"@
}

/// How many bytes of an answer a probe reads at most (it stops once it holds more).
pub const PROBE_READ_CAP: usize = 131_072;

/// Whether a probe that holds `len` bytes of the answer stops reading.
pub fn probe_read_done(len: usize) -> (res: bool)
    ensures
        res == (len > PROBE_READ_CAP),
{
    len > PROBE_READ_CAP
}

/// The HTTP request that a probe of `port` sends.
pub open spec fn probe_request_text(port: u16) -> Seq<char> {
    "GET / HTTP/1.0\r\nHost: 127.0.0.1:"@ + decimal(port as nat)
        + "\r\nConnection: close\r\n\r\n"@
}

/// The HTTP request that a probe of `port` sends.
pub fn probe_request(port: u16) -> (res: String)
    ensures
        res@ == probe_request_text(port),
{
    let mut s = String::from_str("GET / HTTP/1.0\r\nHost: 127.0.0.1:");
    s.append(decimal_string(port as u64).as_str());
    s.append("\r\nConnection: close\r\n\r\n");
    s
}

/// The outcome of a probe whose connection failed: a refused or timed-out connection
/// means nothing listens; any other error is a failure, with its text.
pub fn probe_connect_failed(refused_or_timed_out: bool, error_text: &str) -> (res: Probe)
    ensures
        refused_or_timed_out ==> res == Probe::Closed,
        !refused_or_timed_out ==> (res matches Probe::Failed(m) && m@ == "端口探测失败: "@
            + error_text@),
{
    if refused_or_timed_out {
        Probe::Closed
    } else {
        let mut m = String::from_str("端口探测失败: ");
        m.append(error_text);
        Probe::Failed(m)
    }
}

/// Whether `v[i..i + p.len()]` is `p`.
fn matches_at(v: &Vec<char>, i: usize, p: &Vec<char>) -> (res: bool)
    requires
        i + p.len() <= v.len(),
    ensures
        res == (v@.subrange(i as int, i + p.len()) == p@),
{
    range_equals(v, i, i + p.len(), p)
}

/// Whether `p` occurs in `v`.
pub fn contains_chars(v: &Vec<char>, p: &Vec<char>) -> (res: bool)
    ensures
        res == contains_seq(v@, p@),
{
    if p.len() > v.len() {
        return false;
    }
    let last = v.len() - p.len();
    let mut i: usize = 0;
    loop
        invariant
            i <= last,
            last + p.len() == v.len(),
            forall|j: int| 0 <= j < i ==> #[trigger] v@.subrange(j, j + p.len()) != p@,
        decreases last - i,
    {
        if matches_at(v, i, p) {
            return true;
        }
        if i == last {
            return false;
        }
        i = i + 1;
    }
}

/// The outcome of a probe that read `body` from the port: the service when the body
/// carries its marker, another program otherwise.
pub fn classify_answer(body: &str) -> (res: Probe)
    ensures
        contains_seq(body@, service_marker()) ==> res == Probe::Healthy,
        !contains_seq(body@, service_marker()) ==> res == Probe::PortOpen,
{
    let v = chars_of(body);
    let m = chars_of("__DSH_BOOT__");
    if contains_chars(&v, &m) {
        Probe::Healthy
    } else {
        Probe::PortOpen
    }
}

/// The status kinds of the service.
#[derive(Clone, Copy, Debug, PartialEq, Eq, Structural)]
pub enum DshKind {
    Stopped,
    Starting,
    Running,
    PortBusy,
    Error,
}

impl DshKind {
    /// The name of the kind as the pages know it.
    pub open spec fn text(self) -> Seq<char> {
        match self {
            DshKind::Stopped => "stopped"@,
            DshKind::Starting => "starting"@,
            DshKind::Running => "running"@,
            DshKind::PortBusy => "portBusy"@,
            DshKind::Error => "error"@,
        }
    }

    /// The name of the kind as the pages know it.
    pub fn as_str(&self) -> (res: &'static str)
        ensures
            res@ == self.text(),
    {
        match self {
            DshKind::Stopped => "stopped",
            DshKind::Starting => "starting",
            DshKind::Running => "running",
            DshKind::PortBusy => "portBusy",
            DshKind::Error => "error",
        }
    }
}

/// The status of the service that the pages show.
pub struct DshStatus {
    pub kind: String,
    pub pid: Option<u32>,
    pub port: u16,
    pub started_at: Option<u64>,
    pub version: Option<String>,
    pub message: Option<String>,
}

/// How many lines the service's log keeps.
pub const LOG_CAP: usize = 300;

/// The last `LOG_CAP` entries of `s`.
pub open spec fn capped<T>(s: Seq<T>) -> Seq<T> {
    if s.len() > LOG_CAP {
        s.skip(s.len() - LOG_CAP)
    } else {
        s
    }
}

/// The abstract state of the service: whether a child process is held, the status,
/// and the log.
pub struct DshModel {
    pub has_child: bool,
    pub kind: DshKind,
    pub pid: Option<u32>,
    pub started_at: Option<u64>,
    pub message: Option<Seq<char>>,
    pub log: Seq<Seq<char>>,
    pub version: Option<Seq<char>>,
}

/// `a`, or else `b`.
pub open spec fn or_else<T>(a: Option<T>, b: Option<T>) -> Option<T> {
    match a {
        Some(x) => Some(x),
        None => b,
    }
}

/// The message while the service starts.
pub open spec fn starting_text() -> Seq<char> {
    "正在启动…"@
}

/// The message when a refresh finds another program on `port`.
pub open spec fn port_taken_text(port: u16) -> Seq<char> {
    "端口 "@ + decimal(port as nat) + " 已被其他程序占用"@
}

/// The message when the start watch finds another program on `port`.
pub open spec fn port_busy_text(port: u16) -> Seq<char> {
    "端口 "@ + decimal(port as nat) + " 被其他程序占用"@
}

/// The error of a start refused because another program answers on `port`.
pub open spec fn port_refused_text(port: u16) -> Seq<char> {
    "端口 "@ + decimal(port as nat) + " 已被其他程序占用（响应不是 DSH）"@
}

/// The message when the started process has exited before it served.
pub open spec fn exited_text() -> Seq<char> {
    "进程已退出，请查看日志"@
}

impl DshModel {
    /// No process, stopped, empty log.
    pub open spec fn initial() -> DshModel {
        DshModel {
            has_child: false,
            kind: DshKind::Stopped,
            pid: None,
            started_at: None,
            message: None,
            log: seq![],
            version: None,
        }
    }

    /// The log holds at most `LOG_CAP` lines.
    pub open spec fn log_bounded(self) -> bool {
        self.log.len() <= LOG_CAP
    }

    /// A stopped service names no process and no start time.
    pub open spec fn stopped_is_idle(self) -> bool {
        self.kind == DshKind::Stopped ==> self.pid is None && self.started_at is None
    }

    /// A new status kind and message; stopping forgets the process id, the start
    /// time and the version.
    pub open spec fn with_kind(self, kind: DshKind, message: Option<Seq<char>>) -> DshModel {
        if kind == DshKind::Stopped {
            DshModel { kind, message, pid: None, started_at: None, version: None, ..self }
        } else {
            DshModel { kind, message, ..self }
        }
    }

    /// One more log line; the oldest lines beyond `LOG_CAP` go.
    pub open spec fn pushed(self, line: Seq<char>) -> DshModel {
        DshModel { log: capped(self.log.push(line)), ..self }
    }

    /// The held process has exited (when `exited` holds): it is dropped.
    pub open spec fn child_reaped(self, exited: bool) -> DshModel {
        if self.has_child && exited {
            DshModel { has_child: false, ..self }
        } else {
            self
        }
    }

    /// The state after a refresh that probed the port: `exited` tells whether the held
    /// process has exited, `listening` the process found listening on the port.
    pub open spec fn refreshed(
        self,
        exited: bool,
        probe: Probe,
        listening: Option<u32>,
        port: u16,
    ) -> DshModel {
        let s = if self.has_child && exited {
            DshModel { has_child: false, started_at: None, ..self }
        } else {
            self
        };
        match probe {
            Probe::Healthy => DshModel {
                kind: DshKind::Running,
                message: None,
                pid: or_else(listening, s.pid),
                ..s
            },
            Probe::PortOpen => DshModel {
                kind: DshKind::PortBusy,
                message: Some(port_taken_text(port)),
                pid: or_else(listening, s.pid),
                started_at: None,
                ..s
            },
            Probe::Closed => if !s.has_child {
                DshModel {
                    kind: DshKind::Stopped,
                    pid: None,
                    started_at: None,
                    message: None,
                    ..s
                }
            } else {
                DshModel { kind: DshKind::Starting, message: Some(starting_text()), ..s }
            },
            Probe::Failed(e) => DshModel { kind: DshKind::Error, message: Some(e@), ..s },
        }
    }

    /// A process was launched with `pid` at time `now`.
    pub open spec fn launched(self, pid: u32, now: u64) -> DshModel {
        DshModel {
            has_child: true,
            kind: DshKind::Starting,
            pid: Some(pid),
            started_at: Some(now),
            message: Some(starting_text()),
            ..self
        }
    }

    /// The stop began: the reason, if any, becomes the message.
    pub open spec fn stop_begun(self, reason: Option<Seq<char>>) -> DshModel {
        match reason {
            Some(r) => DshModel { message: Some(r), ..self },
            None => self,
        }
    }

    /// The process was stopped; the message is the reason, or none.
    pub open spec fn stopped(self, reason: Option<Seq<char>>) -> DshModel {
        DshModel {
            has_child: false,
            kind: DshKind::Stopped,
            pid: None,
            started_at: None,
            message: reason,
            ..self
        }
    }
}

/// The state of the service as the shell holds it; `C` is the handle of the child
/// process that the shell launched.
pub struct DshState<C> {
    pub child: Option<C>,
    pub kind: DshKind,
    pub pid: Option<u32>,
    pub started_at: Option<u64>,
    pub message: Option<String>,
    pub log: Vec<String>,
    pub version: Option<String>,
}

impl<C> View for DshState<C> {
    type V = DshModel;

    open spec fn view(&self) -> DshModel {
        DshModel {
            has_child: self.child is Some,
            kind: self.kind,
            pid: self.pid,
            started_at: self.started_at,
            message: opt_view(self.message),
            log: self.log@.map_values(|l: String| l@),
            version: opt_view(self.version),
        }
    }
}

/// A copy of an optional text.
pub fn clone_text(o: &Option<String>) -> (res: Option<String>)
    ensures
        opt_view(res) == opt_view(*o),
{
    match o {
        Some(s) => Some(s.clone()),
        None => None,
    }
}

impl<C> DshState<C> {
    /// No process, stopped, empty log.
    pub fn new() -> (res: Self)
        ensures
            res@ == DshModel::initial(),
            res.child is None,
    {
        let res = DshState {
            child: None,
            kind: DshKind::Stopped,
            pid: None,
            started_at: None,
            message: None,
            log: Vec::new(),
            version: None,
        };
        assert(res@.log =~= seq![]);
        res
    }

    /// Appends a line to the log and drops the oldest lines beyond `LOG_CAP`.
    pub fn push_log(&mut self, line: String)
        ensures
            final(self)@ == old(self)@.pushed(line@),
            final(self).child == old(self).child,
    {
        let ghost old_log = self.log@;
        self.log.push(line);
        if self.log.len() > LOG_CAP {
            let over = self.log.len() - LOG_CAP;
            let tail = self.log.split_off(over);
            self.log = tail;
        }
        proof {
            let f = |l: String| l@;
            let pushed = old_log.push(line);
            assert(pushed.map_values(f) =~= old_log.map_values(f).push(line@));
            assert(self.log@ == capped(pushed));
            assert(capped(pushed).map_values(f) =~= capped(pushed.map_values(f)));
        }
    }

    /// Sets the status kind and message; stopping forgets the process id, the start
    /// time and the version.
    pub fn set_kind(&mut self, kind: DshKind, message: Option<String>)
        ensures
            final(self)@ == old(self)@.with_kind(kind, opt_view(message)),
            final(self).child == old(self).child,
    {
        self.kind = kind;
        self.message = message;
        if kind == DshKind::Stopped {
            self.pid = None;
            self.started_at = None;
            self.version = None;
        }
    }

    /// Drops the held process when it has exited (`exited`: what waiting on it gave);
    /// returns whether it did.
    pub fn child_exited(&mut self, exited: bool) -> (res: bool)
        ensures
            res == (old(self).child is Some && exited),
            final(self)@ == old(self)@.child_reaped(exited),
            res ==> final(self).child is None,
            !res ==> final(self).child == old(self).child,
    {
        let res = self.child.is_some() && exited;
        if res {
            self.child = None;
        }
        res
    }

    /// Applies what a refresh found: `exited` tells whether the held process has
    /// exited, `probe` what the port answered, `listening` the process id found
    /// listening on it (only read when the port is open).
    pub fn refresh(&mut self, exited: bool, probe: Probe, listening: Option<u32>, port: u16)
        ensures
            final(self)@ == old(self)@.refreshed(exited, probe, listening, port),
            final(self).child == (if old(self).child is Some && exited {
                None
            } else {
                old(self).child
            }),
    {
        if self.child.is_some() && exited {
            self.child = None;
            self.started_at = None;
        }
        match probe {
            Probe::Healthy => {
                self.kind = DshKind::Running;
                self.message = None;
                self.pid = match listening {
                    Some(p) => Some(p),
                    None => self.pid,
                };
            },
            Probe::PortOpen => {
                self.kind = DshKind::PortBusy;
                self.message = Some(port_taken_message(port));
                self.pid = match listening {
                    Some(p) => Some(p),
                    None => self.pid,
                };
                self.started_at = None;
            },
            Probe::Closed => {
                if self.child.is_none() {
                    self.kind = DshKind::Stopped;
                    self.pid = None;
                    self.started_at = None;
                    self.message = None;
                } else {
                    self.kind = DshKind::Starting;
                    self.message = Some(starting_message());
                }
            },
            Probe::Failed(e) => {
                self.kind = DshKind::Error;
                self.message = Some(e);
            },
        }
    }

    /// Records a launched process: the handle, its id and the time `now`.
    pub fn record_launch(&mut self, child: C, pid: u32, now: u64)
        ensures
            final(self)@ == old(self)@.launched(pid, now),
            final(self).child == Some(child),
    {
        self.child = Some(child);
        self.kind = DshKind::Starting;
        self.pid = Some(pid);
        self.started_at = Some(now);
        self.message = Some(starting_message());
    }

    /// Begins a stop: the reason, if any, becomes the message.
    pub fn begin_stop(&mut self, reason: Option<String>)
        ensures
            final(self)@ == old(self)@.stop_begun(opt_view(reason)),
            final(self).child == old(self).child,
    {
        match reason {
            Some(r) => {
                self.message = Some(r);
            },
            None => {},
        }
    }

    /// Ends a stop: no process, stopped, the message is the reason or none.
    pub fn finish_stop(&mut self, reason: Option<String>)
        ensures
            final(self)@ == old(self)@.stopped(opt_view(reason)),
            final(self).child is None,
    {
        self.child = None;
        self.kind = DshKind::Stopped;
        self.pid = None;
        self.started_at = None;
        self.message = reason;
    }
}

impl<C> Default for DshState<C> {
    fn default() -> (res: Self)
        ensures
            res@ == DshModel::initial(),
            res.child is None,
    {
        DshState::new()
    }
}

/// The status that the pages show for the state `st` on `port`.
pub fn status_snapshot<C>(st: &DshState<C>, port: u16) -> (res: DshStatus)
    ensures
        res.kind@ == st.kind.text(),
        res.pid == st.pid,
        res.port == port,
        res.started_at == st.started_at,
        opt_view(res.version) == opt_view(st.version),
        opt_view(res.message) == opt_view(st.message),
{
    DshStatus {
        kind: String::from_str(st.kind.as_str()),
        pid: st.pid,
        port,
        started_at: st.started_at,
        version: clone_text(&st.version),
        message: clone_text(&st.message),
    }
}

/// `"端口 {port}"` followed by `tail`.
fn port_message(port: u16, tail: &str) -> (res: String)
    ensures
        res@ == "端口 "@ + decimal(port as nat) + tail@,
{
    let mut s = String::from_str("端口 ");
    s.append(decimal_string(port as u64).as_str());
    s.append(tail);
    s
}

/// The message while the service starts.
pub fn starting_message() -> (res: String)
    ensures
        res@ == starting_text(),
{
    String::from_str("正在启动…")
}

/// The message when a refresh finds another program on `port`.
pub fn port_taken_message(port: u16) -> (res: String)
    ensures
        res@ == port_taken_text(port),
{
    port_message(port, " 已被其他程序占用")
}

/// The message when the start watch finds another program on `port`.
pub fn port_busy_message(port: u16) -> (res: String)
    ensures
        res@ == port_busy_text(port),
{
    port_message(port, " 被其他程序占用")
}

/// The error of a start refused because another program answers on `port`.
pub fn port_refused_message(port: u16) -> (res: String)
    ensures
        res@ == port_refused_text(port),
{
    port_message(port, " 已被其他程序占用（响应不是 DSH）")
}

/// What a start does after probing the port.
pub enum StartPlan {
    /// The service already answers: it is reused.
    Reuse,
    /// Another program answers on the port: the start is refused with this error.
    Refuse(String),
    /// Nothing answers: a process is launched.
    Launch,
}

/// What a start does after probing `port`.
pub fn start_plan(probe: &Probe, port: u16) -> (res: StartPlan)
    ensures
        *probe == Probe::Healthy ==> res is Reuse,
        *probe == Probe::PortOpen ==> (res matches StartPlan::Refuse(e) && e@ == port_refused_text(
            port,
        )),
        (*probe == Probe::Closed || *probe is Failed) ==> res is Launch,
{
    match probe {
        Probe::Healthy => StartPlan::Reuse,
        Probe::PortOpen => StartPlan::Refuse(port_refused_message(port)),
        _ => StartPlan::Launch,
    }
}

/// What the watch over a starting service does after one probe.
#[derive(Clone, Copy, Debug, PartialEq, Eq, Structural)]
pub enum WatchAction {
    /// The service answers: it runs; its version is fetched.
    Ready,
    /// Another program answers on the port.
    Busy,
    /// The process exited before it served.
    Exited,
    /// The start took too long: the process is stopped.
    TimedOut,
    /// Probe again later.
    Wait,
}

/// One step of the watch over a starting service: `exited` tells whether the process
/// has exited (asked only when the port does not answer), `past_deadline` whether the
/// start has taken too long.
pub fn watch_step(probe: &Probe, exited: bool, past_deadline: bool) -> (res: WatchAction)
    ensures
        res == (match *probe {
            Probe::Healthy => WatchAction::Ready,
            Probe::PortOpen => WatchAction::Busy,
            _ => if exited {
                WatchAction::Exited
            } else if past_deadline {
                WatchAction::TimedOut
            } else {
                WatchAction::Wait
            },
        }),
{
    match probe {
        Probe::Healthy => WatchAction::Ready,
        Probe::PortOpen => WatchAction::Busy,
        _ => {
            if exited {
                WatchAction::Exited
            } else if past_deadline {
                WatchAction::TimedOut
            } else {
                WatchAction::Wait
            }
        },
    }
}

/// The log line when a start times out.
pub open spec fn timeout_log_text() -> Seq<char> {
    "启动超时，正在终止…"@
}

/// The reason of a stop after a start timed out.
pub open spec fn timeout_reason_text() -> Seq<char> {
    "启动超时"@
}

/// The reason of a stop before a restart.
pub open spec fn restart_reason_text() -> Seq<char> {
    "正在重启…"@
}

/// The reason of a stop after a start timed out.
pub fn timeout_reason() -> (res: String)
    ensures
        res@ == timeout_reason_text(),
{
    String::from_str("启动超时")
}

/// The reason of a stop before a restart.
pub fn restart_reason() -> (res: String)
    ensures
        res@ == restart_reason_text(),
{
    String::from_str("正在重启…")
}

impl DshModel {
    /// The state after the watch decided `action` for `port`.
    pub open spec fn watched(self, action: WatchAction, port: u16) -> DshModel {
        match action {
            WatchAction::Ready => self.with_kind(DshKind::Running, None),
            WatchAction::Busy => self.with_kind(DshKind::PortBusy, Some(port_busy_text(port))),
            WatchAction::Exited => self.with_kind(DshKind::Stopped, Some(exited_text())),
            WatchAction::TimedOut => self.pushed(timeout_log_text()).stop_begun(
                Some(timeout_reason_text()),
            ),
            WatchAction::Wait => self,
        }
    }
}

impl<C> DshState<C> {
    /// Applies what the watch decided. A timeout is logged and the stop begun; the
    /// caller then stops the process and ends the stop with `timeout_reason()`.
    pub fn apply_watch(&mut self, action: WatchAction, port: u16)
        ensures
            final(self)@ == old(self)@.watched(action, port),
            final(self).child == old(self).child,
    {
        match action {
            WatchAction::Ready => self.set_kind(DshKind::Running, None),
            WatchAction::Busy => self.set_kind(DshKind::PortBusy, Some(port_busy_message(port))),
            WatchAction::Exited => self.set_kind(
                DshKind::Stopped,
                Some(String::from_str("进程已退出，请查看日志")),
            ),
            WatchAction::TimedOut => {
                self.push_log(String::from_str("启动超时，正在终止…"));
                self.begin_stop(Some(timeout_reason()));
            },
            WatchAction::Wait => {},
        }
    }
}

/// Whether a stop may stop waiting: the port no longer answers.
pub fn port_released(probe: &Probe) -> (res: bool)
    ensures
        res == !(*probe == Probe::Healthy || *probe == Probe::PortOpen),
{
    match probe {
        Probe::Healthy | Probe::PortOpen => false,
        _ => true,
    }
}

/// The log entry for a line that the service wrote on `stream`; blank lines are not
/// logged.
pub fn output_log_line(stream: &str, line: &str) -> (res: Option<String>)
    ensures
        trim(line@).len() == 0 ==> res is None,
        trim(line@).len() > 0 ==> (res matches Some(l) && l@ == "["@ + stream@ + "] "@ + line@),
{
    let v = chars_of(line);
    let (a, b) = trim_range(&v, 0, v.len(), Strip::Whitespace);
    assert(v@.subrange(0, v@.len() as int) =~= line@);
    if a == b {
        return None;
    }
    let mut s = String::from_str("[");
    s.append(stream);
    s.append("] ");
    s.append(line);
    Some(s)
}

/// The log entry for a launched command line.
pub fn command_log_line(command_line: &str) -> (res: String)
    ensures
        res@ == "$ "@ + command_line@,
{
    let mut s = String::from_str("$ ");
    s.append(command_line);
    s
}

/// What a captured command printed, trimmed; nothing when that is empty.
pub fn captured_text(output: &str) -> (res: Option<String>)
    ensures
        trim(output@).len() == 0 ==> res is None,
        trim(output@).len() > 0 ==> (res matches Some(t) && t@ == trim(output@)),
{
    let v = chars_of(output);
    let (a, b) = trim_range(&v, 0, v.len(), Strip::Whitespace);
    assert(v@.subrange(0, v@.len() as int) =~= output@);
    if a == b {
        None
    } else {
        Some(String::from_str(output.substring_char(a, b)))
    }
}

/// What a captured command does after one wait.
#[derive(Clone, Copy, Debug, PartialEq, Eq, Structural)]
pub enum CaptureStep {
    /// It ended: its output is read.
    Collect,
    /// It took too long: it is killed and nothing is captured.
    Kill,
    /// Wait again later.
    Wait,
    /// Waiting failed: nothing is captured.
    Abandon,
}

/// One step of waiting on a captured command: `ended` is what waiting gave (`None` when
/// waiting failed), `timed_out` whether the time allowed has passed.
pub fn capture_step(ended: Option<bool>, timed_out: bool) -> (res: CaptureStep)
    ensures
        res == (match ended {
            Some(true) => CaptureStep::Collect,
            Some(false) => if timed_out {
                CaptureStep::Kill
            } else {
                CaptureStep::Wait
            },
            None => CaptureStep::Abandon,
        }),
{
    match ended {
        Some(true) => CaptureStep::Collect,
        Some(false) => if timed_out {
            CaptureStep::Kill
        } else {
            CaptureStep::Wait
        },
        None => CaptureStep::Abandon,
    }
}

/// Whether a refresh looks up the process listening on the port: only when the port
/// answers.
pub fn refresh_needs_listener(probe: &Probe) -> (res: bool)
    ensures
        res == (*probe == Probe::Healthy || *probe == Probe::PortOpen),
{
    match probe {
        Probe::Healthy | Probe::PortOpen => true,
        _ => false,
    }
}

/// Whether a stop looks up the process listening on the port: only when the shell holds
/// no process (`held`).
pub fn stop_needs_listener(held: Option<u32>) -> (res: bool)
    ensures
        res == held is None,
{
    held.is_none()
}

/// The process a stop kills: the one the shell holds (`held`), else the one found
/// listening on the port (`listening`).
pub fn stop_target(held: Option<u32>, listening: Option<u32>) -> (res: Option<u32>)
    ensures
        res == or_else(held, listening),
{
    match held {
        Some(p) => Some(p),
        None => listening,
    }
}

impl DshModel {
    /// The version the service reported.
    pub open spec fn with_version(self, version: Seq<char>) -> DshModel {
        DshModel { version: Some(version), ..self }
    }
}

impl<C> DshState<C> {
    /// Records the version the service reported.
    pub fn set_version(&mut self, version: String)
        ensures
            final(self)@ == old(self)@.with_version(version@),
            final(self).child == old(self).child,
    {
        self.version = Some(version);
    }

    /// When the shell already holds a launched process, a start launches nothing and
    /// answers with the status on `port`; otherwise there is no answer yet.
    pub fn held_status(&self, port: u16) -> (res: Option<DshStatus>)
        ensures
            res is Some == self.child is Some,
            res matches Some(st) ==> {
                &&& st.kind@ == self.kind.text()
                &&& st.pid == self.pid
                &&& st.port == port
                &&& st.started_at == self.started_at
                &&& opt_view(st.version) == opt_view(self.version)
                &&& opt_view(st.message) == opt_view(self.message)
            },
    {
        if self.child.is_some() {
            Some(status_snapshot(self, port))
        } else {
            None
        }
    }
}

/// The log keeps the most recent lines: pushing a line onto a capped log leaves
/// the same log as capping the whole history with that line, and the log never
/// holds more than `LOG_CAP` lines.
pub proof fn law_log_keeps_latest(history: Seq<Seq<char>>, line: Seq<char>)
    ensures
        capped(capped(history).push(line)) == capped(history.push(line)),
        capped(history.push(line)).len() <= LOG_CAP,
        capped(history.push(line)).last() == line,
{
    let h = history;
    if h.len() > LOG_CAP {
        assert(capped(h).push(line) =~= h.push(line).skip(h.len() - LOG_CAP));
        assert(capped(capped(h).push(line)) =~= capped(h.push(line)));
    } else {
        assert(capped(h) =~= h);
    }
}

/// What a refresh makes of the status, whatever the state before: the service answering
/// means running; another program on the port means port busy, with the port named and
/// no start time; a failed probe means error, with the probe's reason; nothing on the
/// port means starting while a launched process is still held, and stopped (no process
/// id, start time or message) once none is held, a held process that has exited being
/// dropped first. The log and the version are never touched.
pub proof fn law_refresh_outcome(
    m: DshModel,
    exited: bool,
    probe: Probe,
    listening: Option<u32>,
    port: u16,
)
    ensures
        ({
            let r = m.refreshed(exited, probe, listening, port);
            &&& r.has_child == (m.has_child && !exited)
            &&& r.log == m.log
            &&& r.version == m.version
            &&& probe == Probe::Healthy ==> r.kind == DshKind::Running && r.message is None
                && r.pid == (match listening {
                Some(p) => Some(p),
                None => m.pid,
            })
            &&& probe == Probe::PortOpen ==> r.kind == DshKind::PortBusy && r.started_at is None
                && r.message == Some("端口 "@ + decimal(port as nat) + " 已被其他程序占用"@)
            &&& probe == Probe::Closed ==> (r.kind == DshKind::Stopped <==> !r.has_child)
            &&& probe == Probe::Closed && !r.has_child ==> r.pid is None && r.started_at is None
                && r.message is None
            &&& probe == Probe::Closed && r.has_child ==> r.kind == DshKind::Starting
                && r.message == Some("正在启动…"@) && r.pid == m.pid
            &&& (probe matches Probe::Failed(e) ==> r.kind == DshKind::Error && r.message == Some(
                e@,
            ))
            &&& m.has_child && exited ==> r.started_at is None
        }),
{
}

/// What the watch over a starting service makes of the status: ready means running with
/// no message; busy means port busy, naming the port; an exited process means stopped,
/// with no process id or start time; a timeout logs it last and gives the reason
/// without changing the kind yet; waiting changes nothing. The held process is never
/// touched by the watch itself.
pub proof fn law_watch_outcome(m: DshModel, action: WatchAction, port: u16)
    ensures
        ({
            let r = m.watched(action, port);
            &&& r.has_child == m.has_child
            &&& action == WatchAction::Ready ==> r.kind == DshKind::Running && r.message is None
            &&& action == WatchAction::Busy ==> r.kind == DshKind::PortBusy && r.message == Some(
                "端口 "@ + decimal(port as nat) + " 被其他程序占用"@,
            )
            &&& action == WatchAction::Exited ==> r.kind == DshKind::Stopped && r.pid is None
                && r.started_at is None && r.message == Some("进程已退出，请查看日志"@)
            &&& action == WatchAction::TimedOut ==> r.kind == m.kind && r.log.last()
                == "启动超时，正在终止…"@ && r.message == Some("启动超时"@)
            &&& action == WatchAction::Wait ==> r == m
        }),
{
    if action == WatchAction::TimedOut {
        law_log_keeps_latest(m.log, "启动超时，正在终止…"@);
    }
}

/// What ending a stop makes of the status, whatever it was: stopped, with no process
/// held, no process id and no start time; the message is the reason given (none when
/// none was given); the log and the version are kept.
pub proof fn law_stop_outcome(m: DshModel, reason: Option<Seq<char>>)
    ensures
        m.stopped(reason).kind == DshKind::Stopped,
        !m.stopped(reason).has_child,
        m.stopped(reason).pid is None,
        m.stopped(reason).started_at is None,
        m.stopped(reason).message == reason,
        m.stopped(reason).log == m.log,
        m.stopped(reason).version == m.version,
{
}

/// Every change of the service's state keeps two facts: the log holds at most
/// `LOG_CAP` lines, and a stopped service names no process id and no start time.
pub proof fn law_state_invariant(
    m: DshModel,
    line: Seq<char>,
    kind: DshKind,
    message: Option<Seq<char>>,
    exited: bool,
    probe: Probe,
    listening: Option<u32>,
    port: u16,
    pid: u32,
    now: u64,
    reason: Option<Seq<char>>,
    action: WatchAction,
    version: Seq<char>,
)
    requires
        m.log_bounded(),
        m.stopped_is_idle(),
    ensures
        DshModel::initial().log_bounded() && DshModel::initial().stopped_is_idle(),
        m.pushed(line).log_bounded() && m.pushed(line).stopped_is_idle(),
        m.with_kind(kind, message).log_bounded() && m.with_kind(kind, message).stopped_is_idle(),
        m.child_reaped(exited).log_bounded() && m.child_reaped(exited).stopped_is_idle(),
        m.refreshed(exited, probe, listening, port).log_bounded() && m.refreshed(
            exited,
            probe,
            listening,
            port,
        ).stopped_is_idle(),
        m.launched(pid, now).log_bounded() && m.launched(pid, now).stopped_is_idle(),
        m.stop_begun(reason).log_bounded() && m.stop_begun(reason).stopped_is_idle(),
        m.stopped(reason).log_bounded() && m.stopped(reason).stopped_is_idle(),
        m.watched(action, port).log_bounded() && m.watched(action, port).stopped_is_idle(),
        m.with_version(version).log_bounded() && m.with_version(version).stopped_is_idle(),
{
    law_log_keeps_latest(m.log, line);
    law_log_keeps_latest(m.log, timeout_log_text());
}

} // verus!
