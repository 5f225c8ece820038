//! The decisions of the streaming network task as a state machine: it
//! connects, streams encoded packets, and after a failure waits with an
//! exponential backoff (1 s, 2 s, 4 s, ... at most 60 s) before reconnecting,
//! except after an authorisation failure. The task's driver performs each
//! action and reports what happened as the next event.
use crate::state::ConnectionStatus;
use crate::text::{matches_at, occurs_at};
use vstd::prelude::*;

verus! {

/// A character that ends a word of a status line.
pub open spec fn is_token_end(c: char) -> bool {
    c == ' ' || c == '\r' || c == '\n' || c == '\t'
}

/// The HTTP status `code` (three digits) stands in `s` as a word of its own
/// at position `i`: a space, the code, then the end of the text or white
/// space. A port such as `:4010` or a host name is no status.
pub open spec fn status_at(s: Seq<char>, code: Seq<char>, i: int) -> bool {
    &&& occurs_at(s, " "@ + code, i)
    &&& (i + 4 == s.len() || is_token_end(s[i + 4]))
}

/// The reply text carries the HTTP status `code`.
pub open spec fn has_status(s: Seq<char>, code: Seq<char>) -> bool {
    exists|i: int| status_at(s, code, i)
}

/// Whether a failed connection is worth retrying: not when the server
/// refused the credentials with HTTP status 401 or 403 (the user has to fix
/// them first). Any other failure, a refused TCP connection among them, is
/// retried.
pub open spec fn reconnect_allowed(response: Seq<char>) -> bool {
    !(has_status(response, "401"@) || has_status(response, "403"@))
}

/// Whether the HTTP status `code` (a space and three digits in `tagged`)
/// occurs in `hay` as a word of its own.
fn contains_status(hay: &str, tagged: &str, Ghost(code): Ghost<Seq<char>>) -> (r: bool)
    requires
        tagged@ == " "@ + code,
        code.len() == 3,
    ensures
        r == has_status(hay@, code),
{
    proof {
        reveal_strlit(" ");
    }
    assert(tagged@.len() == 4);
    let n = hay.unicode_len();
    if n < 4 {
        assert forall|i: int| !status_at(hay@, code, i) by {}
        return false;
    }
    let mut i: usize = 0;
    loop
        invariant
            n == hay@.len(),
            4 <= n,
            tagged@ == " "@ + code,
            tagged@.len() == 4,
            0 <= i <= n - 4,
            forall|j: int| 0 <= j < i ==> !status_at(hay@, code, j),
        decreases n - 4 - i,
    {
        if matches_at(hay, tagged, i) {
            if i + 4 == n {
                assert(status_at(hay@, code, i as int));
                return true;
            }
            let c = hay.get_char(i + 4);
            if c == ' ' || c == '\r' || c == '\n' || c == '\t' {
                assert(status_at(hay@, code, i as int));
                return true;
            }
        }
        if i == n - 4 {
            assert forall|j: int| !status_at(hay@, code, j) by {
                if 0 <= j <= i {
                }
            }
            return false;
        }
        i = i + 1;
    }
}

/// Decides whether to reconnect after a connection failure described by
/// `response`.
pub fn should_reconnect(response: &str) -> (r: bool)
    ensures
        r == reconnect_allowed(response@),
{
    proof {
        reveal_strlit(" 401");
        reveal_strlit(" 403");
        reveal_strlit("401");
        reveal_strlit("403");
        reveal_strlit(" ");
    }
    assert(" 401"@ =~= " "@ + "401"@);
    assert(" 403"@ =~= " "@ + "403"@);
    if contains_status(response, " 401", Ghost("401"@)) || contains_status(response, " 403", Ghost("403"@)) {
        return false;
    }
    true
}

pub open spec fn pow2(n: nat) -> nat
    decreases n,
{
    if n == 0 {
        1
    } else {
        2 * pow2((n - 1) as nat)
    }
}

/// Seconds to wait before reconnection attempt `attempt` (counted from 1):
/// 2^(attempt-1), at most 60. No wait before the first connection.
pub open spec fn backoff_delay(attempt: nat) -> nat {
    if attempt == 0 {
        0
    } else if pow2((attempt - 1) as nat) < 60 {
        pow2((attempt - 1) as nat)
    } else {
        60
    }
}

proof fn lemma_pow2_from_six(n: nat)
    requires
        n >= 6,
    ensures
        pow2(n) >= 64,
    decreases n,
{
    if n > 6 {
        lemma_pow2_from_six((n - 1) as nat);
    } else {
        reveal_with_fuel(pow2, 7);
    }
}

/// Computes the backoff delay of reconnection attempt `attempt`.
pub fn reconnect_delay(attempt: u32) -> (r: u64)
    ensures
        r == backoff_delay(attempt as nat),
{
    if attempt == 0 {
        return 0;
    }
    if attempt >= 7 {
        proof {
            lemma_pow2_from_six((attempt - 1) as nat);
        }
        return 60;
    }
    let mut d: u64 = 1;
    let mut k: u32 = 1;
    while k < attempt
        invariant
            1 <= k <= attempt <= 6,
            d == pow2((k - 1) as nat),
            d <= 32,
        decreases attempt - k,
    {
        assert(pow2(k as nat) == 2 * pow2((k - 1) as nat));
        assert(pow2(4) == 16) by {
            reveal_with_fuel(pow2, 5);
        }
        assert(pow2((k - 1) as nat) <= 16) by {
            reveal_with_fuel(pow2, 5);
        }
        d = d * 2;
        k = k + 1;
    }
    assert(pow2(5) == 32) by {
        reveal_with_fuel(pow2, 6);
    }
    d
}

/// Where the network task stands.
#[derive(Debug, Clone, Copy, PartialEq, Eq, Structural)]
pub enum LinkPhase {
    /// A connection to the server is being opened.
    Connecting,
    /// Waiting before the next connection attempt.
    BackingOff,
    /// Connected: packets are being written.
    Streaming,
    /// The task has finished.
    Stopped,
}

/// The state of the network task: the number of the reconnection attempt
/// in progress (0 while no failure has happened since the last successful
/// connection), the phase, and the bytes written on the current connection.
#[derive(Debug, Clone, Copy)]
pub struct NetworkSession {
    pub attempt: u32,
    pub phase: LinkPhase,
    pub bytes_sent: u64,
}

/// What the driver of the network task observed.
#[derive(Debug, Clone)]
pub enum NetworkEvent {
    /// The server accepted the source connection.
    Connected,
    /// Opening the connection failed; `message` is the error's text.
    ConnectFailed { message: String },
    /// The backoff wait ended without a shutdown request.
    BackoffElapsed,
    /// An encoded packet of `len` bytes was written; `channel_drained` tells
    /// whether no further packet is queued.
    PacketWritten { len: u64, channel_drained: bool },
    /// Writing or flushing the connection failed.
    WriteFailed,
    /// The encoder closed its channel: no more audio will come.
    ChannelClosed,
    /// The user asked to disconnect.
    Shutdown,
}

/// What the driver does next.
#[derive(Debug, Clone, Copy, PartialEq, Eq, Structural)]
pub enum NetworkAction {
    /// Open a connection to the configured server.
    Connect,
    /// Publish `Reconnecting { attempt, delay_secs }`, then wait
    /// `delay_secs` seconds unless a shutdown request comes first.
    Backoff { attempt: u32, delay_secs: u64 },
    /// Wait for the next packet, shutdown request or statistics tick.
    Receive,
    /// Flush the connection, then wait as for `Receive`.
    Flush,
    /// End the task.
    Exit,
}

/// A decision: the status to publish first (if any) and the next action.
#[derive(Debug, Clone)]
pub struct NetworkStep {
    pub status: Option<ConnectionStatus>,
    pub action: NetworkAction,
}

/// The attempt counter after one more failure (it stays at its maximum).
pub open spec fn next_attempt(attempt: u32) -> u32 {
    if attempt < u32::MAX {
        (attempt + 1) as u32
    } else {
        attempt
    }
}

/// The backoff action for reconnection attempt `attempt`.
pub open spec fn backoff_action(attempt: u32) -> NetworkAction {
    NetworkAction::Backoff { attempt, delay_secs: backoff_delay(attempt as nat) as u64 }
}

/// The action a session in `s` is waiting to have performed.
pub open spec fn pending_action(s: NetworkSession) -> NetworkAction {
    match s.phase {
        LinkPhase::Connecting => NetworkAction::Connect,
        LinkPhase::BackingOff => backoff_action(s.attempt),
        LinkPhase::Streaming => NetworkAction::Receive,
        LinkPhase::Stopped => NetworkAction::Exit,
    }
}

/// The network task's decision on `event` in state `s`: the next state and
/// what to do. A shutdown request ends the task from any state; a finished
/// task stays finished; an event that does not belong to the current phase
/// changes nothing and repeats the pending action.
pub open spec fn network_transition(s: NetworkSession, event: NetworkEvent) -> (NetworkSession, NetworkStep) {
    let unchanged = (s, NetworkStep { status: None, action: pending_action(s) });
    if event is Shutdown || s.phase == LinkPhase::Stopped {
        (
            NetworkSession { phase: LinkPhase::Stopped, ..s },
            NetworkStep { status: None, action: NetworkAction::Exit },
        )
    } else {
        match event {
            NetworkEvent::Connected => if s.phase == LinkPhase::Connecting {
                (
                    NetworkSession { attempt: 0, phase: LinkPhase::Streaming, bytes_sent: 0 },
                    NetworkStep {
                        status: Some(ConnectionStatus::Connected),
                        action: NetworkAction::Receive,
                    },
                )
            } else {
                unchanged
            },
            NetworkEvent::ConnectFailed { message } => if s.phase == LinkPhase::Connecting {
                if reconnect_allowed(message@) {
                    (
                        NetworkSession {
                            attempt: next_attempt(s.attempt),
                            phase: LinkPhase::BackingOff,
                            ..s
                        },
                        NetworkStep {
                            status: Some(ConnectionStatus::Error { message }),
                            action: backoff_action(next_attempt(s.attempt)),
                        },
                    )
                } else {
                    (
                        NetworkSession { phase: LinkPhase::Stopped, ..s },
                        NetworkStep {
                            status: Some(ConnectionStatus::Error { message }),
                            action: NetworkAction::Exit,
                        },
                    )
                }
            } else {
                unchanged
            },
            NetworkEvent::BackoffElapsed => if s.phase == LinkPhase::BackingOff {
                (
                    NetworkSession { phase: LinkPhase::Connecting, ..s },
                    NetworkStep { status: None, action: NetworkAction::Connect },
                )
            } else {
                unchanged
            },
            NetworkEvent::PacketWritten { len, channel_drained } => if s.phase
                == LinkPhase::Streaming {
                (
                    NetworkSession {
                        bytes_sent: if len <= u64::MAX - s.bytes_sent {
                            (s.bytes_sent + len) as u64
                        } else {
                            u64::MAX
                        },
                        ..s
                    },
                    NetworkStep {
                        status: None,
                        action: if channel_drained {
                            NetworkAction::Flush
                        } else {
                            NetworkAction::Receive
                        },
                    },
                )
            } else {
                unchanged
            },
            NetworkEvent::WriteFailed => if s.phase == LinkPhase::Streaming {
                (
                    NetworkSession {
                        attempt: next_attempt(s.attempt),
                        phase: LinkPhase::BackingOff,
                        ..s
                    },
                    NetworkStep { status: None, action: backoff_action(next_attempt(s.attempt)) },
                )
            } else {
                unchanged
            },
            NetworkEvent::ChannelClosed => if s.phase == LinkPhase::Streaming {
                (
                    NetworkSession { phase: LinkPhase::Stopped, ..s },
                    NetworkStep { status: None, action: NetworkAction::Exit },
                )
            } else {
                unchanged
            },
            NetworkEvent::Shutdown => unchanged,
        }
    }
}

impl NetworkSession {
    /// A task about to make its first connection: nothing failed yet.
    pub fn new() -> (r: (NetworkSession, NetworkAction))
        ensures
            r.0 == (NetworkSession { attempt: 0, phase: LinkPhase::Connecting, bytes_sent: 0 }),
            r.1 == NetworkAction::Connect,
    {
        (NetworkSession { attempt: 0, phase: LinkPhase::Connecting, bytes_sent: 0 }, NetworkAction::Connect)
    }

    fn backoff(attempt: u32) -> (r: NetworkAction)
        ensures
            r == backoff_action(attempt),
    {
        NetworkAction::Backoff { attempt, delay_secs: reconnect_delay(attempt) }
    }

    fn pending(&self) -> (r: NetworkAction)
        ensures
            r == pending_action(*self),
    {
        match self.phase {
            LinkPhase::Connecting => NetworkAction::Connect,
            LinkPhase::BackingOff => Self::backoff(self.attempt),
            LinkPhase::Streaming => NetworkAction::Receive,
            LinkPhase::Stopped => NetworkAction::Exit,
        }
    }

    fn bump_attempt(&mut self)
        ensures
            final(self).attempt == next_attempt(old(self).attempt),
            final(self).phase == old(self).phase,
            final(self).bytes_sent == old(self).bytes_sent,
    {
        if self.attempt < u32::MAX {
            self.attempt = self.attempt + 1;
        }
    }

    /// Decides what to do about `event`.
    pub fn handle(&mut self, event: NetworkEvent) -> (r: NetworkStep)
        ensures
            (*final(self), r) == network_transition(*old(self), event),
    {
        if self.phase == LinkPhase::Stopped {
            return NetworkStep { status: None, action: NetworkAction::Exit };
        }
        match event {
            NetworkEvent::Shutdown => {
                self.phase = LinkPhase::Stopped;
                NetworkStep { status: None, action: NetworkAction::Exit }
            },
            NetworkEvent::Connected => {
                if self.phase == LinkPhase::Connecting {
                    self.attempt = 0;
                    self.phase = LinkPhase::Streaming;
                    self.bytes_sent = 0;
                    NetworkStep {
                        status: Some(ConnectionStatus::Connected),
                        action: NetworkAction::Receive,
                    }
                } else {
                    NetworkStep { status: None, action: self.pending() }
                }
            },
            NetworkEvent::ConnectFailed { message } => {
                if self.phase == LinkPhase::Connecting {
                    if should_reconnect(message.as_str()) {
                        self.bump_attempt();
                        self.phase = LinkPhase::BackingOff;
                        NetworkStep {
                            status: Some(ConnectionStatus::Error { message }),
                            action: Self::backoff(self.attempt),
                        }
                    } else {
                        self.phase = LinkPhase::Stopped;
                        NetworkStep {
                            status: Some(ConnectionStatus::Error { message }),
                            action: NetworkAction::Exit,
                        }
                    }
                } else {
                    NetworkStep { status: None, action: self.pending() }
                }
            },
            NetworkEvent::BackoffElapsed => {
                if self.phase == LinkPhase::BackingOff {
                    self.phase = LinkPhase::Connecting;
                    NetworkStep { status: None, action: NetworkAction::Connect }
                } else {
                    NetworkStep { status: None, action: self.pending() }
                }
            },
            NetworkEvent::PacketWritten { len, channel_drained } => {
                if self.phase == LinkPhase::Streaming {
                    if len <= u64::MAX - self.bytes_sent {
                        self.bytes_sent = self.bytes_sent + len;
                    } else {
                        self.bytes_sent = u64::MAX;
                    }
                    let action = if channel_drained {
                        NetworkAction::Flush
                    } else {
                        NetworkAction::Receive
                    };
                    NetworkStep { status: None, action }
                } else {
                    NetworkStep { status: None, action: self.pending() }
                }
            },
            NetworkEvent::WriteFailed => {
                if self.phase == LinkPhase::Streaming {
                    self.bump_attempt();
                    self.phase = LinkPhase::BackingOff;
                    NetworkStep { status: None, action: Self::backoff(self.attempt) }
                } else {
                    NetworkStep { status: None, action: self.pending() }
                }
            },
            NetworkEvent::ChannelClosed => {
                if self.phase == LinkPhase::Streaming {
                    self.phase = LinkPhase::Stopped;
                    NetworkStep { status: None, action: NetworkAction::Exit }
                } else {
                    NetworkStep { status: None, action: self.pending() }
                }
            },
        }
    }
}

/// The backoff schedule: the first retry waits one second, each further
/// retry waits twice as long as the previous one, and no wait exceeds 60
/// seconds.
pub proof fn lemma_backoff_schedule(attempt: nat)
    requires
        attempt >= 1,
    ensures
        backoff_delay(1) == 1,
        1 <= backoff_delay(attempt) <= 60,
        backoff_delay(attempt + 1) == if 2 * backoff_delay(attempt) < 60 {
            2 * backoff_delay(attempt)
        } else {
            60
        },
{
    reveal_with_fuel(pow2, 2);
    assert(pow2(attempt) == 2 * pow2((attempt - 1) as nat));
    lemma_pow2_positive((attempt - 1) as nat);
}

proof fn lemma_pow2_positive(n: nat)
    ensures
        pow2(n) >= 1,
    decreases n,
{
    if n > 0 {
        lemma_pow2_positive((n - 1) as nat);
    }
}

/// A shutdown request ends the network task whatever it is doing.
pub proof fn lemma_shutdown_stops(s: NetworkSession)
    ensures
        network_transition(s, NetworkEvent::Shutdown).0.phase == LinkPhase::Stopped,
        network_transition(s, NetworkEvent::Shutdown).1.action == NetworkAction::Exit,
{
}

/// Once finished, the task stays finished whatever happens.
pub proof fn lemma_stopped_is_final(s: NetworkSession, event: NetworkEvent)
    requires
        s.phase == LinkPhase::Stopped,
    ensures
        network_transition(s, event).0.phase == LinkPhase::Stopped,
        network_transition(s, event).1.action == NetworkAction::Exit,
{
}

/// A connection refused for authorisation (the answer carries the HTTP
/// status 401 or 403) is reported as an error and never retried.
pub proof fn lemma_auth_failure_not_retried(s: NetworkSession, message: String)
    requires
        s.phase == LinkPhase::Connecting,
        has_status(message@, "401"@) || has_status(message@, "403"@),
    ensures
        ({
            let (t, step) = network_transition(s, NetworkEvent::ConnectFailed { message });
            &&& t.phase == LinkPhase::Stopped
            &&& step.action == NetworkAction::Exit
            &&& step.status == Some(ConnectionStatus::Error { message })
        }),
{
}

/// Any other connection failure is reported, counted as one more attempt,
/// and followed by the backoff wait of that attempt.
pub proof fn lemma_retryable_failure_backs_off(s: NetworkSession, message: String)
    requires
        s.phase == LinkPhase::Connecting,
        reconnect_allowed(message@),
        s.attempt < u32::MAX,
    ensures
        ({
            let (t, step) = network_transition(s, NetworkEvent::ConnectFailed { message });
            &&& t.phase == LinkPhase::BackingOff
            &&& t.attempt == s.attempt + 1
            &&& step.status == Some(ConnectionStatus::Error { message })
            &&& step.action == (NetworkAction::Backoff {
                attempt: (s.attempt + 1) as u32,
                delay_secs: backoff_delay((s.attempt + 1) as nat) as u64,
            })
        }),
{
}

/// A successful connection resets the backoff: if the connection then
/// breaks, the first retry waits one second again.
pub proof fn lemma_connection_resets_backoff(s: NetworkSession)
    requires
        s.phase == LinkPhase::Connecting,
    ensures
        ({
            let (t, step) = network_transition(s, NetworkEvent::Connected);
            let (u, step2) = network_transition(t, NetworkEvent::WriteFailed);
            &&& t.attempt == 0
            &&& step.status == Some(ConnectionStatus::Connected)
            &&& u.phase == LinkPhase::BackingOff
            &&& step2.action == (NetworkAction::Backoff { attempt: 1, delay_secs: 1 })
        }),
{
    reveal_with_fuel(pow2, 1);
}

/// While streaming, every written packet is counted (up to the counter's
/// limit), and the connection is flushed when no further packet is queued.
pub proof fn lemma_packets_counted(s: NetworkSession, len: u64, channel_drained: bool)
    requires
        s.phase == LinkPhase::Streaming,
        s.bytes_sent + len <= u64::MAX,
    ensures
        ({
            let (t, step) = network_transition(s, NetworkEvent::PacketWritten { len, channel_drained });
            &&& t.bytes_sent == s.bytes_sent + len
            &&& t.phase == LinkPhase::Streaming
            &&& step.action == if channel_drained {
                NetworkAction::Flush
            } else {
                NetworkAction::Receive
            }
        }),
{
}

/// The network task driven through `events` from state `s`: the final state
/// and the decision taken on each event, in order.
pub open spec fn run_events(s: NetworkSession, events: Seq<NetworkEvent>) -> (NetworkSession, Seq<NetworkStep>)
    decreases events.len(),
{
    if events.len() == 0 {
        (s, Seq::empty())
    } else {
        let (t, step) = network_transition(s, events[0]);
        let (u, steps) = run_events(t, events.drop_first());
        (u, seq![step] + steps)
    }
}

/// The events of packets written one after another: each entry gives the
/// packet's length and whether the queue was drained after it.
pub open spec fn packet_events(packets: Seq<(u64, bool)>) -> Seq<NetworkEvent> {
    Seq::new(
        packets.len(),
        |i: int| NetworkEvent::PacketWritten { len: packets[i].0, channel_drained: packets[i].1 },
    )
}

/// Total length of the packets.
pub open spec fn total_len(packets: Seq<(u64, bool)>) -> nat
    decreases packets.len(),
{
    if packets.len() == 0 {
        0
    } else {
        packets[0].0 as nat + total_len(packets.drop_first())
    }
}

/// Driving the task through `a` and then `b` is driving it through `a + b`.
proof fn lemma_run_concat(s: NetworkSession, a: Seq<NetworkEvent>, b: Seq<NetworkEvent>)
    ensures
        run_events(s, a + b).0 == run_events(run_events(s, a).0, b).0,
        run_events(s, a + b).1 == run_events(s, a).1 + run_events(run_events(s, a).0, b).1,
    decreases a.len(),
{
    if a.len() == 0 {
        assert(a + b =~= b);
        assert(run_events(s, a).1 + run_events(s, b).1 =~= run_events(s, b).1);
    } else {
        let (t, step) = network_transition(s, a[0]);
        assert((a + b).drop_first() =~= a.drop_first() + b);
        assert((a + b)[0] == a[0]);
        lemma_run_concat(t, a.drop_first(), b);
        assert(seq![step] + (run_events(t, a.drop_first()).1 + run_events(run_events(t, a.drop_first()).0, b).1)
            =~= (seq![step] + run_events(t, a.drop_first()).1) + run_events(run_events(t, a.drop_first()).0, b).1);
    }
}

/// A byte count after adding `n`, held at the counter's limit.
pub open spec fn capped_count(n: int) -> u64 {
    if n <= u64::MAX {
        n as u64
    } else {
        u64::MAX
    }
}

/// While streaming, a run of written packets keeps the connection and its
/// backoff state, adds up the bytes written (the counter stops at its
/// limit), publishes no status, and flushes exactly after each packet that
/// drained the queue.
pub proof fn lemma_packet_run(s: NetworkSession, packets: Seq<(u64, bool)>)
    requires
        s.phase == LinkPhase::Streaming,
    ensures
        ({
            let (t, steps) = run_events(s, packet_events(packets));
            &&& t.phase == LinkPhase::Streaming
            &&& t.attempt == s.attempt
            &&& t.bytes_sent == capped_count(s.bytes_sent + total_len(packets))
            &&& steps.len() == packets.len()
            &&& forall|i: int| 0 <= i < packets.len() ==> {
                &&& (#[trigger] steps[i]).status is None
                &&& steps[i].action == if packets[i].1 {
                    NetworkAction::Flush
                } else {
                    NetworkAction::Receive
                }
            }
        }),
    decreases packets.len(),
{
    let ev = packet_events(packets);
    if packets.len() > 0 {
        let rest = packets.drop_first();
        assert(ev.drop_first() =~= packet_events(rest));
        let (t, step) = network_transition(s, ev[0]);
        lemma_packet_run(t, rest);
        let steps = run_events(s, ev).1;
        assert forall|i: int| 0 <= i < packets.len() implies {
            &&& (#[trigger] steps[i]).status is None
            &&& steps[i].action == if packets[i].1 {
                NetworkAction::Flush
            } else {
                NetworkAction::Receive
            }
        } by {
            if i > 0 {
                assert(steps[i] == run_events(t, packet_events(rest)).1[i - 1]);
                assert(rest[i - 1] == packets[i]);
            }
        }
    }
}

/// A whole streaming session: once the server accepts the connection, the
/// packets written are counted and flushed as the queue drains, and a
/// shutdown request or the end of the audio ends the task without another
/// connection attempt. The status published is Connected, once, at the
/// start; a later failure would wait one second before reconnecting.
pub proof fn lemma_streaming_session(s: NetworkSession, packets: Seq<(u64, bool)>, last: NetworkEvent)
    requires
        s.phase == LinkPhase::Connecting,
        last is Shutdown || last is ChannelClosed,
    ensures
        ({
            let events = seq![NetworkEvent::Connected] + packet_events(packets) + seq![last];
            let (t, steps) = run_events(s, events);
            let (mid, _) = run_events(s, seq![NetworkEvent::Connected] + packet_events(packets));
            &&& steps.len() == packets.len() + 2
            &&& steps[0].status == Some(ConnectionStatus::Connected)
            &&& steps[0].action == NetworkAction::Receive
            &&& forall|i: int| 0 <= i < packets.len() ==> {
                &&& (#[trigger] steps[i + 1]).status is None
                &&& steps[i + 1].action == if packets[i].1 {
                    NetworkAction::Flush
                } else {
                    NetworkAction::Receive
                }
            }
            &&& steps[packets.len() + 1int].action == NetworkAction::Exit
            &&& steps[packets.len() + 1int].status is None
            &&& mid.phase == LinkPhase::Streaming
            &&& mid.bytes_sent == capped_count(total_len(packets) as int)
            &&& network_transition(mid, NetworkEvent::WriteFailed).1.action
                == (NetworkAction::Backoff { attempt: 1, delay_secs: 1 })
            &&& t.phase == LinkPhase::Stopped
            &&& t.bytes_sent == capped_count(total_len(packets) as int)
        }),
{
    let first = seq![NetworkEvent::Connected];
    let ps = packet_events(packets);
    let (c, step0) = network_transition(s, NetworkEvent::Connected);
    assert(run_events(c, Seq::<NetworkEvent>::empty()).0 == c);
    assert(run_events(c, Seq::<NetworkEvent>::empty()).1 =~= Seq::<NetworkStep>::empty());
    assert(first[0] == NetworkEvent::Connected);
    assert(first.drop_first() =~= Seq::<NetworkEvent>::empty());
    assert(run_events(s, first).0 == c);
    assert(run_events(s, first).1 =~= seq![step0]);
    lemma_packet_run(c, packets);
    lemma_run_concat(s, first, ps);
    let (mid, _) = run_events(s, first + ps);
    let lastseq = seq![last];
    assert(lastseq.drop_first() =~= Seq::<NetworkEvent>::empty());
    let (t, stepl) = network_transition(mid, last);
    assert(lastseq[0] == last);
    assert(run_events(t, Seq::<NetworkEvent>::empty()).0 == t);
    assert(run_events(t, Seq::<NetworkEvent>::empty()).1 =~= Seq::<NetworkStep>::empty());
    assert(run_events(mid, lastseq).0 == t);
    assert(run_events(mid, lastseq).1 =~= seq![stepl]);
    lemma_run_concat(s, first + ps, lastseq);
    reveal_with_fuel(pow2, 1);
    let steps = run_events(s, first + ps + lastseq).1;
    let psteps = run_events(c, ps).1;
    assert(steps =~= seq![step0] + psteps + seq![stepl]);
    assert forall|i: int| 0 <= i < packets.len() implies {
        &&& (#[trigger] steps[i + 1]).status is None
        &&& steps[i + 1].action == if packets[i].1 {
            NetworkAction::Flush
        } else {
            NetworkAction::Receive
        }
    } by {
        assert(steps[i + 1] == psteps[i]);
    }
}

} // verus!
