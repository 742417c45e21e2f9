//! Decisions of the bootstrap server's worker loop.
//!
//! For every incoming connection the worker first makes sure it was not asked
//! to stop, then checks the allow/block list, the number of running sessions,
//! and how recently the same IP bootstrapped. Times are nanoseconds on one
//! monotonic clock.
use vstd::prelude::*;
use crate::addr::IpKey;
use crate::durations::{format_duration, humantime_text};
use crate::hints::unlikely;
use crate::int_key_map::{IntKeyMap, elapsed, recent_part};
use vstd::relations::injective_on;
use vstd::set_lib::{lemma_map_size, lemma_set_disjoint_lens};

verus! {

/// `a - b`, or zero when `b > a`.
pub open spec fn saturating_diff(a: u64, b: u64) -> u64 {
    if a >= b {
        (a - b) as u64
    } else {
        0
    }
}

/// The last bootstrap attempt of `ip` is at most `min_interval` old at `now`.
pub open spec fn greedy(hist: Map<IpKey, u64>, ip: IpKey, now: u64, min_interval: u64) -> bool {
    hist.contains_key(ip) && elapsed(now, hist[ip]) <= min_interval
}

/// The history after an attempt of `ip` at `now`: a greedy attempt leaves it
/// as it is, any other records `now`.
pub open spec fn after_attempt(
    hist: Map<IpKey, u64>,
    ip: IpKey,
    now: u64,
    min_interval: u64,
) -> Map<IpKey, u64> {
    if greedy(hist, ip, now, min_interval) {
        hist
    } else {
        hist.insert(ip, now)
    }
}

/// The history once pruned: past `max_size` entries, the expired ones go; if
/// still past `max_size`, everything goes.
pub open spec fn pruned(
    hist: Map<IpKey, u64>,
    now: u64,
    min_interval: u64,
    max_size: usize,
) -> Map<IpKey, u64> {
    if hist.len() > max_size {
        let recent = recent_part(hist, now, min_interval);
        if recent.len() > max_size {
            Map::empty()
        } else {
            recent
        }
    } else {
        hist
    }
}

/// The refusal sent to a client that retried too early, `waited` after its
/// last attempt.
pub open spec fn too_early_text(waited: u64, min_interval: u64) -> Seq<char> {
    "Your last bootstrap on this server was "@ + humantime_text(waited)
        + " ago and you have to wait "@ + humantime_text(saturating_diff(min_interval, waited))
        + " before retrying."@
}

/// The refusal sent when all session slots are taken.
pub open spec fn no_slots_text() -> Seq<char> {
    "Bootstrap failed because the bootstrap server currently has no slots available."@
}

/// The error returned when the stop channel is found disconnected.
pub open spec fn stop_channel_text() -> Seq<char> {
    "Unexpected stop-channel disconnection"@
}

/// Limits of the bootstrap server.
#[derive(Clone, Copy, Debug)]
pub struct BootstrapLimits {
    /// Past this many remembered IPs, the history is pruned.
    pub ip_list_max_size: usize,
    /// An IP may bootstrap again only after this many nanoseconds.
    pub per_ip_min_interval: u64,
}

/// What the server does with an incoming connection.
#[derive(Debug)]
pub enum Admission {
    /// The allow/block list refused the IP; the message is sent back.
    NotAllowed(String),
    /// Every session slot is taken; the message is sent back.
    NoSlots(String),
    /// The IP bootstrapped too recently; the message is sent back.
    TooEarly(String),
    /// A session is started.
    Accepted,
}

/// What one try-receive on the stop channel found.
#[derive(Clone, Copy, Debug, PartialEq, Eq, Structural)]
pub enum StopSignal {
    Received,
    Empty,
    Disconnected,
}

/// The worker's reaction when one of its two channels is ready.
#[derive(Clone, Copy, Debug, PartialEq, Eq, Structural)]
pub enum Wakeup {
    /// Leave the loop.
    Stop,
    /// Wait again.
    Idle,
    /// Look at the stop channel once more before taking the connection.
    CheckAgain,
}

/// The worker's reaction to the second look at the stop channel.
#[derive(Debug)]
pub enum BeforeAccept {
    Stop,
    Fail(String),
    Accept,
}

/// How the worker reacts when channel `ready` is ready (0: the stop channel,
/// 1: the listener) and a try-receive on the stop channel found `first`.
pub fn on_wakeup(ready: usize, first: StopSignal) -> (w: Wakeup)
    ensures
        w == (if (ready == 0 || ready == 1) && first == StopSignal::Received {
            Wakeup::Stop
        } else if ready == 1 {
            Wakeup::CheckAgain
        } else {
            Wakeup::Idle
        }),
{
    if ready == 0 && first == StopSignal::Received {
        Wakeup::Stop
    } else if ready == 1 {
        if first == StopSignal::Received {
            Wakeup::Stop
        } else {
            Wakeup::CheckAgain
        }
    } else {
        Wakeup::Idle
    }
}

/// How the worker reacts to the last look at the stop channel before it takes
/// the connection.
pub fn before_accept(second: StopSignal) -> (r: BeforeAccept)
    ensures
        second == StopSignal::Received ==> r is Stop,
        second == StopSignal::Disconnected ==> r is Fail && r->Fail_0@ == stop_channel_text(),
        second == StopSignal::Empty ==> r is Accept,
{
    if unlikely(second == StopSignal::Received) {
        BeforeAccept::Stop
    } else if unlikely(second == StopSignal::Disconnected) {
        BeforeAccept::Fail(String::from_str("Unexpected stop-channel disconnection"))
    } else {
        BeforeAccept::Accept
    }
}

/// The number of session slots for a configured maximum.
pub fn session_slots(max_simultaneous_bootstraps: u32) -> (n: usize)
    ensures
        n == max_simultaneous_bootstraps,
{
    max_simultaneous_bootstraps as usize
}

/// The refusal for a client that retried `waited` after its last attempt.
pub fn too_early_message(waited: u64, min_interval: u64) -> (s: String)
    ensures
        s@ == too_early_text(waited, min_interval),
{
    let mut s = String::from_str("Your last bootstrap on this server was ");
    let a = format_duration(waited);
    s.append(a.as_str());
    s.append(" ago and you have to wait ");
    let b = format_duration(min_interval.saturating_sub(waited));
    s.append(b.as_str());
    s.append(" before retrying.");
    s
}

/// The refusal sent when all session slots are taken.
pub fn no_slots_message() -> (s: String)
    ensures
        s@ == no_slots_text(),
{
    String::from_str("Bootstrap failed because the bootstrap server currently has no slots available.")
}

/// The running bootstrap sessions: at most `max` of them at any time.
pub struct SessionSlots {
    active: usize,
    max: usize,
}

impl SessionSlots {
    #[verifier::type_invariant]
    closed spec fn within_max(self) -> bool {
        self.active <= self.max
    }

    /// The number of running sessions.
    pub closed spec fn spec_active(&self) -> nat {
        self.active as nat
    }

    /// The largest number of sessions that may run at once.
    pub closed spec fn spec_max(&self) -> nat {
        self.max as nat
    }

    /// No session running, at most `max` at once.
    pub fn new(max: usize) -> (s: Self)
        ensures
            s.spec_active() == 0,
            s.spec_max() == max,
    {
        SessionSlots { active: 0, max }
    }

    /// The number of running sessions.
    pub fn active(&self) -> (n: usize)
        ensures
            n == self.spec_active(),
            n <= self.spec_max(),
    {
        proof {
            use_type_invariant(self);
        }
        self.active
    }

    /// The largest number of sessions that may run at once.
    pub fn max(&self) -> (n: usize)
        ensures
            n == self.spec_max(),
    {
        self.max
    }

    /// Takes a slot for a new session if one is free.
    pub fn try_acquire(&mut self) -> (taken: bool)
        ensures
            taken == (old(self).spec_active() < old(self).spec_max()),
            final(self).spec_max() == old(self).spec_max(),
            final(self).spec_active() == (if taken {
                old(self).spec_active() + 1
            } else {
                old(self).spec_active()
            }),
            final(self).spec_active() <= final(self).spec_max(),
    {
        proof {
            use_type_invariant(&*self);
        }
        if self.active < self.max {
            self.active = self.active + 1;
            true
        } else {
            false
        }
    }

    /// Gives back the slot of a session that ended.
    pub fn release(&mut self)
        ensures
            final(self).spec_max() == old(self).spec_max(),
            final(self).spec_active() == (if old(self).spec_active() > 0 {
                old(self).spec_active() - 1
            } else {
                0
            }),
    {
        proof {
            use_type_invariant(&*self);
        }
        if self.active > 0 {
            self.active = self.active - 1;
        }
    }
}

/// When each IP last bootstrapped: IPv4 and IPv6 addresses in hash maps of
/// their own, keyed by the address's integer.
pub struct IpHistory {
    v4: IntKeyMap<u32, u64>,
    v6: IntKeyMap<u128, u64>,
}

impl View for IpHistory {
    type V = Map<IpKey, u64>;

    closed spec fn view(&self) -> Map<IpKey, u64> {
        Map::new(
            |ip: IpKey|
                match ip {
                    IpKey::V4(a) => self.v4@.contains_key(a),
                    IpKey::V6(a) => self.v6@.contains_key(a),
                },
            |ip: IpKey|
                match ip {
                    IpKey::V4(a) => self.v4@[a],
                    IpKey::V6(a) => self.v6@[a],
                },
        )
    }
}

impl IpHistory {
    /// The history holds as many IPs as its two tables together.
    proof fn lemma_len(&self)
        requires
            self.v4@.dom().finite(),
            self.v6@.dom().finite(),
        ensures
            self@.dom().finite(),
            self@.len() == self.v4@.len() + self.v6@.len(),
    {
        let f4 = |a: u32| IpKey::V4(a);
        let f6 = |a: u128| IpKey::V6(a);
        let d4 = self.v4@.dom().map(f4);
        let d6 = self.v6@.dom().map(f6);
        assert(injective_on(f4, self.v4@.dom()));
        assert(injective_on(f6, self.v6@.dom()));
        lemma_map_size(self.v4@.dom(), d4, f4);
        lemma_map_size(self.v6@.dom(), d6, f6);
        assert forall|ip: IpKey| #[trigger] self@.dom().contains(ip) == (d4 + d6).contains(ip) by {
            match ip {
                IpKey::V4(a) => {
                    if self.v4@.contains_key(a) {
                        assert(d4.contains(f4(a)));
                    }
                },
                IpKey::V6(a) => {
                    if self.v6@.contains_key(a) {
                        assert(d6.contains(f6(a)));
                    }
                },
            }
        }
        assert(self@.dom() =~= d4 + d6);
        assert(d4.disjoint(d6));
        lemma_set_disjoint_lens(d4, d6);
    }

    /// The history remembers finitely many IPs.
    pub proof fn lemma_finite(&self)
        ensures
            self@.dom().finite(),
    {
        self.v4.lemma_dom_finite();
        self.v6.lemma_dom_finite();
        self.lemma_len();
    }

    /// An empty history.
    pub fn new() -> (h: Self)
        ensures
            h@ == Map::<IpKey, u64>::empty(),
    {
        let h = IpHistory { v4: IntKeyMap::new(), v6: IntKeyMap::new() };
        assert(h@ =~= Map::<IpKey, u64>::empty());
        h
    }

    /// The number of remembered IPs, or `usize::MAX` if there are more.
    pub fn len(&self) -> (n: usize)
        ensures
            self@.dom().finite(),
            n == (if self@.len() <= usize::MAX {
                self@.len()
            } else {
                usize::MAX as nat
            }),
    {
        let n4 = self.v4.len();
        let n6 = self.v6.len();
        proof {
            self.lemma_len();
        }
        n4.saturating_add(n6)
    }

    /// Whether more than `max_size` IPs are remembered.
    fn longer_than(&self, max_size: usize) -> (b: bool)
        ensures
            self@.dom().finite(),
            b == (self@.len() > max_size),
    {
        let n4 = self.v4.len();
        let n6 = self.v6.len();
        proof {
            self.lemma_len();
        }
        n4 > max_size || n6 > max_size - n4
    }

    /// When `ip` last bootstrapped, if it did.
    pub fn last_attempt(&self, ip: IpKey) -> (r: Option<u64>)
        ensures
            r == (if self@.contains_key(ip) {
                Some(self@[ip])
            } else {
                None::<u64>
            }),
    {
        let t = match ip {
            IpKey::V4(a) => self.v4.get(&a),
            IpKey::V6(a) => self.v6.get(&a),
        };
        match t {
            Some(t) => Some(*t),
            None => None,
        }
    }

    /// Records `t` as the last attempt of `ip`.
    fn record(&mut self, ip: IpKey, t: u64)
        ensures
            final(self)@ == old(self)@.insert(ip, t),
    {
        match ip {
            IpKey::V4(a) => self.v4.insert(a, t),
            IpKey::V6(a) => self.v6.insert(a, t),
        }
        assert(self@ =~= old(self)@.insert(ip, t));
    }

    /// Forgets every IP.
    fn clear(&mut self)
        ensures
            final(self)@ == Map::<IpKey, u64>::empty(),
    {
        self.v4.clear();
        self.v6.clear();
        assert(self@ =~= Map::<IpKey, u64>::empty());
    }

    /// Keeps the IPs whose last attempt lies at most `max_age` before `now`.
    fn retain_recent(&mut self, now: u64, max_age: u64)
        ensures
            final(self)@ == recent_part(old(self)@, now, max_age),
    {
        self.v4.retain_recent(now, max_age);
        self.v6.retain_recent(now, max_age);
        assert(self@ =~= recent_part(old(self)@, now, max_age));
    }

    /// Checks whether `ip` attempts again within `min_interval` of its last
    /// attempt. If so, the history stays as it is and the time since the last
    /// attempt, measured at `read_at`, is the error; otherwise `now` is recorded
    /// as its last attempt.
    pub fn greedy_client_check(&mut self, ip: IpKey, now: u64, min_interval: u64, read_at: u64) -> (r:
        Result<(), u64>)
        ensures
            final(self)@ == after_attempt(old(self)@, ip, now, min_interval),
            greedy(old(self)@, ip, now, min_interval) ==> r == Err::<(), u64>(
                saturating_diff(read_at, old(self)@[ip]),
            ),
            !greedy(old(self)@, ip, now, min_interval) ==> r is Ok,
            final(self)@.len() <= old(self)@.len() + 1,
            // an IP seen at most `min_interval` before `now` is refused, with the
            // time since that attempt at `read_at`, and nothing is recorded
            old(self)@.contains_key(ip) && (now <= old(self)@[ip] || now - old(self)@[ip]
                <= min_interval) ==> final(self)@ == old(self)@ && r == Err::<(), u64>(
                (if read_at >= old(self)@[ip] {
                    read_at - old(self)@[ip]
                } else {
                    0
                }) as u64,
            ),
            // any other IP is let through and `now` is its last attempt
            !(old(self)@.contains_key(ip) && (now <= old(self)@[ip] || now - old(self)@[ip]
                <= min_interval)) ==> r is Ok && final(self)@ == old(self)@.insert(ip, now),
    {
        proof {
            self.lemma_finite();
            lemma_insert_len(self@, ip, now);
        }
        match self.last_attempt(ip) {
            Some(occ) => {
                let since = now.saturating_sub(occ);
                if since <= min_interval {
                    Err(read_at.saturating_sub(occ))
                } else {
                    self.record(ip, now);
                    Ok(())
                }
            },
            None => {
                self.record(ip, now);
                Ok(())
            },
        }
    }

    /// Past `max_size` entries, drops the expired ones; if still past
    /// `max_size`, forgets every IP. Returns whether it forgot everything.
    pub fn prune(&mut self, now: u64, min_interval: u64, max_size: usize) -> (cleared: bool)
        ensures
            final(self)@ == pruned(old(self)@, now, min_interval, max_size),
            cleared == (old(self)@.len() > max_size && recent_part(old(self)@, now, min_interval).len()
                > max_size),
            final(self)@.len() <= max_size,
            // within the limit nothing is forgotten
            old(self)@.len() <= max_size ==> final(self)@ == old(self)@ && !cleared,
            // past it, only expired IPs go, unless everything goes
            !cleared ==> forall|k: IpKey| #[trigger]
                final(self)@.contains_key(k) ==> old(self)@.contains_key(k) && final(self)@[k]
                    == old(self)@[k],
            !cleared && old(self)@.len() > max_size ==> forall|k: IpKey| #[trigger]
                old(self)@.contains_key(k) ==> (final(self)@.contains_key(k) <==> (now
                    <= old(self)@[k] || now - old(self)@[k] <= min_interval)),
            cleared ==> final(self)@ == Map::<IpKey, u64>::empty(),
    {
        if self.longer_than(max_size) {
            self.retain_recent(now, min_interval);
            if self.longer_than(max_size) {
                self.clear();
                return true;
            }
        }
        false
    }

    /// Decides what to do with a connection from `ip`: `allowed` is the
    /// verdict of the allow/block list, `slots` the running sessions, `now`
    /// the time of the decision and `read_at` the time at which the wait of a
    /// greedy client is measured. An accepted connection takes a session slot.
    pub fn handle_connection(
        &mut self,
        ip: IpKey,
        allowed: Result<(), String>,
        slots: &mut SessionSlots,
        limits: BootstrapLimits,
        now: u64,
        read_at: u64,
    ) -> (a: Admission)
        ensures
            final(slots).spec_max() == old(slots).spec_max(),
            final(slots).spec_active() == (if a is Accepted {
                old(slots).spec_active() + 1
            } else {
                old(slots).spec_active()
            }),
            final(slots).spec_active() <= final(slots).spec_max(),
            final(self)@ == history_after_connection(
                old(self)@,
                allowed is Ok && old(slots).spec_active() < old(slots).spec_max(),
                ip,
                now,
                limits,
            ),
            allowed is Err ==> final(self)@ == old(self)@ && a == Admission::NotAllowed(
                allowed->Err_0,
            ),
            allowed is Ok && old(slots).spec_active() >= old(slots).spec_max() ==> final(self)@
                == old(self)@ && a is NoSlots && a->NoSlots_0@ == no_slots_text(),
            allowed is Ok && old(slots).spec_active() < old(slots).spec_max() ==> final(self)@.len()
                <= limits.ip_list_max_size + 1,
            allowed is Ok && old(slots).spec_active() < old(slots).spec_max() ==> {
                let p = pruned(
                    old(self)@,
                    now,
                    limits.per_ip_min_interval,
                    limits.ip_list_max_size,
                );
                &&& final(self)@ == after_attempt(p, ip, now, limits.per_ip_min_interval)
                &&& greedy(p, ip, now, limits.per_ip_min_interval) ==> a is TooEarly
                    && a->TooEarly_0@ == too_early_text(
                    saturating_diff(read_at, p[ip]),
                    limits.per_ip_min_interval,
                )
                &&& !greedy(p, ip, now, limits.per_ip_min_interval) ==> a is Accepted
            },
    {
        proof {
            use_type_invariant(&*slots);
        }
        match allowed {
            Err(msg) => Admission::NotAllowed(msg),
            Ok(()) => {
                if slots.active() < slots.max() {
                    self.prune(now, limits.per_ip_min_interval, limits.ip_list_max_size);
                    match self.greedy_client_check(ip, now, limits.per_ip_min_interval, read_at) {
                        Err(waited) => Admission::TooEarly(
                            too_early_message(waited, limits.per_ip_min_interval),
                        ),
                        Ok(()) => {
                            slots.try_acquire();
                            Admission::Accepted
                        },
                    }
                } else {
                    Admission::NoSlots(no_slots_message())
                }
            },
        }
    }
}

proof fn lemma_insert_len(m: Map<IpKey, u64>, k: IpKey, v: u64)
    requires
        m.dom().finite(),
    ensures
        m.insert(k, v).dom().finite(),
        m.insert(k, v).len() <= m.len() + 1,
{
    if m.contains_key(k) {
        assert(m.insert(k, v).dom() =~= m.dom());
    }
}

/// An IP that was let through at `now` is refused at any later time within
/// `min_interval` of `now`.
pub proof fn lemma_accepted_ip_waits(
    hist: Map<IpKey, u64>,
    ip: IpKey,
    now: u64,
    later: u64,
    min_interval: u64,
)
    requires
        !greedy(hist, ip, now, min_interval),
        now <= later,
        later - now <= min_interval,
    ensures
        greedy(after_attempt(hist, ip, now, min_interval), ip, later, min_interval),
{
}

/// Pruning keeps every IP that is still within its waiting time, unless it
/// forgets everything because too many IPs are still waiting.
pub proof fn lemma_prune_keeps_waiting_ips(
    hist: Map<IpKey, u64>,
    ip: IpKey,
    now: u64,
    min_interval: u64,
    max_size: usize,
)
    requires
        greedy(hist, ip, now, min_interval),
    ensures
        greedy(pruned(hist, now, min_interval, max_size), ip, now, min_interval) || pruned(
            hist,
            now,
            min_interval,
            max_size,
        ) == Map::<IpKey, u64>::empty(),
{
    if hist.len() > max_size {
        let recent = recent_part(hist, now, min_interval);
        assert(recent.contains_key(ip));
    }
}

/// A pruned history holds at most `max_size` IPs, and one attempt adds at
/// most one: the history never holds more than `max_size + 1` IPs right after
/// a connection is handled.
pub proof fn lemma_history_bounded(
    hist: Map<IpKey, u64>,
    ip: IpKey,
    now: u64,
    min_interval: u64,
    max_size: usize,
)
    requires
        hist.dom().finite(),
    ensures
        pruned(hist, now, min_interval, max_size).dom().finite(),
        after_attempt(pruned(hist, now, min_interval, max_size), ip, now, min_interval).dom().finite(),
        pruned(hist, now, min_interval, max_size).len() <= max_size,
        after_attempt(pruned(hist, now, min_interval, max_size), ip, now, min_interval).len()
            <= max_size + 1,
{
    let p = pruned(hist, now, min_interval, max_size);
    if hist.len() > max_size {
        let recent = recent_part(hist, now, min_interval);
        assert(recent.dom() =~= hist.dom().filter(|k: IpKey| elapsed(now, hist[k]) <= min_interval));
        hist.dom().lemma_len_filter(|k: IpKey| elapsed(now, hist[k]) <= min_interval);
        if recent.len() > max_size {
            assert(p.dom() =~= Set::<IpKey>::empty());
        }
    }
    lemma_insert_len(p, ip, now);
}

/// The history after a connection from `ip` at `now`: an admitted one (let
/// through by the allow/block list, with a free session slot) prunes the
/// history and then records the attempt unless it is greedy; any other leaves
/// the history as it was.
pub open spec fn history_after_connection(
    hist: Map<IpKey, u64>,
    admitted: bool,
    ip: IpKey,
    now: u64,
    limits: BootstrapLimits,
) -> Map<IpKey, u64> {
    if admitted {
        after_attempt(
            pruned(hist, now, limits.per_ip_min_interval, limits.ip_list_max_size),
            ip,
            now,
            limits.per_ip_min_interval,
        )
    } else {
        hist
    }
}

/// The history after the connections `conns`, in order, each given as
/// whether it was admitted, its IP and its time.
pub open spec fn history_after_run(
    hist: Map<IpKey, u64>,
    conns: Seq<(bool, IpKey, u64)>,
    limits: BootstrapLimits,
) -> Map<IpKey, u64>
    decreases conns.len(),
{
    if conns.len() == 0 {
        hist
    } else {
        let c = conns.last();
        history_after_connection(history_after_run(hist, conns.drop_last(), limits), c.0, c.1, c.2, limits)
    }
}

/// Over any run of connections, a history that starts within its limit plus
/// one (an empty one, as the server starts with) stays within it: the server
/// never remembers more than `ip_list_max_size + 1` IPs.
pub proof fn lemma_history_bounded_over_runs(
    hist: Map<IpKey, u64>,
    conns: Seq<(bool, IpKey, u64)>,
    limits: BootstrapLimits,
)
    requires
        hist.dom().finite(),
        hist.len() <= limits.ip_list_max_size + 1,
    ensures
        history_after_run(hist, conns, limits).dom().finite(),
        history_after_run(hist, conns, limits).len() <= limits.ip_list_max_size + 1,
    decreases conns.len(),
{
    if conns.len() > 0 {
        let c = conns.last();
        lemma_history_bounded_over_runs(hist, conns.drop_last(), limits);
        if c.0 {
            lemma_history_bounded(
                history_after_run(hist, conns.drop_last(), limits),
                c.1,
                c.2,
                limits.per_ip_min_interval,
                limits.ip_list_max_size,
            );
        }
    }
}

/// A refused client leaves the history as it was.
pub proof fn lemma_refusal_keeps_history(
    hist: Map<IpKey, u64>,
    ip: IpKey,
    now: u64,
    min_interval: u64,
)
    requires
        greedy(hist, ip, now, min_interval),
    ensures
        after_attempt(hist, ip, now, min_interval) == hist,
{
}

} // verus!
