//! The monitor: a gateway, a primary internet host and the hosts to fall
//! back on, probed one after another, round after round.
//!
//! The monitor sends nothing itself. It names the host to probe next, takes
//! in what the probe brought and returns the records to write.

use crate::event::{Event, EventView};
use crate::probe::{PingEvent, PingEventView, ProbeResult, ProbeResultView};
use crate::state::{lemma_fallbacks_unread, EventKind, MonitorState, Sample};
use vstd::prelude::*;

verus! {

/// Whose answer the monitor waits for. A round starts with the gateway.
#[derive(Clone, Copy, Debug, PartialEq, Eq, Structural)]
pub enum Phase {
    Gateway,
    Primary,
    /// The fallback host at this place in the list.
    Fallback(usize),
}

/// Whether any of `hosts` answered its last probe.
pub open spec fn any_ok(hosts: Seq<PingEventView>) -> bool {
    exists|j: int| 0 <= j < hosts.len() && hosts[j].ok
}

/// Whether any of `results` is a success.
pub open spec fn any_success(results: Seq<ProbeResultView>) -> bool {
    exists|j: int| 0 <= j < results.len() && results[j].success
}

/// The record of kind `kind` written at `now`; `failed` are the hosts whose
/// diagnostics go with it if it reports a failure.
pub open spec fn record(kind: EventKind, now: Seq<char>, failed: Seq<PingEventView>) -> EventView {
    EventView {
        kind,
        timestamp: now,
        detail: if kind.spec_is_down() {
            failed
        } else {
            Seq::empty()
        },
    }
}

/// The records for `kind`, which may be absent.
pub open spec fn records(
    kind: Option<EventKind>,
    now: Seq<char>,
    failed: Seq<PingEventView>,
) -> Seq<EventView> {
    match kind {
        Some(kind) => seq![record(kind, now, failed)],
        None => Seq::empty(),
    }
}

/// A [`ReachabilityMonitor`] as plain values.
pub struct MonitorView {
    pub gateway: PingEventView,
    pub primary: PingEventView,
    pub fallbacks: Seq<PingEventView>,
    pub state: MonitorState,
    pub phase: Phase,
}

impl MonitorView {
    /// A fallback host that is waited for is one of the list.
    pub open spec fn wf(self) -> bool {
        self.phase matches Phase::Fallback(i) ==> i < self.fallbacks.len()
    }

    /// A monitor that has not probed yet.
    pub open spec fn fresh(
        gateway: Seq<char>,
        primary: Seq<char>,
        fallbacks: Seq<Seq<char>>,
    ) -> MonitorView {
        MonitorView {
            gateway: PingEventView::fresh(gateway),
            primary: PingEventView::fresh(primary),
            fallbacks: fallbacks.map_values(|url: Seq<char>| PingEventView::fresh(url)),
            state: MonitorState::initial(),
            phase: Phase::Gateway,
        }
    }

    /// The host to probe next.
    pub open spec fn next_host(self) -> Seq<char> {
        match self.phase {
            Phase::Gateway => self.gateway.url,
            Phase::Primary => self.primary.url,
            Phase::Fallback(i) => self.fallbacks[i as int].url,
        }
    }

    /// What the last probes of this round found.
    pub open spec fn sample(self) -> Sample {
        Sample {
            gateway_ok: self.gateway.ok,
            primary_ok: self.primary.ok,
            fallback_ok: any_ok(self.fallbacks),
        }
    }

    /// The monitor once the round is closed on what the hosts hold.
    pub open spec fn concluded(self) -> MonitorView {
        MonitorView {
            state: MonitorState { started: true, ..self.state.after_connection(self.sample()) },
            phase: Phase::Gateway,
            ..self
        }
    }

    /// The records written when the round is closed. A connection reported
    /// down comes with the primary host and every fallback host.
    pub open spec fn conclusion_records(self, now: Seq<char>) -> Seq<EventView> {
        records(
            self.state.connection_event(self.sample()),
            now,
            seq![self.primary] + self.fallbacks,
        )
    }

    /// The monitor with `result` stored in the host that it waited for.
    pub open spec fn stored(self, result: ProbeResultView) -> MonitorView {
        match self.phase {
            Phase::Gateway => MonitorView { gateway: self.gateway.probed(result), ..self },
            Phase::Primary => MonitorView { primary: self.primary.probed(result), ..self },
            Phase::Fallback(i) => MonitorView {
                fallbacks: self.fallbacks.update(
                    i as int,
                    self.fallbacks[i as int].probed(result),
                ),
                ..self
            },
        }
    }

    /// Whether the round goes on to the fallback hosts once the primary
    /// host's answer is in.
    pub open spec fn asks_fallbacks(self) -> bool {
        self.state.consults_fallbacks(self.gateway.ok, self.primary.ok) && self.fallbacks.len()
            > 0
    }

    /// The monitor after it has taken in `result` for the host that it
    /// waited for.
    pub open spec fn after_probe(self, result: ProbeResultView) -> MonitorView {
        let stored = self.stored(result);
        match self.phase {
            Phase::Gateway => MonitorView {
                state: self.state.after_gateway(result.success),
                phase: Phase::Primary,
                ..stored
            },
            Phase::Primary => if stored.asks_fallbacks() {
                MonitorView { phase: Phase::Fallback(0), ..stored }
            } else {
                stored.concluded()
            },
            Phase::Fallback(i) => if i + 1 < self.fallbacks.len() {
                MonitorView { phase: Phase::Fallback((i + 1) as usize), ..stored }
            } else {
                stored.concluded()
            },
        }
    }

    /// The records written when `result` comes in at `now`.
    pub open spec fn probe_records(self, result: ProbeResultView, now: Seq<char>) -> Seq<
        EventView,
    > {
        let stored = self.stored(result);
        match self.phase {
            Phase::Gateway => records(
                self.state.gateway_event(result.success),
                now,
                seq![stored.gateway],
            ),
            Phase::Primary => if stored.asks_fallbacks() {
                Seq::empty()
            } else {
                stored.conclusion_records(now)
            },
            Phase::Fallback(i) => if i + 1 < self.fallbacks.len() {
                Seq::empty()
            } else {
                stored.conclusion_records(now)
            },
        }
    }

    /// What a whole round found, from the results of its probes. The
    /// results in `fallbacks` count only in a round that asks the fallback
    /// hosts.
    pub open spec fn round_sample(
        gateway: ProbeResultView,
        primary: ProbeResultView,
        fallbacks: Seq<ProbeResultView>,
    ) -> Sample {
        Sample {
            gateway_ok: gateway.success,
            primary_ok: primary.success,
            fallback_ok: any_success(fallbacks),
        }
    }

    /// The monitor after a whole round: the gateway and the primary host
    /// are probed in every round, the fallback hosts only where the gateway
    /// answers, the primary host does not, and the connection is up or was
    /// never judged.
    pub open spec fn after_tick(
        self,
        gateway: ProbeResultView,
        primary: ProbeResultView,
        fallbacks: Seq<ProbeResultView>,
    ) -> MonitorView {
        MonitorView {
            gateway: self.gateway.probed(gateway),
            primary: self.primary.probed(primary),
            fallbacks: if self.state.consults_fallbacks(gateway.success, primary.success) {
                Seq::new(self.fallbacks.len(), |j: int| self.fallbacks[j].probed(fallbacks[j]))
            } else {
                self.fallbacks
            },
            state: self.state.after_tick(MonitorView::round_sample(gateway, primary, fallbacks)),
            phase: Phase::Gateway,
        }
    }

    /// The records of a whole round, in the order in which they are
    /// written: the gateway's, then the connection's.
    pub open spec fn tick_records(
        self,
        gateway: ProbeResultView,
        primary: ProbeResultView,
        fallbacks: Seq<ProbeResultView>,
        now: Seq<char>,
    ) -> Seq<EventView> {
        let after = self.after_tick(gateway, primary, fallbacks);
        records(self.state.gateway_event(gateway.success), now, seq![after.gateway]) + records(
            self.state.connection_event(MonitorView::round_sample(gateway, primary, fallbacks)),
            now,
            seq![after.primary] + after.fallbacks,
        )
    }
}

impl MonitorView {
    /// The monitor in a round that asks the fallback hosts, when the first
    /// `answered` of them have been probed.
    spec fn asking(
        self,
        gateway: ProbeResultView,
        primary: ProbeResultView,
        fallbacks: Seq<ProbeResultView>,
        answered: int,
    ) -> MonitorView {
        MonitorView {
            gateway: self.gateway.probed(gateway),
            primary: self.primary.probed(primary),
            fallbacks: Seq::new(
                self.fallbacks.len(),
                |k: int|
                    if k < answered {
                        self.fallbacks[k].probed(fallbacks[k])
                    } else {
                        self.fallbacks[k]
                    },
            ),
            state: self.state.after_gateway(gateway.success),
            phase: Phase::Fallback(answered as usize),
        }
    }
}

/// The reachability monitor.
#[derive(Debug)]
pub struct ReachabilityMonitor {
    gateway: PingEvent,
    primary: PingEvent,
    fallbacks: Vec<PingEvent>,
    state: MonitorState,
    phase: Phase,
}

impl View for ReachabilityMonitor {
    type V = MonitorView;

    closed spec fn view(&self) -> MonitorView {
        MonitorView {
            gateway: self.gateway@,
            primary: self.primary@,
            fallbacks: self.fallbacks.deep_view(),
            state: self.state,
            phase: self.phase,
        }
    }
}

/// Whether any of `hosts` answered its last probe.
fn any_answered(hosts: &Vec<PingEvent>) -> (found: bool)
    ensures
        found == any_ok(hosts.deep_view()),
{
    let mut j: usize = 0;
    while j < hosts.len()
        invariant
            j <= hosts.len(),
            forall|k: int| 0 <= k < j ==> !hosts.deep_view()[k].ok,
        decreases hosts.len() - j,
    {
        if hosts[j].ok {
            assert(hosts.deep_view()[j as int].ok);
            return true;
        }
        j += 1;
    }
    false
}

/// Copies of the primary host and of every fallback host.
fn internet_hosts(primary: &PingEvent, fallbacks: &Vec<PingEvent>) -> (hosts: Vec<PingEvent>)
    ensures
        hosts.deep_view() == seq![primary@] + fallbacks.deep_view(),
{
    let mut hosts: Vec<PingEvent> = Vec::new();
    hosts.push(primary.clone());
    assert(hosts.deep_view() == seq![primary@] + fallbacks.deep_view().take(0));
    let mut j: usize = 0;
    while j < fallbacks.len()
        invariant
            j <= fallbacks.len(),
            hosts.deep_view() == seq![primary@] + fallbacks.deep_view().take(j as int),
        decreases fallbacks.len() - j,
    {
        let ghost before = hosts.deep_view();
        hosts.push(fallbacks[j].clone());
        assert(hosts.deep_view() == before.push(fallbacks.deep_view()[j as int]));
        assert(fallbacks.deep_view().take(j + 1) == fallbacks.deep_view().take(j as int).push(
            fallbacks.deep_view()[j as int],
        ));
        j += 1;
    }
    assert(fallbacks.deep_view().take(fallbacks.len() as int) == fallbacks.deep_view());
    hosts
}

/// The records for `kind`, which may be absent, with `failed` under a
/// record of a failure.
fn records_of(kind: Option<EventKind>, now: &str, failed: Vec<PingEvent>) -> (events: Vec<Event>)
    ensures
        events.deep_view() == records(kind, now@, failed.deep_view()),
{
    let mut events: Vec<Event> = Vec::new();
    if let Some(kind) = kind {
        let detail = if kind.is_down() {
            failed
        } else {
            Vec::new()
        };
        assert(detail.deep_view() == record(kind, now@, failed.deep_view()).detail);
        let event = Event { kind, timestamp: now.to_owned(), detail };
        assert(event@ == record(kind, now@, failed.deep_view()));
        events.push(event);
    }
    events
}

impl ReachabilityMonitor {
    /// A monitor for these hosts that has not probed yet.
    pub fn new(gateway: &str, primary: &str, fallbacks: &Vec<String>) -> (monitor:
        ReachabilityMonitor)
        ensures
            monitor@ == MonitorView::fresh(gateway@, primary@, fallbacks.deep_view()),
            monitor@.wf(),
    {
        let mut hosts: Vec<PingEvent> = Vec::new();
        let mut j: usize = 0;
        let ghost fresh = |url: Seq<char>| PingEventView::fresh(url);
        assert(hosts.deep_view() == fallbacks.deep_view().take(0).map_values(fresh));
        while j < fallbacks.len()
            invariant
                j <= fallbacks.len(),
                fresh == |url: Seq<char>| PingEventView::fresh(url),
                hosts.deep_view() == fallbacks.deep_view().take(j as int).map_values(fresh),
            decreases fallbacks.len() - j,
        {
            let ghost before = hosts.deep_view();
            let ghost url = fallbacks.deep_view()[j as int];
            hosts.push(PingEvent::new(fallbacks[j].as_str()));
            assert(hosts.deep_view() == before.push(fresh(url)));
            assert(fallbacks.deep_view().take(j + 1) == fallbacks.deep_view().take(j as int).push(
                url,
            ));
            j += 1;
        }
        assert(fallbacks.deep_view().take(fallbacks.len() as int) == fallbacks.deep_view());
        ReachabilityMonitor {
            gateway: PingEvent::new(gateway),
            primary: PingEvent::new(primary),
            fallbacks: hosts,
            state: MonitorState::new(),
            phase: Phase::Gateway,
        }
    }

    /// Whether the host that the monitor waits for is one of its hosts. It
    /// is, for a monitor that [`new`](Self::new) made, whatever it has
    /// taken in since.
    pub fn well_formed(&self) -> (yes: bool)
        ensures
            yes == self@.wf(),
    {
        match self.phase {
            Phase::Fallback(i) => i < self.fallbacks.len(),
            _ => true,
        }
    }

    /// The flags as they stand.
    pub fn state(&self) -> (state: MonitorState)
        ensures
            state == self@.state,
    {
        self.state
    }

    /// Whose answer the monitor waits for.
    pub fn phase(&self) -> (phase: Phase)
        ensures
            phase == self@.phase,
    {
        self.phase
    }

    /// Whether the next probe opens a round. The runner rests before it
    /// sends that probe, but for the first.
    pub fn at_round_start(&self) -> (yes: bool)
        ensures
            yes == (self@.phase == Phase::Gateway),
    {
        match self.phase {
            Phase::Gateway => true,
            _ => false,
        }
    }

    /// The gateway, with what its last probes left behind.
    pub fn gateway(&self) -> (host: &PingEvent)
        ensures
            host@ == self@.gateway,
    {
        &self.gateway
    }

    /// The primary internet host.
    pub fn primary(&self) -> (host: &PingEvent)
        ensures
            host@ == self@.primary,
    {
        &self.primary
    }

    /// The fallback hosts, in the order in which they are asked.
    pub fn fallbacks(&self) -> (hosts: &Vec<PingEvent>)
        ensures
            hosts.deep_view() == self@.fallbacks,
    {
        &self.fallbacks
    }

    /// The host to probe next: the gateway, then the primary host, then,
    /// where the round asks them, each fallback host in the order of the
    /// list.
    pub fn next_host(&self) -> (url: &str)
        requires
            self@.wf(),
        ensures
            url@ == self@.next_host(),
    {
        match self.phase {
            Phase::Gateway => self.gateway.url.as_str(),
            Phase::Primary => self.primary.url.as_str(),
            Phase::Fallback(i) => self.fallbacks[i].url.as_str(),
        }
    }

    /// Closes the round on what the hosts hold.
    fn conclude(&mut self, now: &str) -> (events: Vec<Event>)
        ensures
            final(self)@ == old(self)@.concluded(),
            events.deep_view() == old(self)@.conclusion_records(now@),
    {
        let sample = Sample {
            gateway_ok: self.gateway.ok,
            primary_ok: self.primary.ok,
            fallback_ok: any_answered(&self.fallbacks),
        };
        let kind = self.state.observe_connection(sample);
        self.state.complete_round();
        self.phase = Phase::Gateway;
        records_of(kind, now, internet_hosts(&self.primary, &self.fallbacks))
    }

    /// Takes in what the probe of [`next_host`](Self::next_host) brought at
    /// `now`, and returns the records to write, in order.
    pub fn on_probe(&mut self, result: ProbeResult, now: &str) -> (events: Vec<Event>)
        requires
            old(self)@.wf(),
        ensures
            final(self)@.wf(),
            final(self)@ == old(self)@.after_probe(result@),
            events.deep_view() == old(self)@.probe_records(result@, now@),
    {
        match self.phase {
            Phase::Gateway => {
                let ok = self.gateway.ping(result);
                let kind = self.state.observe_gateway(ok);
                self.phase = Phase::Primary;
                let mut failed: Vec<PingEvent> = Vec::new();
                failed.push(self.gateway.clone());
                assert(failed.deep_view() == seq![self.gateway@]);
                records_of(kind, now, failed)
            },
            Phase::Primary => {
                let ok = self.primary.ping(result);
                if self.state.wants_fallbacks(self.gateway.ok, ok) && self.fallbacks.len() > 0 {
                    self.phase = Phase::Fallback(0);
                    let events: Vec<Event> = Vec::new();
                    assert(events.deep_view() == Seq::<EventView>::empty());
                    events
                } else {
                    self.conclude(now)
                }
            },
            Phase::Fallback(i) => {
                assert(i < self.fallbacks.len());
                let mut host = self.fallbacks[i].clone();
                host.ping(result);
                let ghost before = self.fallbacks.deep_view();
                self.fallbacks.set(i, host);
                assert(self.fallbacks.deep_view() == before.update(
                    i as int,
                    before[i as int].probed(result@),
                ));
                if i + 1 < self.fallbacks.len() {
                    self.phase = Phase::Fallback(i + 1);
                    let events: Vec<Event> = Vec::new();
                    assert(events.deep_view() == Seq::<EventView>::empty());
                    events
                } else {
                    self.conclude(now)
                }
            },
        }
    }

    /// One whole round, from its start, on results that are already known:
    /// the gateway's, the primary host's, and one for each fallback host,
    /// in the order of the list. The results in `fallbacks` are used only
    /// in a round that asks the fallback hosts. All records carry the time
    /// stamp `now`.
    pub fn tick(
        &mut self,
        gateway: ProbeResult,
        primary: ProbeResult,
        fallbacks: Vec<ProbeResult>,
        now: &str,
    ) -> (events: Vec<Event>)
        requires
            old(self)@.phase == Phase::Gateway,
            fallbacks.len() == old(self)@.fallbacks.len(),
        ensures
            final(self)@.wf(),
            final(self)@ == old(self)@.after_tick(gateway@, primary@, fallbacks.deep_view()),
            events.deep_view() == old(self)@.tick_records(
                gateway@,
                primary@,
                fallbacks.deep_view(),
                now@,
            ),
    {
        let ghost start = self@;
        let ghost results = fallbacks.deep_view();
        let ghost sample = MonitorView::round_sample(gateway@, primary@, results);
        let ghost first = records(
            start.state.gateway_event(gateway@.success),
            now@,
            seq![start.gateway.probed(gateway@)],
        );
        let mut events = self.on_probe(gateway, now);
        let ghost midway = self@;
        let mut more = self.on_probe(primary, now);
        let ghost second = more.deep_view();
        events.append(&mut more);
        assert(events.deep_view() == first + second);
        if self.at_round_start() {
            proof {
                let stored = midway.stored(primary@);
                if start.state.consults_fallbacks(gateway@.success, primary@.success) {
                    assert(start.fallbacks.len() == 0);
                    assert(!any_ok(stored.fallbacks));
                    assert(!any_success(results));
                    assert(self@.fallbacks == Seq::new(
                        start.fallbacks.len(),
                        |j: int| start.fallbacks[j].probed(results[j]),
                    ));
                } else {
                    lemma_fallbacks_unread(stored.state, stored.sample(), sample);
                }
            }
            return events;
        }
        let count: usize = self.fallbacks.len();
        let mut rest = fallbacks;
        let mut j: usize = 0;
        assert(self@.fallbacks == start.asking(gateway@, primary@, results, 0).fallbacks);
        assert(self@ == start.asking(gateway@, primary@, results, 0));
        while j < count
            invariant
                j <= count,
                count == start.fallbacks.len(),
                count == results.len(),
                start.phase == Phase::Gateway,
                start.state.consults_fallbacks(gateway@.success, primary@.success),
                sample == MonitorView::round_sample(gateway@, primary@, results),
                rest.deep_view() == results.skip(j as int),
                self@.wf(),
                j < count ==> self@ == start.asking(gateway@, primary@, results, j as int),
                j < count ==> events.deep_view() == first,
                first == records(
                    start.state.gateway_event(gateway@.success),
                    now@,
                    seq![start.gateway.probed(gateway@)],
                ),
                j == count ==> self@ == start.after_tick(gateway@, primary@, results),
                j == count ==> events.deep_view() == start.tick_records(
                    gateway@,
                    primary@,
                    results,
                    now@,
                ),
            decreases count - j,
        {
            let ghost before = self@;
            let ghost written = events.deep_view();
            let ghost waiting = rest.deep_view();
            assert(waiting.len() == rest.len());
            assert(waiting[0] == results[j as int]);
            let result = rest.remove(0);
            assert(result@ == results[j as int]);
            assert(rest.deep_view() == results.skip(j + 1)) by {
                assert forall|k: int| 0 <= k < rest.len() implies rest.deep_view()[k]
                    == results.skip(j + 1)[k] by {
                    assert(rest.deep_view()[k] == waiting[k + 1]);
                }
            }
            let mut more = self.on_probe(result, now);
            let ghost added = more.deep_view();
            events.append(&mut more);
            assert(events.deep_view() == written + added);
            proof {
                let stored = before.stored(results[j as int]);
                assert(stored.fallbacks == start.asking(
                    gateway@,
                    primary@,
                    results,
                    j + 1,
                ).fallbacks);
                if j + 1 == count {
                    let after = start.after_tick(gateway@, primary@, results);
                    assert(stored.fallbacks == after.fallbacks);
                    assert(any_ok(stored.fallbacks) == any_success(results)) by {
                        if any_ok(stored.fallbacks) {
                            let k = choose|k: int|
                                0 <= k < stored.fallbacks.len() && stored.fallbacks[k].ok;
                            assert(results[k].success);
                        }
                        if any_success(results) {
                            let k = choose|k: int| 0 <= k < results.len() && results[k].success;
                            assert(stored.fallbacks[k].ok);
                        }
                    }
                    assert(stored.sample() == sample);
                }
            }
            j += 1;
        }
        events
    }
}

/// Whatever the monitor waits for, a result that it takes in changes the
/// connection flag, or gives rise to a connection record, only if the
/// gateway answered its last probe.
pub proof fn lemma_probe_connection_needs_gateway(
    monitor: MonitorView,
    result: ProbeResultView,
    now: Seq<char>,
)
    requires
        monitor.wf(),
        !monitor.stored(result).gateway.ok,
    ensures
        monitor.after_probe(result).state.connection_up == monitor.state.connection_up,
        forall|i: int|
            0 <= i < monitor.probe_records(result, now).len() ==> !(
            #[trigger] monitor.probe_records(result, now)[i]).kind.is_connection(),
{
}

/// The records of a round are of the kinds that the flags call for, in the
/// same order, and all carry the time stamp of the round; the flags after
/// the round are those that the rules of the flags give.
pub proof fn lemma_round_follows_flags(
    monitor: MonitorView,
    gateway: ProbeResultView,
    primary: ProbeResultView,
    fallbacks: Seq<ProbeResultView>,
    now: Seq<char>,
)
    ensures
        monitor.tick_records(gateway, primary, fallbacks, now).map_values(
            |event: EventView| event.kind,
        ) == monitor.state.tick_events(MonitorView::round_sample(gateway, primary, fallbacks)),
        forall|i: int|
            0 <= i < monitor.tick_records(gateway, primary, fallbacks, now).len() ==> (
            #[trigger] monitor.tick_records(gateway, primary, fallbacks, now)[i]).timestamp == now,
        monitor.after_tick(gateway, primary, fallbacks).state == monitor.state.after_tick(
            MonitorView::round_sample(gateway, primary, fallbacks),
        ),
{
}

/// A round in which the gateway does not answer writes no connection
/// record, leaves the connection flag as it was and does not touch the
/// fallback hosts, whatever the internet hosts answered.
pub proof fn lemma_round_without_gateway(
    monitor: MonitorView,
    gateway: ProbeResultView,
    primary: ProbeResultView,
    fallbacks: Seq<ProbeResultView>,
    now: Seq<char>,
)
    requires
        !gateway.success,
    ensures
        monitor.after_tick(gateway, primary, fallbacks).state.connection_up
            == monitor.state.connection_up,
        monitor.after_tick(gateway, primary, fallbacks).fallbacks == monitor.fallbacks,
        forall|i: int|
            0 <= i < monitor.tick_records(gateway, primary, fallbacks, now).len() ==> !(
            #[trigger] monitor.tick_records(
                gateway,
                primary,
                fallbacks,
                now,
            )[i]).kind.is_connection(),
{
}

/// The records of the first round say what was found: one gateway record,
/// and with the gateway up one connection record, up if the primary host
/// answered and down, with the diagnostics of the primary host and of every
/// fallback host, if no host did. Left out is the round in which the
/// gateway answers and, of the internet hosts, only a fallback host.
pub proof fn lemma_first_round_reports(
    monitor: MonitorView,
    gateway: ProbeResultView,
    primary: ProbeResultView,
    fallbacks: Seq<ProbeResultView>,
    now: Seq<char>,
)
    requires
        !monitor.state.started,
        !(gateway.success && !primary.success && any_success(fallbacks)),
    ensures
        ({
            let after = monitor.after_tick(gateway, primary, fallbacks);
            &&& monitor.tick_records(gateway, primary, fallbacks, now) == if gateway.success {
                seq![
                    record(EventKind::GatewayUp, now, Seq::empty()),
                    record(
                        EventKind::connection(primary.success),
                        now,
                        seq![after.primary] + after.fallbacks,
                    ),
                ]
            } else {
                seq![record(EventKind::GatewayDown, now, seq![after.gateway])]
            }
            &&& after.state.started
            &&& after.state.gateway_up == gateway.success
            &&& gateway.success ==> after.state.connection_up == primary.success
        }),
{
}

/// A round that finds what the round before it found writes nothing and
/// changes nothing.
pub proof fn lemma_repeated_round_is_silent(
    monitor: MonitorView,
    gateway: ProbeResultView,
    primary: ProbeResultView,
    fallbacks: Seq<ProbeResultView>,
    now: Seq<char>,
)
    ensures
        ({
            let after = monitor.after_tick(gateway, primary, fallbacks);
            &&& after.tick_records(gateway, primary, fallbacks, now) == Seq::<EventView>::empty()
            &&& after.after_tick(gateway, primary, fallbacks) == after
        }),
{
    let after = monitor.after_tick(gateway, primary, fallbacks);
    assert(after.after_tick(gateway, primary, fallbacks).fallbacks == after.fallbacks);
}

/// While a fallback host answers, a failing primary host does not bring the
/// connection down: the round writes no connection record and the
/// connection flag stays as it was.
pub proof fn lemma_round_fallback_answers(
    monitor: MonitorView,
    gateway: ProbeResultView,
    primary: ProbeResultView,
    fallbacks: Seq<ProbeResultView>,
    now: Seq<char>,
)
    requires
        !primary.success,
        any_success(fallbacks),
    ensures
        monitor.after_tick(gateway, primary, fallbacks).state.connection_up
            == monitor.state.connection_up,
        forall|i: int|
            0 <= i < monitor.tick_records(gateway, primary, fallbacks, now).len() ==> !(
            #[trigger] monitor.tick_records(
                gateway,
                primary,
                fallbacks,
                now,
            )[i]).kind.is_connection(),
{
}

/// With the gateway up and the connection up or never judged, a round in
/// which neither the primary host nor any fallback host answers ends in one
/// record that the connection is down, and writes no other connection
/// record. The record carries the primary host and then every fallback
/// host, each with the diagnostics of its probe in this round.
pub proof fn lemma_round_all_failing(
    monitor: MonitorView,
    gateway: ProbeResultView,
    primary: ProbeResultView,
    fallbacks: Seq<ProbeResultView>,
    now: Seq<char>,
)
    requires
        gateway.success,
        !primary.success,
        !any_success(fallbacks),
        monitor.state.connection_up || !monitor.state.started,
    ensures
        ({
            let written = monitor.tick_records(gateway, primary, fallbacks, now);
            let down = written.last();
            &&& written == records(
                monitor.state.gateway_event(true),
                now,
                Seq::empty(),
            ).push(down)
            &&& down.kind == EventKind::ConnectionDown
            &&& down.timestamp == now
            &&& down.detail.len() == 1 + monitor.fallbacks.len()
            &&& down.detail[0] == monitor.primary.probed(primary)
            &&& forall|j: int|
                0 <= j < monitor.fallbacks.len() ==> #[trigger] down.detail[j + 1]
                    == monitor.fallbacks[j].probed(fallbacks[j])
            &&& !monitor.after_tick(gateway, primary, fallbacks).state.connection_up
        }),
{
}

} // verus!
