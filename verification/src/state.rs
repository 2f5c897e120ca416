//! The two up/down flags of the monitor and the rules by which one round of
//! probing changes them.

use vstd::prelude::*;

verus! {

/// What a record in the log is about.
#[derive(Clone, Copy, Debug, PartialEq, Eq, Structural)]
pub enum EventKind {
    GatewayUp,
    GatewayDown,
    ConnectionUp,
    ConnectionDown,
    ProcessStart,
    ProcessEnd,
}

impl EventKind {
    /// The gateway record for a gateway that answered (`up`) or did not.
    pub open spec fn gateway(up: bool) -> EventKind {
        if up {
            EventKind::GatewayUp
        } else {
            EventKind::GatewayDown
        }
    }

    /// The connection record for a connection found up or down.
    pub open spec fn connection(up: bool) -> EventKind {
        if up {
            EventKind::ConnectionUp
        } else {
            EventKind::ConnectionDown
        }
    }

    /// Whether records of this kind carry the diagnostics of the hosts that failed.
    pub open spec fn spec_is_down(self) -> bool {
        self == EventKind::GatewayDown || self == EventKind::ConnectionDown
    }

    /// Whether this is one of the two connection records.
    pub open spec fn is_connection(self) -> bool {
        self == EventKind::ConnectionUp || self == EventKind::ConnectionDown
    }

    /// Whether this is one of the two gateway records.
    pub open spec fn is_gateway(self) -> bool {
        self == EventKind::GatewayUp || self == EventKind::GatewayDown
    }

    /// Whether records of this kind report a failure.
    #[verifier::when_used_as_spec(spec_is_down)]
    pub fn is_down(self) -> (down: bool)
        ensures
            down == self.spec_is_down(),
    {
        match self {
            EventKind::GatewayDown | EventKind::ConnectionDown => true,
            _ => false,
        }
    }
}

/// What one round of probing found, as far as the flags depend on it.
///
/// `fallback_ok` says whether any fallback host answered. It is only looked
/// at in a round that asks the fallback hosts, see
/// [`MonitorState::consults_fallbacks`].
#[derive(Clone, Copy, Debug, PartialEq, Eq, Structural)]
pub struct Sample {
    pub gateway_ok: bool,
    pub primary_ok: bool,
    pub fallback_ok: bool,
}

impl Sample {
    /// What the round says about the connection: `Some(true)` when the
    /// primary host answered, `Some(false)` when neither it nor any fallback
    /// host did, and `None` when only a fallback host answered, which
    /// neither confirms the connection nor condemns it.
    pub open spec fn verdict(self) -> Option<bool> {
        if self.primary_ok {
            Some(true)
        } else if self.fallback_ok {
            None
        } else {
            Some(false)
        }
    }
}

/// The flags that the monitor keeps between rounds.
#[derive(Clone, Copy, Debug, PartialEq, Eq, Structural)]
pub struct MonitorState {
    pub gateway_up: bool,
    pub connection_up: bool,
    /// False until the first round is complete.
    pub started: bool,
}

impl MonitorState {
    /// The state of a monitor that has not probed yet.
    pub open spec fn initial() -> MonitorState {
        MonitorState { gateway_up: false, connection_up: false, started: false }
    }

    /// The gateway record that a round gives rise to. The first round always
    /// reports; later rounds report a change only.
    pub open spec fn gateway_event(self, gateway_ok: bool) -> Option<EventKind> {
        if !self.started || self.gateway_up != gateway_ok {
            Some(EventKind::gateway(gateway_ok))
        } else {
            None
        }
    }

    /// The state once the gateway's answer is taken in.
    pub open spec fn after_gateway(self, gateway_ok: bool) -> MonitorState {
        MonitorState { gateway_up: gateway_ok, ..self }
    }

    /// Whether a round with these two answers goes on to ask the fallback hosts.
    pub open spec fn consults_fallbacks(self, gateway_ok: bool, primary_ok: bool) -> bool {
        gateway_ok && !primary_ok && (self.connection_up || !self.started)
    }

    /// The connection record that a round gives rise to. Without the gateway
    /// nothing is said about the connection. With it, the first round
    /// reports the verdict and later rounds report a change of it.
    pub open spec fn connection_event(self, sample: Sample) -> Option<EventKind> {
        match sample.verdict() {
            Some(up) if sample.gateway_ok && (!self.started || self.connection_up != up) => Some(
                EventKind::connection(up),
            ),
            _ => None,
        }
    }

    /// The state once the answers of the internet hosts are taken in.
    pub open spec fn after_connection(self, sample: Sample) -> MonitorState {
        match sample.verdict() {
            Some(up) if sample.gateway_ok => MonitorState { connection_up: up, ..self },
            _ => self,
        }
    }

    /// The state after one whole round.
    pub open spec fn after_tick(self, sample: Sample) -> MonitorState {
        MonitorState {
            started: true,
            ..self.after_gateway(sample.gateway_ok).after_connection(sample)
        }
    }

    /// The records of one whole round, in the order in which they are written.
    pub open spec fn tick_events(self, sample: Sample) -> Seq<EventKind> {
        let gateway = match self.gateway_event(sample.gateway_ok) {
            Some(kind) => seq![kind],
            None => Seq::empty(),
        };
        let connection = match self.connection_event(sample) {
            Some(kind) => seq![kind],
            None => Seq::empty(),
        };
        gateway + connection
    }

    /// The state after the rounds `samples`, taken in order.
    pub open spec fn after_ticks(self, samples: Seq<Sample>) -> MonitorState
        decreases samples.len(),
    {
        if samples.len() == 0 {
            self
        } else {
            self.after_ticks(samples.drop_last()).after_tick(samples.last())
        }
    }

    /// The state of a monitor that has not probed yet.
    pub fn new() -> (state: MonitorState)
        ensures
            state == MonitorState::initial(),
    {
        MonitorState { gateway_up: false, connection_up: false, started: false }
    }

    /// Takes in the gateway's answer and returns the record to write, if any.
    pub fn observe_gateway(&mut self, gateway_ok: bool) -> (event: Option<EventKind>)
        ensures
            event == old(self).gateway_event(gateway_ok),
            *final(self) == old(self).after_gateway(gateway_ok),
    {
        if (self.gateway_up || !self.started) && !gateway_ok {
            self.gateway_up = false;
            Some(EventKind::GatewayDown)
        } else if (!self.gateway_up || !self.started) && gateway_ok {
            self.gateway_up = true;
            Some(EventKind::GatewayUp)
        } else {
            None
        }
    }

    /// Whether the fallback hosts are to be asked in this round.
    pub fn wants_fallbacks(&self, gateway_ok: bool, primary_ok: bool) -> (wanted: bool)
        ensures
            wanted == self.consults_fallbacks(gateway_ok, primary_ok),
    {
        gateway_ok && (self.connection_up || !self.started) && !primary_ok
    }

    /// Takes in the answers of the internet hosts and returns the record to
    /// write, if any. `sample.fallback_ok` is read only where
    /// [`wants_fallbacks`](Self::wants_fallbacks) holds.
    pub fn observe_connection(&mut self, sample: Sample) -> (event: Option<EventKind>)
        ensures
            event == old(self).connection_event(sample),
            *final(self) == old(self).after_connection(sample),
    {
        if !sample.gateway_ok {
            return None;
        }
        if (self.connection_up || !self.started) && !sample.primary_ok {
            if !sample.fallback_ok {
                self.connection_up = false;
                Some(EventKind::ConnectionDown)
            } else {
                None
            }
        } else if (!self.connection_up || !self.started) && sample.primary_ok {
            self.connection_up = true;
            Some(EventKind::ConnectionUp)
        } else {
            None
        }
    }

    /// Marks the round as complete.
    pub fn complete_round(&mut self)
        ensures
            *final(self) == (MonitorState { started: true, ..*old(self) }),
    {
        self.started = true;
    }

    /// One whole round on answers that are already known.
    pub fn tick(&mut self, sample: Sample) -> (events: Vec<EventKind>)
        ensures
            events@ == old(self).tick_events(sample),
            *final(self) == old(self).after_tick(sample),
    {
        let mut events: Vec<EventKind> = Vec::new();
        if let Some(kind) = self.observe_gateway(sample.gateway_ok) {
            events.push(kind);
        }
        if let Some(kind) = self.observe_connection(sample) {
            events.push(kind);
        }
        self.complete_round();
        events
    }
}

/// Without the gateway a round leaves the connection flag as it was and
/// writes no connection record, whatever the internet hosts answered.
pub proof fn lemma_connection_needs_gateway(state: MonitorState, sample: Sample)
    requires
        !sample.gateway_ok,
    ensures
        state.after_tick(sample).connection_up == state.connection_up,
        state.connection_event(sample) is None,
        forall|i: int|
            0 <= i < state.tick_events(sample).len() ==> !(#[trigger] state.tick_events(
                sample,
            )[i]).is_connection(),
{
}

/// In any run of rounds, a round that changes the connection flag is one in
/// which the gateway answered.
pub proof fn lemma_connection_changes_only_with_gateway(
    state: MonitorState,
    samples: Seq<Sample>,
    i: int,
)
    requires
        0 <= i < samples.len(),
        state.after_ticks(samples.take(i + 1)).connection_up != state.after_ticks(
            samples.take(i),
        ).connection_up,
    ensures
        samples[i].gateway_ok,
{
    assert(samples.take(i + 1).drop_last() == samples.take(i));
    assert(samples.take(i + 1).last() == samples[i]);
    if !samples[i].gateway_ok {
        lemma_connection_needs_gateway(state.after_ticks(samples.take(i)), samples[i]);
    }
}

/// The first round writes exactly one gateway record, which says what the
/// gateway did, and with the gateway up exactly one connection record, which
/// says whether the primary host answered; the flags then hold what was
/// found. Left out is the round in which the gateway answers and only a
/// fallback host does: it writes no connection record.
pub proof fn lemma_first_round_reports(state: MonitorState, sample: Sample)
    requires
        !state.started,
        !(sample.gateway_ok && !sample.primary_ok && sample.fallback_ok),
    ensures
        state.tick_events(sample) == if sample.gateway_ok {
            seq![EventKind::GatewayUp, EventKind::connection(sample.primary_ok)]
        } else {
            seq![EventKind::GatewayDown]
        },
        state.after_tick(sample).gateway_up == sample.gateway_ok,
        sample.gateway_ok ==> state.after_tick(sample).connection_up == sample.primary_ok,
        !sample.gateway_ok ==> state.after_tick(sample).connection_up == state.connection_up,
        state.after_tick(sample).started,
{
}

/// A round that finds what the round before it found writes nothing and
/// changes nothing.
pub proof fn lemma_repeated_round_is_silent(state: MonitorState, sample: Sample)
    ensures
        state.after_tick(sample).tick_events(sample) == Seq::<EventKind>::empty(),
        state.after_tick(sample).after_tick(sample) == state.after_tick(sample),
{
}

/// While a fallback host answers, a failing primary host does not bring the
/// connection down: no connection record is written and the flag stays.
pub proof fn lemma_fallback_keeps_connection(state: MonitorState, sample: Sample)
    requires
        !sample.primary_ok,
        sample.fallback_ok,
    ensures
        state.connection_event(sample) is None,
        state.tick_events(sample) == match state.gateway_event(sample.gateway_ok) {
            Some(kind) => seq![kind],
            None => Seq::empty(),
        },
        state.after_tick(sample).connection_up == state.connection_up,
{
}

/// With the gateway up, a connection that was up, or never judged, is
/// reported down exactly once when neither the primary host nor any fallback
/// host answers.
pub proof fn lemma_all_failing_reports_down(state: MonitorState, sample: Sample)
    requires
        sample.gateway_ok,
        !sample.primary_ok,
        !sample.fallback_ok,
        state.connection_up || !state.started,
    ensures
        state.connection_event(sample) == Some(EventKind::ConnectionDown),
        state.tick_events(sample) == match state.gateway_event(sample.gateway_ok) {
            Some(kind) => seq![kind, EventKind::ConnectionDown],
            None => seq![EventKind::ConnectionDown],
        },
        !state.after_tick(sample).connection_up,
        state.after_tick(sample).tick_events(sample) == Seq::<EventKind>::empty(),
{
}

/// A round that does not ask the fallback hosts comes out the same
/// whatever they would have answered.
pub proof fn lemma_fallbacks_unread(state: MonitorState, seen: Sample, other: Sample)
    requires
        seen.gateway_ok == other.gateway_ok,
        seen.primary_ok == other.primary_ok,
        !state.consults_fallbacks(seen.gateway_ok, seen.primary_ok),
    ensures
        state.connection_event(seen) == state.connection_event(other),
        state.after_connection(seen) == state.after_connection(other),
        state.tick_events(seen) == state.tick_events(other),
        state.after_tick(seen) == state.after_tick(other),
{
}

/// The first round is complete after one round and stays so: a state is
/// started after any run of rounds but the empty run from a state that was
/// not.
pub proof fn lemma_started_for_good(state: MonitorState, samples: Seq<Sample>)
    ensures
        state.after_ticks(samples).started == (state.started || samples.len() > 0),
    decreases samples.len(),
{
    if samples.len() > 0 {
        lemma_started_for_good(state, samples.drop_last());
    }
}

} // verus!
