//! The session layer: which samples are worth reporting, which transport
//! errors end a session, and the cycle of connecting, identifying, running
//! and backing off.

use crate::command::LEDCommand;
use vstd::prelude::*;

verus! {

/// A sample is reported only if it differs from the last reported one by
/// more than this.
pub const INPUT_DELTA_THRESHOLD: u16 = 2;

/// Milliseconds between two polls of the analog input.
pub const LOOP_DELAY_MS: u64 = 10;

/// Milliseconds to wait after a failed connection or a lost session.
pub const BACKOFF_MS: u64 = 2000;

/// How far two samples lie apart.
pub open spec fn distance(a: u16, b: u16) -> int {
    if a >= b {
        a - b
    } else {
        b - a
    }
}

/// Whether a sample lies far enough from the last reported one to be
/// reported itself.
pub open spec fn significant(last_sent: u16, sample: u16) -> bool {
    distance(last_sent, sample) > 2
}

/// The outbound path's memory: the sample that was last reported.
#[derive(Clone, Copy, PartialEq, Eq, Structural, Debug)]
pub struct Outbound {
    /// The sample last reported; zero before the first report.
    pub current_input: u16,
}

impl Outbound {
    /// The path after one sample.
    pub open spec fn after(self, sample: u16) -> Outbound {
        if significant(self.current_input, sample) {
            Outbound { current_input: sample }
        } else {
            self
        }
    }

    /// The path after a run of samples, taken in order.
    pub open spec fn after_all(self, samples: Seq<u16>) -> Outbound
        decreases samples.len(),
    {
        if samples.len() == 0 {
            self
        } else {
            self.after_all(samples.drop_last()).after(samples.last())
        }
    }

    /// The reports that a run of samples gives rise to, in order.
    pub open spec fn reports(self, samples: Seq<u16>) -> Seq<u16>
        decreases samples.len(),
    {
        if samples.len() == 0 {
            Seq::empty()
        } else {
            let before = self.after_all(samples.drop_last());
            if significant(before.current_input, samples.last()) {
                self.reports(samples.drop_last()).push(samples.last())
            } else {
                self.reports(samples.drop_last())
            }
        }
    }

    /// The path at the start of a session: the controller assumes zero.
    pub fn new() -> (path: Outbound)
        ensures
            path.current_input == 0,
    {
        Outbound { current_input: 0 }
    }

    /// Takes one sample. Returns the value to report, if the sample differs
    /// from the last reported one by more than the threshold; the comparison
    /// is with the last sample reported, not with the last sample taken.
    pub fn observe(&mut self, sample: u16) -> (report: Option<u16>)
        ensures
            report == if significant(old(self).current_input, sample) {
                Some(sample)
            } else {
                None
            },
            *final(self) == old(self).after(sample),
    {
        let apart = if self.current_input >= sample {
            self.current_input - sample
        } else {
            sample - self.current_input
        };
        if apart > INPUT_DELTA_THRESHOLD {
            self.current_input = sample;
            Some(sample)
        } else {
            None
        }
    }
}

/// Samples that all stay within the threshold of the last reported one give
/// no report, however far they drift from each other.
pub proof fn near_samples_are_silent(path: Outbound, samples: Seq<u16>)
    requires
        forall|i: int|
            0 <= i < samples.len() ==> !significant(path.current_input, #[trigger] samples[i]),
    ensures
        path.reports(samples) == Seq::<u16>::empty(),
        path.after_all(samples) == path,
    decreases samples.len(),
{
    if samples.len() > 0 {
        near_samples_are_silent(path, samples.drop_last());
    }
}

/// The value remembered after a run of samples is the last report, and each
/// report lies more than the threshold from the one before it; the first
/// from the value remembered at the start.
pub proof fn reports_lie_apart(path: Outbound, samples: Seq<u16>)
    ensures
        path.reports(samples).len() <= samples.len(),
        path.after_all(samples).current_input == if path.reports(samples).len() == 0 {
            path.current_input
        } else {
            path.reports(samples).last()
        },
        path.reports(samples).len() > 0 ==> significant(
            path.current_input,
            path.reports(samples)[0],
        ),
        forall|i: int|
            0 < i < path.reports(samples).len() ==> significant(
                path.reports(samples)[i - 1],
                #[trigger] path.reports(samples)[i],
            ),
    decreases samples.len(),
{
    if samples.len() > 0 {
        reports_lie_apart(path, samples.drop_last());
    }
}

/// The kinds of input/output error that the session tells apart.
#[derive(Clone, Copy, PartialEq, Eq, Structural, Debug)]
pub enum IoKind {
    BrokenPipe,
    ConnectionReset,
    OutOfMemory,
    Interrupted,
    /// Any other kind.
    Other,
}

/// What went wrong on the transport.
#[derive(Clone, Copy, PartialEq, Eq, Structural, Debug)]
pub enum TransportError {
    /// The connection was used after it had been closed.
    AlreadyClosed,
    /// The connection was closed in the regular way.
    ConnectionClosed,
    /// An input/output error of the given kind.
    Io(IoKind),
    /// Anything else: protocol violations, encoding errors and the like.
    Other,
}

/// The errors that end a session: a closed connection, a broken pipe, a
/// reset, an interrupt, exhausted memory. Every other error is logged and
/// the session goes on.
pub open spec fn fatal(error: TransportError) -> bool {
    match error {
        TransportError::AlreadyClosed => true,
        TransportError::ConnectionClosed => true,
        TransportError::Io(kind) => !(kind is Other),
        TransportError::Other => false,
    }
}

/// Whether an error ends the session.
pub fn is_fatal(error: TransportError) -> (r: bool)
    ensures
        r == fatal(error),
{
    match error {
        TransportError::AlreadyClosed | TransportError::ConnectionClosed => true,
        TransportError::Io(kind) => match kind {
            IoKind::Other => false,
            _ => true,
        },
        TransportError::Other => false,
    }
}

/// What the indicator light tells the user about the connection.
#[derive(Clone, Copy, PartialEq, Eq, Structural, Debug)]
pub enum Indication {
    /// Trying to connect: teal, blinking.
    Connecting,
    /// Connected and identified: green, steady.
    Connected,
    /// Failed, about to retry: red, blinking.
    Failed,
}

impl Indication {
    /// The colour and the directive that show the indication.
    pub open spec fn shown_by(self) -> Seq<LEDCommand> {
        match self {
            Indication::Connecting => seq![LEDCommand::Teal, LEDCommand::Blink],
            Indication::Connected => seq![LEDCommand::Green, LEDCommand::Hold],
            Indication::Failed => seq![LEDCommand::Red, LEDCommand::Blink],
        }
    }

    /// The commands to send to the light: a colour, then a directive.
    pub fn commands(self) -> (chain: Vec<LEDCommand>)
        ensures
            chain@ == self.shown_by(),
    {
        let mut chain: Vec<LEDCommand> = Vec::new();
        match self {
            Indication::Connecting => {
                chain.push(LEDCommand::Teal);
                chain.push(LEDCommand::Blink);
            },
            Indication::Connected => {
                chain.push(LEDCommand::Green);
                chain.push(LEDCommand::Hold);
            },
            Indication::Failed => {
                chain.push(LEDCommand::Red);
                chain.push(LEDCommand::Blink);
            },
        }
        chain
    }
}

/// Where the client stands in the life of a connection.
#[derive(Clone, Copy, PartialEq, Eq, Structural, Debug)]
pub enum Phase {
    /// A connection attempt is under way.
    Connecting,
    /// Waiting out the delay before the next attempt.
    Backoff,
    /// Connected; the identification is being sent.
    Identifying,
    /// Identified; the inbound and outbound paths run.
    Active,
}

/// What the transport, the timer or the running session reports back.
#[derive(Clone, Copy, PartialEq, Eq, Structural, Debug)]
pub enum Event {
    /// The connection attempt failed.
    ConnectFailed,
    /// The connection attempt succeeded.
    Connected,
    /// The backoff delay is over.
    BackoffElapsed,
    /// The identification was sent.
    Identified,
    /// The session met a fatal error, or the peer closed it.
    SessionEnded,
}

/// What the client asks to be done next.
#[derive(Clone, Copy, PartialEq, Eq, Structural, Debug)]
pub enum Directive {
    /// Try to connect.
    Connect,
    /// Wait for the backoff delay.
    Wait,
    /// Send the identification.
    Identify,
    /// Run the two paths of the session until one of them ends.
    Run,
}

/// The client's answer to an event.
#[derive(Clone, Copy, PartialEq, Eq, Debug)]
pub struct Order {
    /// The indication to show first, if it changes.
    pub light: Option<Indication>,
    /// What to do after that.
    pub directive: Directive,
}

/// The client: zero or one session, and the rule for getting the next one.
#[derive(Clone, Copy, PartialEq, Eq, Structural, Debug)]
pub struct Client {
    /// Where the client stands.
    pub phase: Phase,
}

/// The work that belongs to a phase.
pub open spec fn work_of(phase: Phase) -> Directive {
    match phase {
        Phase::Connecting => Directive::Connect,
        Phase::Backoff => Directive::Wait,
        Phase::Identifying => Directive::Identify,
        Phase::Active => Directive::Run,
    }
}

/// Whether an event means something in a phase. An event that does not is
/// passed over.
pub open spec fn applies(phase: Phase, event: Event) -> bool {
    match (phase, event) {
        (Phase::Connecting, Event::Connected) => true,
        (Phase::Connecting, Event::ConnectFailed) => true,
        (Phase::Backoff, Event::BackoffElapsed) => true,
        (Phase::Identifying, Event::Identified) => true,
        (Phase::Identifying, Event::SessionEnded) => true,
        (Phase::Active, Event::SessionEnded) => true,
        _ => false,
    }
}

/// The phase that follows an event. Failure of any kind leads to the backoff,
/// the backoff to the next attempt, success one phase further.
pub open spec fn phase_after(phase: Phase, event: Event) -> Phase {
    if !applies(phase, event) {
        phase
    } else {
        match event {
            Event::Connected => Phase::Identifying,
            Event::Identified => Phase::Active,
            Event::BackoffElapsed => Phase::Connecting,
            Event::ConnectFailed => Phase::Backoff,
            Event::SessionEnded => Phase::Backoff,
        }
    }
}

/// The indication that an event changes the light to, if any. Connecting
/// alone does not change it: the light turns to "connected" only once the
/// identification has been sent.
pub open spec fn light_after(phase: Phase, event: Event) -> Option<Indication> {
    if !applies(phase, event) {
        None
    } else {
        match phase_after(phase, event) {
            Phase::Connecting => Some(Indication::Connecting),
            Phase::Backoff => Some(Indication::Failed),
            Phase::Identifying => None,
            Phase::Active => Some(Indication::Connected),
        }
    }
}

impl Client {
    /// The client after a run of events, taken in order.
    pub open spec fn after_all(self, events: Seq<Event>) -> Client
        decreases events.len(),
    {
        if events.len() == 0 {
            self
        } else {
            Client {
                phase: phase_after(self.after_all(events.drop_last()).phase, events.last()),
            }
        }
    }

    /// How many of the events of a run lead into the given phase.
    pub open spec fn entries(self, events: Seq<Event>, phase: Phase) -> nat
        decreases events.len(),
    {
        if events.len() == 0 {
            0
        } else {
            let before = self.after_all(events.drop_last()).phase;
            let entered: nat = if applies(before, events.last()) && phase_after(
                before,
                events.last(),
            ) == phase {
                1
            } else {
                0
            };
            self.entries(events.drop_last(), phase) + entered
        }
    }

    /// A client and its first order: show "connecting" and try to connect.
    pub fn start() -> (r: (Client, Order))
        ensures
            r.0.phase == Phase::Connecting,
            r.1.light == Some(Indication::Connecting),
            r.1.directive == Directive::Connect,
    {
        (
            Client { phase: Phase::Connecting },
            Order { light: Some(Indication::Connecting), directive: Directive::Connect },
        )
    }

    /// Takes an event and says what to do next. An event that means nothing
    /// in the current phase changes nothing, and the order repeats the work
    /// of the phase.
    pub fn step(&mut self, event: Event) -> (order: Order)
        ensures
            final(self).phase == phase_after(old(self).phase, event),
            order.light == light_after(old(self).phase, event),
            order.directive == work_of(final(self).phase),
    {
        let (next, light) = match (self.phase, event) {
            (Phase::Connecting, Event::Connected) => (Phase::Identifying, None),
            (Phase::Connecting, Event::ConnectFailed) => (Phase::Backoff, Some(Indication::Failed)),
            (Phase::Backoff, Event::BackoffElapsed) => (
                Phase::Connecting,
                Some(Indication::Connecting),
            ),
            (Phase::Identifying, Event::Identified) => (Phase::Active, Some(Indication::Connected)),
            (Phase::Identifying, Event::SessionEnded) => (Phase::Backoff, Some(Indication::Failed)),
            (Phase::Active, Event::SessionEnded) => (Phase::Backoff, Some(Indication::Failed)),
            (phase, _) => (phase, None),
        };
        self.phase = next;
        let directive = match next {
            Phase::Connecting => Directive::Connect,
            Phase::Backoff => Directive::Wait,
            Phase::Identifying => Directive::Identify,
            Phase::Active => Directive::Run,
        };
        Order { light, directive }
    }
}

/// A failed attempt followed by the end of its backoff, `failures` times.
pub open spec fn failed_attempts(failures: nat) -> Seq<Event>
    decreases failures,
{
    if failures == 0 {
        Seq::empty()
    } else {
        failed_attempts((failures - 1) as nat).push(Event::ConnectFailed).push(
            Event::BackoffElapsed,
        )
    }
}

/// A client whose first attempts fail keeps trying: after `failures` failed
/// attempts it has waited out as many backoffs, has started as many further
/// attempts, and is connecting again without ever having identified. The
/// attempt that succeeds is thus the one after the last failure, and only
/// then does the client identify.
pub proof fn retries_until_connected(client: Client, failures: nat)
    requires
        client.phase == Phase::Connecting,
    ensures
        failed_attempts(failures).len() == 2 * failures,
        client.after_all(failed_attempts(failures)).phase == Phase::Connecting,
        client.entries(failed_attempts(failures), Phase::Backoff) == failures,
        client.entries(failed_attempts(failures), Phase::Connecting) == failures,
        client.entries(failed_attempts(failures), Phase::Identifying) == 0,
        client.entries(failed_attempts(failures), Phase::Active) == 0,
        client.after_all(failed_attempts(failures).push(Event::Connected)).phase
            == Phase::Identifying,
        client.entries(failed_attempts(failures).push(Event::Connected), Phase::Identifying) == 1,
    decreases failures,
{
    let events = failed_attempts(failures);
    if failures > 0 {
        let earlier = failed_attempts((failures - 1) as nat);
        retries_until_connected(client, (failures - 1) as nat);
        let middle = earlier.push(Event::ConnectFailed);
        assert(middle.drop_last() =~= earlier);
        assert(events.drop_last() =~= middle);
        assert(client.after_all(middle).phase == Phase::Backoff);
        assert(client.entries(middle, Phase::Backoff) == failures);
        assert(client.entries(middle, Phase::Connecting) == failures - 1);
        assert(client.entries(middle, Phase::Identifying) == 0);
        assert(client.entries(middle, Phase::Active) == 0);
        assert(client.after_all(events).phase == Phase::Connecting);
        assert(client.entries(events, Phase::Backoff) == failures);
        assert(client.entries(events, Phase::Connecting) == failures);
        assert(client.entries(events, Phase::Identifying) == 0);
        assert(client.entries(events, Phase::Active) == 0);
    }
    assert(events.push(Event::Connected).drop_last() =~= events);
}

/// A session never starts without identification: the client is active only
/// after an event that found it identifying.
pub proof fn active_only_after_identifying(client: Client, event: Event)
    ensures
        phase_after(client.phase, event) == Phase::Active ==> client.phase == Phase::Active || (
        client.phase == Phase::Identifying && event == Event::Identified),
        phase_after(client.phase, event) == Phase::Identifying ==> client.phase
            == Phase::Identifying || (client.phase == Phase::Connecting && event
            == Event::Connected),
{
}

} // verus!
