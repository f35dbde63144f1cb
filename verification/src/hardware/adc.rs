//! The analog-to-digital converter: scheduling a conversion, waiting for its
//! ready bit to toggle, and rescaling the sample.

use crate::hardware::{all_in_window, RegWrite, Step};
use vstd::prelude::*;

verus! {

/// Physical base address of the converter's register page.
pub const ADC_PAGE: usize = 0x8005_0000;

/// Register that schedules conversions, one bit per channel.
pub const ADC_SCHED_OFFSET: usize = 0x0004;

/// Register that reports finished conversions, one bit per channel.
pub const ADC_IRQ_OFFSET: usize = 0x0010;

/// Register that clears the bits of finished conversions.
pub const ADC_CLEAR_OFFSET: usize = 0x0018;

/// Value register of channel 0, the analog input.
pub const ADC_VALUE_OFFSET: usize = 0x0050;

/// The bit of a value register that toggles with every finished conversion.
pub const READY_BIT: u32 = 0x8000_0000;

/// Samples at or below this value count as zero.
pub const LOW_THRESHOLD: u32 = 200;

/// Constant term of the linear rescale.
pub const RESCALE_BIAS: u32 = 0x1838;

/// Mask of the bits that a thermal-sense conversion delivers.
pub const THERMAL_MASK: u32 = 0xFFF;

/// The stores that configure the converter: clock gating, conversion
/// interrupts and input dividers of channels 0 to 2, and the routing of
/// channels 1 and 2 to the two thermal-sense inputs.
pub open spec fn init_writes() -> Seq<RegWrite> {
    seq![
        RegWrite { offset: 0x0008, value: 0x4000_0000 },
        RegWrite { offset: 0x0004, value: 0x0000_0001 },
        RegWrite { offset: 0x0028, value: 0x0700_8000 },
        RegWrite { offset: 0x0014, value: 0x0007_0000 },
        RegWrite { offset: 0x0034, value: 0x0000_0001 },
        RegWrite { offset: 0x0024, value: 0x0700_0000 },
        RegWrite { offset: 0x0144, value: 0x0000_0980 },
    ]
}

/// The stores to make once, right after the page is mapped.
pub fn mem_init() -> (writes: Vec<RegWrite>)
    ensures
        writes@ == init_writes(),
        all_in_window(writes@),
{
    let mut writes: Vec<RegWrite> = Vec::new();
    writes.push(RegWrite { offset: 0x0008, value: 0x4000_0000 });
    writes.push(RegWrite { offset: 0x0004, value: 0x0000_0001 });
    writes.push(RegWrite { offset: 0x0028, value: 0x0700_8000 });
    writes.push(RegWrite { offset: 0x0014, value: 0x0007_0000 });
    writes.push(RegWrite { offset: 0x0034, value: 0x0000_0001 });
    writes.push(RegWrite { offset: 0x0024, value: 0x0700_0000 });
    writes.push(RegWrite { offset: 0x0144, value: 0x0000_0980 });
    writes
}

/// Whether the ready bit of a value-register word is set.
pub open spec fn ready(word: u32) -> bool {
    word >= 0x8000_0000
}

/// A value-register word without its ready bit.
pub open spec fn sample_of(word: u32) -> int {
    if word >= 0x8000_0000 {
        word - 0x8000_0000
    } else {
        word as int
    }
}

/// The output for a raw sample: zero up to the threshold, above it the
/// linear rescale divided down to eight bits and capped at 255.
pub open spec fn scaled(raw: int) -> int {
    if raw <= 200 {
        0
    } else {
        let wide = ((31 * raw - 0x1838) / 11) / 16;
        if wide > 255 {
            255
        } else {
            wide
        }
    }
}

/// Whether the ready bit of a value-register word is set.
pub fn ready_bit(word: u32) -> (r: bool)
    ensures
        r == ready(word),
{
    assert((word & 0x8000_0000 != 0) == (word >= 0x8000_0000)) by (bit_vector);
    (word & READY_BIT) != 0
}

/// Strips the ready bit from a value-register word.
pub fn sample(word: u32) -> (raw: u32)
    ensures
        raw == sample_of(word),
        raw < 0x8000_0000,
{
    assert(word >= 0x8000_0000 ==> (word & !0x8000_0000u32) == (word - 0x8000_0000) as u32)
        by (bit_vector);
    assert(word < 0x8000_0000 ==> (word & !0x8000_0000u32) == word) by (bit_vector);
    word & !READY_BIT
}

/// Rescales a raw sample to the output range.
pub fn rescale(raw: u32) -> (out: u16)
    ensures
        out == scaled(raw as int),
        out <= 255,
{
    if raw <= LOW_THRESHOLD {
        0
    } else {
        let wide: u64 = ((31 * (raw as u64) - (RESCALE_BIAS as u64)) / 11) / 16;
        if wide > 255 {
            255
        } else {
            wide as u16
        }
    }
}

/// The three channels that the converter is set up for.
#[derive(Clone, Copy, PartialEq, Eq, Structural, Debug)]
pub enum Channel {
    /// Channel 0: the analog input.
    Input,
    /// Channel 1: the first thermal-sense input.
    ThermalP,
    /// Channel 2: the second thermal-sense input.
    ThermalN,
}

impl Channel {
    /// The channel's bit in the schedule, interrupt and clear registers.
    pub open spec fn bit(self) -> u32 {
        match self {
            Channel::Input => 0x1,
            Channel::ThermalP => 0x2,
            Channel::ThermalN => 0x4,
        }
    }

    /// The channel's value register.
    pub open spec fn value_register(self) -> usize {
        match self {
            Channel::Input => 0x0050,
            Channel::ThermalP => 0x0060,
            Channel::ThermalN => 0x0070,
        }
    }

    /// The channel's bit in the schedule, interrupt and clear registers.
    pub fn mask(self) -> (r: u32)
        ensures
            r == self.bit(),
    {
        match self {
            Channel::Input => 0x1,
            Channel::ThermalP => 0x2,
            Channel::ThermalN => 0x4,
        }
    }

    /// The channel's value register.
    pub fn value_offset(self) -> (r: usize)
        ensures
            r == self.value_register(),
    {
        match self {
            Channel::Input => ADC_VALUE_OFFSET,
            Channel::ThermalP => 0x0060,
            Channel::ThermalN => 0x0070,
        }
    }
}

/// Where one conversion stands.
#[derive(Clone, Copy, PartialEq, Eq, Structural, Debug)]
pub enum PollPhase {
    /// Scheduled; the next word shows the ready bit before the conversion.
    Prime,
    /// Waiting for the ready bit to differ from `high`.
    AwaitFlip { high: bool },
    /// Waiting for the channel's interrupt bit.
    AwaitIrq,
    /// The next word is the result.
    Latch,
    /// Finished with this value-register word.
    Latched { word: u32 },
}

/// One conversion on one channel.
#[derive(Clone, Copy, PartialEq, Eq, Structural, Debug)]
pub struct ChannelPoll {
    /// The channel that converts.
    pub channel: Channel,
    /// Whether to wait for the interrupt bit after the ready bit has toggled.
    pub wait_irq: bool,
    /// How far the conversion has come.
    pub phase: PollPhase,
}

impl ChannelPoll {
    /// Whether the interrupt bit of the channel is set in a word of the
    /// interrupt register.
    pub open spec fn irq_set(self, word: u32) -> bool {
        word & self.channel.bit() != 0
    }

    /// The register to load next, if the conversion is not finished.
    pub open spec fn next_load(self) -> Option<usize> {
        match self.phase {
            PollPhase::Prime => Some(self.channel.value_register()),
            PollPhase::AwaitFlip { .. } => Some(self.channel.value_register()),
            PollPhase::AwaitIrq => Some(0x0010usize),
            PollPhase::Latch => Some(self.channel.value_register()),
            PollPhase::Latched { .. } => None,
        }
    }

    /// The phase after the loaded word. The wait for the ready bit ends with
    /// the first word whose bit differs from the one seen before the wait.
    pub open spec fn after(self, word: u32) -> ChannelPoll {
        let phase = match self.phase {
            PollPhase::Prime => PollPhase::AwaitFlip { high: ready(word) },
            PollPhase::AwaitFlip { high } => if ready(word) == high {
                PollPhase::AwaitFlip { high }
            } else if self.wait_irq {
                PollPhase::AwaitIrq
            } else {
                PollPhase::Latch
            },
            PollPhase::AwaitIrq => if self.irq_set(word) {
                PollPhase::Latch
            } else {
                PollPhase::AwaitIrq
            },
            PollPhase::Latch => PollPhase::Latched { word },
            PollPhase::Latched { word: kept } => PollPhase::Latched { word: kept },
        };
        ChannelPoll { phase, ..self }
    }

    /// The phase after a run of loaded words, taken in order.
    pub open spec fn after_all(self, words: Seq<u32>) -> ChannelPoll
        decreases words.len(),
    {
        if words.len() == 0 {
            self
        } else {
            self.after_all(words.drop_last()).after(words.last())
        }
    }

    /// The step that starts a conversion: schedule the channel, then load its
    /// value register.
    pub open spec fn first_step(channel: Channel) -> Step {
        Step {
            store: Some(RegWrite { offset: 0x0004, value: channel.bit() }),
            load: Some(channel.value_register()),
        }
    }

    /// Starts a conversion.
    pub fn begin(channel: Channel, wait_irq: bool) -> (r: (ChannelPoll, Step))
        ensures
            r.0 == (ChannelPoll { channel, wait_irq, phase: PollPhase::Prime }),
            r.1 == Self::first_step(channel),
            r.1.in_bounds(),
    {
        let poll = ChannelPoll { channel, wait_irq, phase: PollPhase::Prime };
        let step = Step {
            store: Some(RegWrite { offset: ADC_SCHED_OFFSET, value: channel.mask() }),
            load: Some(channel.value_offset()),
        };
        (poll, step)
    }

    /// Takes the word that was loaded from the register asked for, and says
    /// which register to load next; `None` once the result is latched.
    pub fn step(&mut self, word: u32) -> (load: Option<usize>)
        ensures
            *final(self) == old(self).after(word),
            load == final(self).next_load(),
            load matches Some(offset) ==> crate::hardware::in_window(offset),
    {
        match self.phase {
            PollPhase::Prime => {
                self.phase = PollPhase::AwaitFlip { high: ready_bit(word) };
            },
            PollPhase::AwaitFlip { high } => {
                if ready_bit(word) != high {
                    self.phase = if self.wait_irq {
                        PollPhase::AwaitIrq
                    } else {
                        PollPhase::Latch
                    };
                }
            },
            PollPhase::AwaitIrq => {
                if word & self.channel.mask() != 0 {
                    self.phase = PollPhase::Latch;
                }
            },
            PollPhase::Latch => {
                self.phase = PollPhase::Latched { word };
            },
            PollPhase::Latched { .. } => {},
        }
        match self.phase {
            PollPhase::AwaitIrq => Some(ADC_IRQ_OFFSET),
            PollPhase::Latched { .. } => None,
            _ => Some(self.channel.value_offset()),
        }
    }
}

/// The wait for the ready bit ends exactly when the bit differs from the one
/// seen before the wait, whichever of the two that was.
pub proof fn wait_ends_on_flip(poll: ChannelPoll, word: u32)
    requires
        poll.phase is AwaitFlip,
    ensures
        poll.after(word).phase == poll.phase <==> ready(word) == poll.phase->high,
        ready(word) != poll.phase->high ==> poll.after(word).phase == if poll.wait_irq {
            PollPhase::AwaitIrq
        } else {
            PollPhase::Latch
        },
{
}

/// However many words come, the wait goes on while their ready bits equal
/// the one seen before the wait.
pub proof fn wait_lasts_without_flip(poll: ChannelPoll, words: Seq<u32>)
    requires
        poll.phase is AwaitFlip,
        forall|i: int| 0 <= i < words.len() ==> ready(#[trigger] words[i]) == poll.phase->high,
    ensures
        poll.after_all(words) == poll,
    decreases words.len(),
{
    if words.len() > 0 {
        wait_lasts_without_flip(poll, words.drop_last());
    }
}

/// The wait ends with the first word whose ready bit differs, and not before.
pub proof fn wait_ends_at_first_flip(poll: ChannelPoll, words: Seq<u32>, at: int)
    requires
        poll.phase is AwaitFlip,
        0 <= at < words.len(),
        ready(words[at]) != poll.phase->high,
        forall|i: int| 0 <= i < at ==> ready(#[trigger] words[i]) == poll.phase->high,
    ensures
        poll.after_all(words.take(at)).phase == poll.phase,
        !(poll.after_all(words.take(at + 1)).phase is AwaitFlip),
{
    wait_lasts_without_flip(poll, words.take(at));
    assert(words.take(at + 1).drop_last() =~= words.take(at));
}

/// One reading of the analog input: a conversion on channel 0, the clearing
/// of its interrupt bit, and the rescaled sample.
#[derive(Clone, Copy, PartialEq, Eq, Structural, Debug)]
pub struct Reading {
    /// The conversion on channel 0.
    pub poll: ChannelPoll,
}

impl Reading {
    /// The store that clears the interrupt bit of channel 0.
    pub open spec fn clearing() -> RegWrite {
        RegWrite { offset: 0x0018, value: 0x1 }
    }

    /// What to do after the loaded word: go on loading while the conversion
    /// runs; clear the interrupt bit when its result has just been latched;
    /// nothing once the reading is over.
    pub open spec fn reply(self, word: u32) -> Step {
        let next = self.poll.after(word);
        if self.poll.phase is Latched {
            Step { store: None, load: None }
        } else if next.phase is Latched {
            Step { store: Some(Self::clearing()), load: None }
        } else {
            Step { store: None, load: next.next_load() }
        }
    }

    /// The sample of a finished reading.
    pub open spec fn outcome(self) -> Option<u16> {
        match self.poll.phase {
            PollPhase::Latched { word } => Some(scaled(sample_of(word)) as u16),
            _ => None,
        }
    }

    /// Takes the word that was loaded and says what to do next.
    pub fn step(&mut self, word: u32) -> (step: Step)
        ensures
            final(self).poll == old(self).poll.after(word),
            step == old(self).reply(word),
            step.in_bounds(),
    {
        let was_over = match self.poll.phase {
            PollPhase::Latched { .. } => true,
            _ => false,
        };
        let load = self.poll.step(word);
        if was_over {
            Step { store: None, load: None }
        } else {
            match load {
                Some(offset) => Step { store: None, load: Some(offset) },
                None => Step {
                    store: Some(RegWrite { offset: ADC_CLEAR_OFFSET, value: 0x1 }),
                    load: None,
                },
            }
        }
    }

    /// The rescaled sample, once the reading is over.
    pub fn sample(&self) -> (r: Option<u16>)
        ensures
            r == self.outcome(),
    {
        match self.poll.phase {
            PollPhase::Latched { word } => Some(rescale(sample(word))),
            _ => None,
        }
    }
}

/// Where a reading of the two thermal-sense channels stands.
#[derive(Clone, Copy, PartialEq, Eq, Structural, Debug)]
pub enum ThermalReading {
    /// Converting the first thermal-sense channel.
    First { poll: ChannelPoll },
    /// Converting the second, with the first channel's count in hand.
    Second { pmos: u16, poll: ChannelPoll },
    /// Both counts are in.
    Done { pmos: u16, nmos: u16 },
}

/// The twelve low bits of a value-register word.
pub open spec fn thermal_count(word: u32) -> int {
    word as int % 0x1000
}

/// The twelve low bits of a value-register word.
pub fn count_of(word: u32) -> (r: u16)
    ensures
        r == thermal_count(word),
        r < 0x1000,
{
    assert((word & 0xFFF) == word % 0x1000) by (bit_vector);
    (word & THERMAL_MASK) as u16
}

impl ThermalReading {
    /// The store that clears the interrupt bits of both thermal channels.
    pub open spec fn clearing() -> RegWrite {
        RegWrite { offset: 0x0018, value: 0x6 }
    }

    /// The state after the loaded word.
    pub open spec fn after(self, word: u32) -> ThermalReading {
        match self {
            ThermalReading::First { poll } => if poll.after(word).phase is Latched {
                ThermalReading::Second {
                    pmos: thermal_count(word) as u16,
                    poll: ChannelPoll {
                        channel: Channel::ThermalN,
                        wait_irq: false,
                        phase: PollPhase::Prime,
                    },
                }
            } else {
                ThermalReading::First { poll: poll.after(word) }
            },
            ThermalReading::Second { pmos, poll } => if poll.after(word).phase is Latched {
                ThermalReading::Done { pmos, nmos: thermal_count(word) as u16 }
            } else {
                ThermalReading::Second { pmos, poll: poll.after(word) }
            },
            ThermalReading::Done { pmos, nmos } => ThermalReading::Done { pmos, nmos },
        }
    }

    /// What to do after the loaded word: go on with the running conversion;
    /// start the second when the first has just finished; clear both
    /// interrupt bits when the second has just finished.
    pub open spec fn reply(self, word: u32) -> Step {
        match self {
            ThermalReading::First { poll } => if poll.after(word).phase is Latched {
                ChannelPoll::first_step(Channel::ThermalN)
            } else {
                Step { store: None, load: poll.after(word).next_load() }
            },
            ThermalReading::Second { pmos, poll } => if poll.after(word).phase is Latched {
                Step { store: Some(Self::clearing()), load: None }
            } else {
                Step { store: None, load: poll.after(word).next_load() }
            },
            ThermalReading::Done { .. } => Step { store: None, load: None },
        }
    }

    /// Whether the polls inside are conversions that `read_temp` and `step`
    /// produce: on the right channels, unfinished, without interrupt wait.
    pub open spec fn wf(self) -> bool {
        match self {
            ThermalReading::First { poll } => poll.channel == Channel::ThermalP && !poll.wait_irq
                && !(poll.phase is Latched),
            ThermalReading::Second { pmos, poll } => poll.channel == Channel::ThermalN
                && !poll.wait_irq && !(poll.phase is Latched) && pmos < 0x1000,
            ThermalReading::Done { pmos, nmos } => pmos < 0x1000 && nmos < 0x1000,
        }
    }

    /// Takes the word that was loaded and says what to do next.
    pub fn step(&mut self, word: u32) -> (step: Step)
        requires
            old(self).wf(),
        ensures
            final(self).wf(),
            *final(self) == old(self).after(word),
            step == old(self).reply(word),
            step.in_bounds(),
    {
        match *self {
            ThermalReading::First { poll } => {
                let mut poll = poll;
                match poll.step(word) {
                    Some(offset) => {
                        *self = ThermalReading::First { poll };
                        Step { store: None, load: Some(offset) }
                    },
                    None => {
                        let (second, step) = ChannelPoll::begin(Channel::ThermalN, false);
                        *self = ThermalReading::Second { pmos: count_of(word), poll: second };
                        step
                    },
                }
            },
            ThermalReading::Second { pmos, poll } => {
                let mut poll = poll;
                match poll.step(word) {
                    Some(offset) => {
                        *self = ThermalReading::Second { pmos, poll };
                        Step { store: None, load: Some(offset) }
                    },
                    None => {
                        *self = ThermalReading::Done { pmos, nmos: count_of(word) };
                        Step {
                            store: Some(RegWrite { offset: ADC_CLEAR_OFFSET, value: 0x6 }),
                            load: None,
                        }
                    },
                }
            },
            ThermalReading::Done { .. } => Step { store: None, load: None },
        }
    }

    /// The second channel's count minus the first's, once both are in. The
    /// die temperature in kelvin is this difference times 1.012 / 4.
    pub fn difference(&self) -> (r: Option<i32>)
        ensures
            r == match *self {
                ThermalReading::Done { pmos, nmos } => Some((nmos - pmos) as i32),
                _ => None::<i32>,
            },
    {
        match *self {
            ThermalReading::Done { pmos, nmos } => Some(nmos as i32 - pmos as i32),
            _ => None,
        }
    }
}

/// Starts a reading of the analog input: schedules a conversion on channel
/// 0 and asks for its value register. `wait_irq` says whether to wait for the
/// interrupt bit as well, once the ready bit has toggled. The reading goes on
/// with `Reading::step` and ends when a step asks for no load.
pub fn read(wait_irq: bool) -> (r: (Reading, Step))
    ensures
        r.0.poll == (ChannelPoll { channel: Channel::Input, wait_irq, phase: PollPhase::Prime }),
        r.1 == ChannelPoll::first_step(Channel::Input),
        r.1.in_bounds(),
{
    let (poll, step) = ChannelPoll::begin(Channel::Input, wait_irq);
    (Reading { poll }, step)
}

/// Starts a reading of the die temperature with the conversion of the first
/// thermal-sense channel. The reading goes on with `ThermalReading::step` and
/// ends when a step asks for no load.
pub fn read_temp() -> (r: (ThermalReading, Step))
    ensures
        r.0 == (ThermalReading::First {
            poll: ChannelPoll { channel: Channel::ThermalP, wait_irq: false, phase: PollPhase::Prime },
        }),
        r.0.wf(),
        r.1 == ChannelPoll::first_step(Channel::ThermalP),
        r.1.in_bounds(),
{
    let (poll, step) = ChannelPoll::begin(Channel::ThermalP, false);
    (ThermalReading::First { poll }, step)
}

} // verus!
