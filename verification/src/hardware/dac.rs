//! The digital-to-analog converter: packing an output value and latching it
//! through the ready-flag handshake of the converter's double buffer.

use crate::hardware::{in_window, RegWrite, Step};
use vstd::prelude::*;

verus! {

/// Physical base address of the converter's register page.
pub const DAC_PAGE: usize = 0x8004_8000;

/// The status register that holds the ready flag.
pub const DAC_STATE_OFFSET: usize = 0x40;

/// The data register that takes the packed output word.
pub const DAC_VALUE_OFFSET: usize = 0xF0;

/// The ready flag's bit in the status register.
pub const READY_FLAG: u32 = 2;

/// How often one `set` looks at the status register at most.
pub const RETRIES: u8 = 20;

/// The output value with its top bit flipped, as the converter expects it.
pub open spec fn flipped(value: u16) -> u16 {
    value ^ 0x8000
}

/// The flipped value in both halves of a word, one per converter channel.
pub open spec fn packed(value: u16) -> u32 {
    ((flipped(value) as u32) << 16) | (flipped(value) as u32)
}

/// Whether the ready flag of a status word differs from the remembered one.
pub open spec fn toggled(flag: u32, status: u32) -> bool {
    (status ^ flag) & 2 != 0
}

/// The store that latches a packed word.
pub open spec fn latch(word: u32) -> RegWrite {
    RegWrite { offset: 0xF0, value: word }
}

/// Packs an output value for the data register.
pub fn pack(value: u16) -> (word: u32)
    ensures
        word == packed(value),
{
    let converted: u32 = (value ^ 0x8000) as u32;
    (converted << 16) | converted
}

/// Both halves of a packed word hold the flipped value, and flipping twice
/// gives the value back: the packed word determines the output value.
pub proof fn packed_halves(value: u16)
    ensures
        packed(value) >> 16 == flipped(value),
        packed(value) & 0xFFFF == flipped(value),
        flipped(flipped(value)) == value,
{
    assert((((value ^ 0x8000u16) as u32) << 16 | ((value ^ 0x8000u16) as u32)) >> 16 == (value
        ^ 0x8000u16) as u32) by (bit_vector);
    assert((((value ^ 0x8000u16) as u32) << 16 | ((value ^ 0x8000u16) as u32)) & 0xFFFF == (value
        ^ 0x8000u16) as u32) by (bit_vector);
    assert((value ^ 0x8000u16) ^ 0x8000u16 == value) by (bit_vector);
}

/// The converter needs no configuration: there is nothing to store.
pub fn mem_init() -> (writes: Vec<RegWrite>)
    ensures
        writes@ == Seq::<RegWrite>::empty(),
{
    Vec::new()
}

/// The driver's memory: the status word behind the last latched value, and
/// the handshake in progress.
#[derive(Clone, Copy, PartialEq, Eq, Structural, Debug)]
pub struct Dac {
    /// The status word remembered from the last toggle of the ready flag.
    pub ready_flag: u32,
    /// The packed word of the value being set.
    pub word: u32,
    /// How many looks at the status register the running `set` has left.
    pub remaining: u8,
}

impl Dac {
    /// No handshake has more looks than the retry bound.
    pub open spec fn wf(self) -> bool {
        self.remaining <= 20
    }

    /// The register to load next, while looks are left.
    pub open spec fn next_load(self) -> Option<usize> {
        if self.remaining > 0 {
            Some(0x40usize)
        } else {
            None
        }
    }

    /// Whether a look at the status register stores the packed word: a look
    /// is left, and the ready flag differs from the remembered one.
    pub open spec fn stores_at(self, status: u32) -> bool {
        self.remaining > 0 && toggled(self.ready_flag, status)
    }

    /// The driver after one look at the status register. A look whose ready
    /// flag differs from the remembered one makes its status word the
    /// remembered one and ends the handshake: the value is latched, and no
    /// look is left. Any other look uses up one of the looks that are left.
    pub open spec fn after(self, status: u32) -> Dac {
        if self.remaining == 0 {
            self
        } else if toggled(self.ready_flag, status) {
            Dac { ready_flag: status, remaining: 0, ..self }
        } else {
            Dac { remaining: (self.remaining - 1) as u8, ..self }
        }
    }

    /// The stores that one look causes: the packed word if the ready flag
    /// has toggled, nothing if it has not or no look was left.
    pub open spec fn stores_on(self, status: u32) -> Seq<RegWrite> {
        if self.stores_at(status) {
            seq![latch(self.word)]
        } else {
            Seq::empty()
        }
    }

    /// The driver after a run of looks, taken in order.
    pub open spec fn after_all(self, statuses: Seq<u32>) -> Dac
        decreases statuses.len(),
    {
        if statuses.len() == 0 {
            self
        } else {
            self.after_all(statuses.drop_last()).after(statuses.last())
        }
    }

    /// All stores that a run of looks causes, in order.
    pub open spec fn stores_over(self, statuses: Seq<u32>) -> Seq<RegWrite>
        decreases statuses.len(),
    {
        if statuses.len() == 0 {
            Seq::empty()
        } else {
            self.stores_over(statuses.drop_last()) + self.after_all(
                statuses.drop_last(),
            ).stores_on(statuses.last())
        }
    }

    /// Takes the word that was loaded from the status register and says what
    /// to do next. If the ready flag has toggled, the packed word is stored
    /// and the handshake is over; if not, the status register is looked at
    /// again while looks are left.
    pub fn step(&mut self, status: u32) -> (step: Step)
        requires
            old(self).wf(),
        ensures
            final(self).wf(),
            *final(self) == old(self).after(status),
            step.store == if old(self).stores_at(status) {
                Some(latch(old(self).word))
            } else {
                None
            },
            step.load == final(self).next_load(),
            step.store is Some ==> step.load is None,
            step.in_bounds(),
    {
        if self.remaining == 0 {
            Step { store: None, load: None }
        } else if ((status ^ self.ready_flag) & READY_FLAG) != 0 {
            self.ready_flag = status;
            self.remaining = 0;
            Step { store: Some(RegWrite { offset: DAC_VALUE_OFFSET, value: self.word }), load: None }
        } else {
            self.remaining = self.remaining - 1;
            let load = if self.remaining > 0 {
                Some(DAC_STATE_OFFSET)
            } else {
                None
            };
            Step { store: None, load }
        }
    }
}

/// The driver right after the page is mapped. `status` is the status
/// register's word at that moment; the remembered flag is its opposite, so
/// that the first `set` may store at once.
pub fn init(status: u32) -> (dac: Dac)
    ensures
        dac == (Dac { ready_flag: status ^ 2, word: 0, remaining: 0 }),
        dac.wf(),
        toggled(dac.ready_flag, status),
{
    assert(((status ^ (status ^ 2)) & 2) != 0) by (bit_vector);
    Dac { ready_flag: status ^ READY_FLAG, word: 0, remaining: 0 }
}

/// The last remembered ready flag.
pub fn get_ready_flag(dac: &Dac) -> (flag: u32)
    ensures
        flag == dac.ready_flag,
{
    dac.ready_flag
}

/// Replaces the remembered ready flag.
pub fn set_ready_flag(dac: &mut Dac, v: u32)
    ensures
        *final(dac) == (Dac { ready_flag: v, ..*old(dac) }),
{
    dac.ready_flag = v;
}

/// Starts setting the output to `value`: packs it and grants the handshake
/// its full number of looks at the status register. Nothing is stored yet.
pub fn set(dac: &mut Dac, value: u16) -> (step: Step)
    ensures
        *final(dac) == (Dac { word: packed(value), remaining: 20, ..*old(dac) }),
        final(dac).wf(),
        step.store is None,
        step.load == Some(0x40usize),
        step.in_bounds(),
{
    dac.word = pack(value);
    dac.remaining = RETRIES;
    Step { store: None, load: Some(DAC_STATE_OFFSET) }
}

/// A handshake stores at most once, and nothing but the packed word. Once
/// it has stored, no look is left.
pub proof fn stores_at_most_once(dac: Dac, statuses: Seq<u32>)
    requires
        dac.wf(),
    ensures
        dac.after_all(statuses).wf(),
        dac.after_all(statuses).word == dac.word,
        dac.after_all(statuses).remaining <= dac.remaining,
        dac.stores_over(statuses).len() <= 1,
        dac.stores_over(statuses).len() == 1 ==> dac.stores_over(statuses)[0] == latch(dac.word)
            && dac.after_all(statuses).remaining == 0,
    decreases statuses.len(),
{
    if statuses.len() > 0 {
        stores_at_most_once(dac, statuses.drop_last());
    }
}

/// A ready flag that never differs from the remembered one causes no store
/// at all, and leaves the remembered flag as it was; each look uses up one
/// of the looks that are left.
pub proof fn unchanged_flag_stores_nothing(dac: Dac, statuses: Seq<u32>)
    requires
        forall|i: int| 0 <= i < statuses.len() ==> !toggled(dac.ready_flag, #[trigger] statuses[i]),
    ensures
        dac.stores_over(statuses) == Seq::<RegWrite>::empty(),
        dac.after_all(statuses).ready_flag == dac.ready_flag,
        dac.after_all(statuses).word == dac.word,
        dac.after_all(statuses).remaining == if statuses.len() <= dac.remaining {
            dac.remaining - statuses.len()
        } else {
            0
        },
    decreases statuses.len(),
{
    if statuses.len() > 0 {
        unchanged_flag_stores_nothing(dac, statuses.drop_last());
    }
}

/// If the ready flag differs from the remembered one at a look that the
/// handshake still has, the handshake stores exactly once: the packed word,
/// whatever the flag does at the other looks, be it that it toggles at every
/// one of them. If that look is the first at which the flag differs, its
/// status word is the one remembered afterwards.
pub proof fn toggle_stores_once(dac: Dac, statuses: Seq<u32>, at: int)
    requires
        0 <= at < statuses.len(),
        at < dac.remaining,
        toggled(dac.ready_flag, statuses[at]),
    ensures
        dac.stores_over(statuses) == seq![latch(dac.word)],
        dac.after_all(statuses).remaining == 0,
        dac.after_all(statuses).word == dac.word,
        (forall|i: int| 0 <= i < at ==> !toggled(dac.ready_flag, #[trigger] statuses[i]))
            ==> dac.after_all(statuses).ready_flag == statuses[at],
    decreases statuses.len(),
{
    let earlier = statuses.drop_last();
    if at < earlier.len() {
        toggle_stores_once(dac, earlier, at);
        assert(earlier[at] == statuses[at]);
        assert forall|i: int| 0 <= i < at implies earlier[i] == statuses[i] by {}
        assert(dac.stores_over(statuses) =~= seq![latch(dac.word)]);
    } else if exists|j: int| 0 <= j < at && toggled(dac.ready_flag, #[trigger] earlier[j]) {
        let j = choose|j: int| 0 <= j < at && toggled(dac.ready_flag, #[trigger] earlier[j]);
        toggle_stores_once(dac, earlier, j);
        assert(earlier[j] == statuses[j]);
        assert(dac.stores_over(statuses) =~= seq![latch(dac.word)]);
    } else {
        unchanged_flag_stores_nothing(dac, earlier);
        assert(dac.stores_over(statuses) =~= seq![latch(dac.word)]);
    }
}

} // verus!
