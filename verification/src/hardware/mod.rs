//! Register-level protocols of the four hardware functions.
//!
//! Nothing here touches memory. Each driver says which registers to load and
//! store, and what the loaded words mean; whoever owns the mapped page carries
//! the accesses out.

use vstd::prelude::*;

pub mod adc;
pub mod button;
pub mod dac;
pub mod led;

verus! {

/// Size in bytes of the window that is mapped for each register page.
pub const MAP_SIZE: usize = 0x2000;

/// One 32-bit store into a register page.
#[derive(Clone, Copy, PartialEq, Eq, Structural, Debug)]
pub struct RegWrite {
    /// Byte offset of the register within the page.
    pub offset: usize,
    /// The word to store.
    pub value: u32,
}

/// What to do next on a register page: an optional store, then an optional
/// load whose result is handed to the protocol's next step. A step without a
/// load ends the protocol.
#[derive(Clone, Copy, PartialEq, Eq, Debug)]
pub struct Step {
    /// The store to make first, if any.
    pub store: Option<RegWrite>,
    /// Byte offset of the register to load afterwards, if any.
    pub load: Option<usize>,
}

impl Step {
    /// Whether every access of the step lies inside the window.
    pub open spec fn in_bounds(self) -> bool {
        (self.store matches Some(write) ==> in_window(write.offset)) && (self.load matches Some(
            offset,
        ) ==> in_window(offset))
    }
}

/// Whether a 32-bit access at `offset` is aligned and lies inside the window.
pub open spec fn in_window(offset: usize) -> bool {
    offset % 4 == 0 && offset + 4 <= MAP_SIZE
}

/// Whether every store of a list lies inside the window.
pub open spec fn all_in_window(writes: Seq<RegWrite>) -> bool {
    forall|i: int| 0 <= i < writes.len() ==> in_window(#[trigger] writes[i].offset)
}

/// Whether a 32-bit access at `offset` is aligned and lies inside the window.
pub fn within_window(offset: usize) -> (r: bool)
    ensures
        r == in_window(offset),
{
    offset % 4 == 0 && offset <= MAP_SIZE - 4
}

/// The four hardware functions, in the order in which they are brought up.
#[derive(Clone, Copy, PartialEq, Eq, Structural, Debug)]
pub enum Subsystem {
    Adc,
    Button,
    Dac,
    Led,
}

impl Subsystem {
    /// The subsystem's place in the order of bringing up.
    pub open spec fn rank(self) -> int {
        match self {
            Subsystem::Adc => 0,
            Subsystem::Button => 1,
            Subsystem::Dac => 2,
            Subsystem::Led => 3,
        }
    }

    /// The subsystem's name in reports.
    pub open spec fn label(self) -> Seq<char> {
        match self {
            Subsystem::Adc => "ADC"@,
            Subsystem::Button => "Button"@,
            Subsystem::Dac => "DAC"@,
            Subsystem::Led => "LED"@,
        }
    }

    /// Physical address at which the subsystem's register page starts. The
    /// button and the light share the GPIO page.
    pub open spec fn base(self) -> usize {
        match self {
            Subsystem::Adc => 0x8005_0000,
            Subsystem::Button => 0x8001_8000,
            Subsystem::Dac => 0x8004_8000,
            Subsystem::Led => 0x8001_8000,
        }
    }

    /// The subsystem that is brought up next, if any.
    pub open spec fn successor(self) -> Option<Subsystem> {
        match self {
            Subsystem::Adc => Some(Subsystem::Button),
            Subsystem::Button => Some(Subsystem::Dac),
            Subsystem::Dac => Some(Subsystem::Led),
            Subsystem::Led => None,
        }
    }

    /// The subsystem's name in reports.
    pub fn name(self) -> (r: &'static str)
        ensures
            r@ == self.label(),
    {
        match self {
            Subsystem::Adc => "ADC",
            Subsystem::Button => "Button",
            Subsystem::Dac => "DAC",
            Subsystem::Led => "LED",
        }
    }

    /// Physical address at which the subsystem's register page starts.
    pub fn page(self) -> (r: usize)
        ensures
            r == self.base(),
    {
        match self {
            Subsystem::Adc => adc::ADC_PAGE,
            Subsystem::Button => button::GPIO_PAGE,
            Subsystem::Dac => dac::DAC_PAGE,
            Subsystem::Led => led::GPIO_PAGE,
        }
    }
}

/// How far the bringing up of the hardware has come.
#[derive(Clone, Copy, PartialEq, Eq, Structural, Debug)]
pub enum Bootstrap {
    /// The page of this subsystem is to be mapped next.
    Mapping(Subsystem),
    /// All four pages are mapped.
    Ready,
    /// The page of this subsystem could not be mapped; nothing after it was
    /// tried.
    Failed(Subsystem),
}

impl Bootstrap {
    /// The state after an attempt to map the page that was due.
    pub open spec fn after(self, mapped: bool) -> Bootstrap {
        match self {
            Bootstrap::Mapping(subsystem) => if !mapped {
                Bootstrap::Failed(subsystem)
            } else {
                match subsystem.successor() {
                    Some(next) => Bootstrap::Mapping(next),
                    None => Bootstrap::Ready,
                }
            },
            Bootstrap::Ready => Bootstrap::Ready,
            Bootstrap::Failed(subsystem) => Bootstrap::Failed(subsystem),
        }
    }

    /// The state after a run of attempts, taken in order.
    pub open spec fn after_all(self, outcomes: Seq<bool>) -> Bootstrap
        decreases outcomes.len(),
    {
        if outcomes.len() == 0 {
            self
        } else {
            self.after_all(outcomes.drop_last()).after(outcomes.last())
        }
    }

    /// The start: the converter for the analog input comes first.
    pub fn begin() -> (r: Bootstrap)
        ensures
            r == Bootstrap::Mapping(Subsystem::Adc),
    {
        Bootstrap::Mapping(Subsystem::Adc)
    }

    /// Takes the outcome of the attempt to map the page that was due. The
    /// first failure is final; so is success with the last page.
    pub fn mapped(&mut self, mapped: bool)
        ensures
            *final(self) == old(self).after(mapped),
    {
        match *self {
            Bootstrap::Mapping(subsystem) => {
                if !mapped {
                    *self = Bootstrap::Failed(subsystem);
                } else {
                    *self = match subsystem {
                        Subsystem::Adc => Bootstrap::Mapping(Subsystem::Button),
                        Subsystem::Button => Bootstrap::Mapping(Subsystem::Dac),
                        Subsystem::Dac => Bootstrap::Mapping(Subsystem::Led),
                        Subsystem::Led => Bootstrap::Ready,
                    };
                }
            },
            _ => {},
        }
    }
}

/// The bringing up fails fast: it fails with the subsystem whose page was
/// the first not to be mapped, and is ready exactly when four pages in a row
/// were mapped.
pub proof fn bootstrap_fails_fast(outcomes: Seq<bool>)
    ensures
        match Bootstrap::Mapping(Subsystem::Adc).after_all(outcomes) {
            Bootstrap::Mapping(subsystem) => outcomes.len() == subsystem.rank() && forall|i: int|
                0 <= i < outcomes.len() ==> outcomes[i],
            Bootstrap::Ready => outcomes.len() >= 4 && forall|i: int| 0 <= i < 4 ==> outcomes[i],
            Bootstrap::Failed(subsystem) => outcomes.len() > subsystem.rank() && !outcomes[subsystem.rank()]
                && forall|i: int| 0 <= i < subsystem.rank() ==> outcomes[i],
        },
    decreases outcomes.len(),
{
    if outcomes.len() > 0 {
        let earlier = outcomes.drop_last();
        bootstrap_fails_fast(earlier);
        assert(forall|i: int| 0 <= i < earlier.len() ==> earlier[i] == outcomes[i]);
    }
}

} // verus!
