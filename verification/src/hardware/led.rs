//! The indicator light: a command queue and the state machine that turns
//! queued commands into pin stores, once per tick.

use crate::command::LEDCommand;
use crate::hardware::{all_in_window, RegWrite};
use vstd::prelude::*;

verus! {

/// Physical base address of the GPIO register page.
pub const GPIO_PAGE: usize = 0x8001_8000;

/// Milliseconds between two ticks of the controller.
pub const TICK_MILLIS: u64 = 500;

/// Register that drives pins of bank 0 high.
pub const BANK0_SET: usize = 0x0508;

/// Register that drives pins of bank 0 low.
pub const BANK0_CLEAR: usize = 0x0504;

/// Register that drives pins of bank 1 high.
pub const BANK1_SET: usize = 0x0518;

/// Register that drives pins of bank 1 low.
pub const BANK1_CLEAR: usize = 0x0514;

/// Pin of the red channel, in bank 0.
pub const RED_PIN: u32 = 0x8000_0000;

/// Pin of the green channel, in bank 0.
pub const GREEN_PIN: u32 = 0x4000_0000;

/// Pin of the blue channel, in bank 1.
pub const BLUE_PIN: u32 = 0x1000_0000;

/// The stores that route the three pins to GPIO and make them outputs.
pub open spec fn init_writes() -> Seq<RegWrite> {
    seq![
        RegWrite { offset: 0x0114, value: 0xF000_0000 },
        RegWrite { offset: 0x0134, value: 0x0300_0000 },
        RegWrite { offset: 0x0704, value: 0x4000_0000 },
        RegWrite { offset: 0x0714, value: 0x1000_0000 },
    ]
}

/// The stores to make once, right after the page is mapped.
pub fn mem_init() -> (writes: Vec<RegWrite>)
    ensures
        writes@ == init_writes(),
        all_in_window(writes@),
{
    let mut writes: Vec<RegWrite> = Vec::new();
    writes.push(RegWrite { offset: 0x0114, value: 0xF000_0000 });
    writes.push(RegWrite { offset: 0x0134, value: 0x0300_0000 });
    writes.push(RegWrite { offset: 0x0704, value: 0x4000_0000 });
    writes.push(RegWrite { offset: 0x0714, value: 0x1000_0000 });
    writes
}

/// The three-bit mask of a colour: red is bit 2, green bit 1, blue bit 0.
pub open spec fn mask_of(color: LEDCommand) -> u8 {
    match color {
        LEDCommand::Red => 0b100,
        LEDCommand::Green => 0b010,
        LEDCommand::Blue => 0b001,
        LEDCommand::Purple => 0b101,
        LEDCommand::Violet => 0b101,
        LEDCommand::Teal => 0b011,
        LEDCommand::Yellow => 0b110,
        _ => 0b111,
    }
}

/// The three stores that show a mask: each pin goes to the "set" register of
/// its bank if its bit is in the mask, to the "clear" register if not.
pub open spec fn pin_writes(mask: u8) -> Seq<RegWrite> {
    seq![
        RegWrite { offset: if mask & 0b100 != 0 { BANK0_SET } else { BANK0_CLEAR }, value: RED_PIN },
        RegWrite { offset: if mask & 0b010 != 0 { BANK0_SET } else { BANK0_CLEAR }, value: GREEN_PIN },
        RegWrite { offset: if mask & 0b001 != 0 { BANK1_SET } else { BANK1_CLEAR }, value: BLUE_PIN },
    ]
}

/// The mask of a colour.
pub fn color_mask(color: LEDCommand) -> (mask: u8)
    requires
        !color.is_directive(),
    ensures
        mask == mask_of(color),
        mask <= 0b111,
{
    match color {
        LEDCommand::Red => 0b100,
        LEDCommand::Green => 0b010,
        LEDCommand::Blue => 0b001,
        LEDCommand::Purple | LEDCommand::Violet => 0b101,
        LEDCommand::Teal => 0b011,
        LEDCommand::Yellow => 0b110,
        _ => 0b111,
    }
}

/// The stores that show a mask on the three pins.
pub fn mask_writes(mask: u8) -> (writes: Vec<RegWrite>)
    ensures
        writes@ == pin_writes(mask),
        all_in_window(writes@),
{
    let mut writes: Vec<RegWrite> = Vec::new();
    writes.push(RegWrite { offset: if mask & 0b100 != 0 { BANK0_SET } else { BANK0_CLEAR }, value: RED_PIN });
    writes.push(RegWrite { offset: if mask & 0b010 != 0 { BANK0_SET } else { BANK0_CLEAR }, value: GREEN_PIN });
    writes.push(RegWrite { offset: if mask & 0b001 != 0 { BANK1_SET } else { BANK1_CLEAR }, value: BLUE_PIN });
    writes
}

/// What the controller remembers between ticks. Colour and lifecycle are
/// independent: a colour command never changes the directive, nor the reverse.
#[derive(Clone, Copy, PartialEq, Eq, Structural, Debug)]
pub struct LedController {
    /// The colour last commanded.
    pub color: LEDCommand,
    /// The lifecycle directive last commanded.
    pub state: LEDCommand,
    /// Whether the light counted as on at the last tick.
    pub is_on: bool,
    /// Whether the colour has changed since it was last put on the pins.
    pub color_changed: bool,
}

impl LedController {
    /// `color` holds a colour and `state` a directive.
    pub open spec fn wf(self) -> bool {
        !self.color.is_directive() && self.state.is_directive()
    }

    /// The state before any command: white, off, nothing to show.
    pub open spec fn initial() -> LedController {
        LedController {
            color: LEDCommand::White,
            state: LEDCommand::Off,
            is_on: false,
            color_changed: false,
        }
    }

    /// The state after one command. A directive replaces the directive. A
    /// colour replaces the colour, and marks it changed if it differs.
    pub open spec fn absorb_one(self, command: LEDCommand) -> LedController {
        if command.is_directive() {
            LedController { state: command, ..self }
        } else {
            LedController {
                color: command,
                color_changed: self.color_changed || command != self.color,
                ..self
            }
        }
    }

    /// The state after a run of commands, taken in order.
    pub open spec fn absorb(self, commands: Seq<LEDCommand>) -> LedController
        decreases commands.len(),
    {
        if commands.len() == 0 {
            self
        } else {
            self.absorb(commands.drop_last()).absorb_one(commands.last())
        }
    }

    /// Whether the light counts as on at the coming tick.
    pub open spec fn lit(self) -> bool {
        match self.state {
            LEDCommand::Off => false,
            LEDCommand::Hold => true,
            _ => !self.is_on,
        }
    }

    /// Whether the coming tick puts the colour on the pins.
    pub open spec fn shows(self) -> bool {
        self.lit() && self.color_changed
    }

    /// The stores that the coming tick makes.
    pub open spec fn effect(self) -> Seq<RegWrite> {
        if self.shows() {
            pin_writes(mask_of(self.color))
        } else {
            Seq::empty()
        }
    }

    /// The state that the coming tick leaves.
    pub open spec fn settle(self) -> LedController {
        LedController {
            is_on: self.lit(),
            color_changed: self.color_changed && !self.lit(),
            ..self
        }
    }

    /// The controller before any command.
    pub fn new() -> (controller: LedController)
        ensures
            controller == Self::initial(),
            controller.wf(),
    {
        LedController {
            color: LEDCommand::White,
            state: LEDCommand::Off,
            is_on: false,
            color_changed: false,
        }
    }

    /// Takes one command in.
    pub fn apply(&mut self, command: LEDCommand)
        requires
            old(self).wf(),
        ensures
            *final(self) == old(self).absorb_one(command),
            final(self).wf(),
    {
        if command.directive() {
            self.state = command;
        } else {
            if command != self.color {
                self.color_changed = true;
            }
            self.color = command;
        }
    }

    /// One tick: takes in the commands that arrived since the last tick, in
    /// order, decides whether the light is on, and returns the pin stores to
    /// make. Stores are made only when the light is on and the colour has
    /// changed since it was last shown.
    pub fn tick(&mut self, pending: &Vec<LEDCommand>) -> (writes: Vec<RegWrite>)
        requires
            old(self).wf(),
        ensures
            final(self).wf(),
            *final(self) == old(self).absorb(pending@).settle(),
            writes@ == old(self).absorb(pending@).effect(),
            all_in_window(writes@),
    {
        let mut i: usize = 0;
        while i < pending.len()
            invariant
                0 <= i <= pending.len(),
                self.wf(),
                *self == old(self).absorb(pending@.take(i as int)),
            decreases pending.len() - i,
        {
            self.apply(pending[i]);
            proof {
                assert(pending@.take(i + 1).drop_last() =~= pending@.take(i as int));
            }
            i += 1;
        }
        proof {
            assert(pending@.take(i as int) =~= pending@);
        }
        self.is_on = match self.state {
            LEDCommand::Off => false,
            LEDCommand::Hold => true,
            _ => !self.is_on,
        };
        if self.is_on && self.color_changed {
            self.color_changed = false;
            mask_writes(color_mask(self.color))
        } else {
            Vec::new()
        }
    }
}

/// The sending and receiving ends of the controller's command channel:
/// commands wait here, in the order they were sent, until the next tick.
pub struct CommandQueue {
    /// Commands sent and not yet taken by the controller, oldest first.
    pub pending: Vec<LEDCommand>,
    /// Whether the channel still accepts commands.
    pub open: bool,
}

impl CommandQueue {
    /// An open channel with nothing waiting.
    pub fn new() -> (queue: CommandQueue)
        ensures
            queue.open,
            queue.pending@ == Seq::<LEDCommand>::empty(),
    {
        CommandQueue { pending: Vec::new(), open: true }
    }

    /// Closes the channel for good. What already waits is still delivered.
    pub fn close(&mut self)
        ensures
            !final(self).open,
            final(self).pending@ == old(self).pending@,
    {
        self.open = false;
    }

    /// Whether the controller's task is over: the channel is closed and
    /// nothing waits in it.
    pub open spec fn finished(self) -> bool {
        !self.open && self.pending@.len() == 0
    }

    /// Hands over everything that waits, oldest first, and leaves the
    /// channel empty.
    pub fn drain(&mut self) -> (taken: Vec<LEDCommand>)
        ensures
            taken@ == old(self).pending@,
            final(self).pending@ == Seq::<LEDCommand>::empty(),
            final(self).open == old(self).open,
    {
        let mut taken: Vec<LEDCommand> = Vec::new();
        std::mem::swap(&mut taken, &mut self.pending);
        taken
    }
}

/// The controller's channel and the controller itself, as they are before
/// the first command: the channel open and empty, the light white and off.
pub fn init() -> (r: (CommandQueue, LedController))
    ensures
        r.0.open,
        r.0.pending@ == Seq::<LEDCommand>::empty(),
        r.1 == LedController::initial(),
        r.1.wf(),
{
    (CommandQueue::new(), LedController::new())
}

/// Sends one command to the controller. Returns whether it was accepted:
/// a closed channel accepts nothing and is left as it was.
pub fn set(queue: &mut CommandQueue, arg: LEDCommand) -> (accepted: bool)
    ensures
        accepted == old(queue).open,
        final(queue).open == old(queue).open,
        final(queue).pending@ == if old(queue).open {
            old(queue).pending@.push(arg)
        } else {
            old(queue).pending@
        },
{
    if queue.open {
        queue.pending.push(arg);
        true
    } else {
        false
    }
}

/// Sends a run of commands, in order. Returns whether there was at least one
/// and all were accepted.
pub fn set_many(queue: &mut CommandQueue, arg: Vec<LEDCommand>) -> (accepted: bool)
    ensures
        accepted == (arg@.len() > 0 && old(queue).open),
        final(queue).open == old(queue).open,
        final(queue).pending@ == if old(queue).open {
            old(queue).pending@ + arg@
        } else {
            old(queue).pending@
        },
{
    if arg.len() == 0 {
        false
    } else {
        let mut combined = true;
        let mut i: usize = 0;
        while i < arg.len()
            invariant
                0 <= i <= arg.len(),
                queue.open == old(queue).open,
                combined == (i == 0 || old(queue).open),
                queue.pending@ == if old(queue).open {
                    old(queue).pending@ + arg@.take(i as int)
                } else {
                    old(queue).pending@
                },
            decreases arg.len() - i,
        {
            let sent = set(queue, arg[i]);
            combined = combined && sent;
            proof {
                assert(arg@.take(i + 1) =~= arg@.take(i as int).push(arg@[i as int]));
                assert(old(queue).pending@ + arg@.take(i as int).push(arg@[i as int])
                    =~= (old(queue).pending@ + arg@.take(i as int)).push(arg@[i as int]));
            }
            i += 1;
        }
        proof {
            assert(arg@.take(i as int) =~= arg@);
        }
        combined
    }
}

/// One round of the controller's task. While the channel is open or holds
/// commands, the round takes what waits and ticks; once the channel is closed
/// and empty the task is over, and nothing changes.
pub fn run_once(queue: &mut CommandQueue, controller: &mut LedController) -> (writes: Option<
    Vec<RegWrite>,
>)
    requires
        old(controller).wf(),
    ensures
        final(controller).wf(),
        final(queue).open == old(queue).open,
        final(queue).pending@ == Seq::<LEDCommand>::empty(),
        old(queue).finished() ==> writes is None && *final(controller) == *old(controller),
        !old(queue).finished() ==> writes is Some
            && *final(controller) == old(controller).absorb(old(queue).pending@).settle()
            && writes->0@ == old(controller).absorb(old(queue).pending@).effect()
            && all_in_window(writes->0@),
{
    if !queue.open && queue.pending.len() == 0 {
        None
    } else {
        let taken = queue.drain();
        Some(controller.tick(&taken))
    }
}

/// After a tick, nothing is left to show while the light is on: the colour
/// is put on the pins at most once per change.
pub proof fn shown_once(state: LedController, pending: Seq<LEDCommand>)
    ensures
        state.absorb(pending).settle().is_on ==> !state.absorb(pending).settle().color_changed,
{
}

/// Commands that name no new colour cause no store: if the colour is not
/// marked changed and every colour among the commands is the current one, the
/// tick makes no store, whatever the directives say.
pub proof fn same_color_is_silent(state: LedController, pending: Seq<LEDCommand>)
    requires
        !state.color_changed,
        forall|i: int|
            0 <= i < pending.len() ==> (#[trigger] pending[i]).is_directive() || pending[i]
                == state.color,
    ensures
        state.absorb(pending).color == state.color,
        !state.absorb(pending).color_changed,
        state.absorb(pending).effect() == Seq::<RegWrite>::empty(),
    decreases pending.len(),
{
    if pending.len() > 0 {
        same_color_is_silent(state, pending.drop_last());
    }
}

/// A colour other than the one before the commands is marked changed, and
/// under `Hold` the tick puts exactly that colour on the pins.
pub proof fn new_color_is_shown(state: LedController, pending: Seq<LEDCommand>)
    ensures
        state.absorb(pending).color != state.color ==> state.absorb(pending).color_changed,
        state.absorb(pending).color != state.color && state.absorb(pending).state
            == LEDCommand::Hold ==> state.absorb(pending).effect() == pin_writes(
            mask_of(state.absorb(pending).color),
        ),
    decreases pending.len(),
{
    if pending.len() > 0 {
        new_color_is_shown(state, pending.drop_last());
    }
}

/// A colour that has not been shown yet stays due, whatever commands follow:
/// the next tick under `Hold` puts the colour then current on the pins.
pub proof fn due_color_is_shown_on_hold(state: LedController, pending: Seq<LEDCommand>)
    requires
        state.color_changed,
    ensures
        state.absorb(pending).color_changed,
        state.absorb(pending).state == LEDCommand::Hold ==> state.absorb(pending).effect()
            == pin_writes(mask_of(state.absorb(pending).color)),
    decreases pending.len(),
{
    if pending.len() > 0 {
        due_color_is_shown_on_hold(state, pending.drop_last());
    }
}

/// Under `Blink` the light alternates between on and off at every tick.
pub proof fn blink_alternates(state: LedController)
    requires
        state.state == LEDCommand::Blink,
    ensures
        state.absorb(Seq::empty()).settle().is_on == !state.is_on,
        state.absorb(Seq::empty()).settle().state == LEDCommand::Blink,
{
}

/// The directive after a run of commands is the last directive among them,
/// and the colour the last colour; without one, the old value stays.
pub proof fn last_command_wins(state: LedController, pending: Seq<LEDCommand>)
    ensures
        (forall|i: int| 0 <= i < pending.len() ==> !(#[trigger] pending[i]).is_directive())
            ==> state.absorb(pending).state == state.state,
        (forall|i: int| 0 <= i < pending.len() ==> (#[trigger] pending[i]).is_directive())
            ==> state.absorb(pending).color == state.color,
        forall|i: int|
            0 <= i < pending.len() && (#[trigger] pending[i]).is_directive() && (forall|j: int|
                i < j < pending.len() ==> !(#[trigger] pending[j]).is_directive())
                ==> state.absorb(pending).state == pending[i],
        forall|i: int|
            0 <= i < pending.len() && !(#[trigger] pending[i]).is_directive() && (forall|j: int|
                i < j < pending.len() ==> (#[trigger] pending[j]).is_directive())
                ==> state.absorb(pending).color == pending[i],
    decreases pending.len(),
{
    if pending.len() > 0 {
        last_command_wins(state, pending.drop_last());
        let init = pending.drop_last();
        assert(forall|i: int| 0 <= i < init.len() ==> init[i] == pending[i]);
    }
}

} // verus!
