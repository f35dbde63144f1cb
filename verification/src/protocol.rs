//! The opcode protocol: what a message from the controller asks for.

use crate::command::{commands_in, parse_commands, LEDCommand};
use vstd::prelude::*;

verus! {

/// Input report, sent to the controller.
pub const OP_INPUT: u64 = 0x1;

/// Set output, sent by the controller.
pub const OP_OUTPUT: u64 = 0x2;

/// Identification, sent to the controller right after connecting.
pub const OP_IDENTIFY: u64 = 0x3;

/// The controller's acknowledgment of the identification.
pub const OP_HELLO: u64 = 0x4;

/// Set the indicator light, sent by the controller.
pub const OP_SET_LED: u64 = 0xF0;

/// Query of the button, sent by the controller.
pub const OP_GET_BUTTON: u64 = 0xF1;

/// Button state, sent to the controller in reply.
pub const OP_BUTTON_STATE: u64 = 0xF2;

/// Query of the system statistics, sent by the controller.
pub const OP_GET_STATS: u64 = 0xF3;

/// System statistics, sent to the controller in reply.
pub const OP_STATS: u64 = 0xF4;

/// The fields of a message that the dispatch reads.
#[derive(Clone, Debug, PartialEq, Eq)]
pub struct Packet {
    /// The member `opcode`, where it is an unsigned integer.
    pub opcode: Option<u64>,
    /// The member `value` of the member `data`, where it is an unsigned
    /// integer.
    pub value: Option<u64>,
    /// The member `led_command`, where it is a string.
    pub led_command: Option<String>,
}

/// A packet as plain values.
pub struct PacketView {
    pub opcode: Option<u64>,
    pub value: Option<u64>,
    pub led_command: Option<Seq<char>>,
}

impl View for Packet {
    type V = PacketView;

    open spec fn view(&self) -> PacketView {
        PacketView {
            opcode: self.opcode,
            value: self.value,
            led_command: match self.led_command {
                Some(text) => Some(text@),
                None => None,
            },
        }
    }
}

/// What `serde_json` finds in a text: nothing unless the text is a JSON
/// object; else the member `number` as an unsigned integer, the member
/// `inner` of the member `outer` as an unsigned integer, and the member
/// `label` as a string, each where there is such a member of that type.
pub uninterp spec fn json_fields(
    text: Seq<char>,
    number: Seq<char>,
    outer: Seq<char>,
    inner: Seq<char>,
    label: Seq<char>,
) -> Option<PacketView>;

/// Parses the text with `serde_json::from_str` into a `serde_json::Value`
/// and picks three members with `Value::as_object`, `Map::get`, `Value::get`,
/// `Value::as_u64` and `Value::as_str`. The result depends on the five texts
/// alone; it is `None` where the text does not parse or is not an object.
#[verifier::external_body]
fn extract(text: &str, number: &str, outer: &str, inner: &str, label: &str) -> (r: Option<Packet>)
    ensures
        match r {
            Some(packet) => json_fields(text@, number@, outer@, inner@, label@) == Some(packet@),
            None => json_fields(text@, number@, outer@, inner@, label@) is None,
        },
{
    let parsed: serde_json::Value = serde_json::from_str(text).ok()?;
    let object = parsed.as_object()?;
    Some(Packet {
        opcode: object.get(number).and_then(|v| v.as_u64()),
        value: object.get(outer).and_then(|v| v.get(inner)).and_then(|v| v.as_u64()),
        led_command: object.get(label).and_then(|v| v.as_str()).map(|s| s.to_string()),
    })
}

/// The packet that a message text holds, if it is a JSON object.
pub open spec fn decoded(text: Seq<char>) -> Option<PacketView> {
    json_fields(text, "opcode"@, "data"@, "value"@, "led_command"@)
}

/// Reads the packet out of a message text.
pub fn decode(text: &str) -> (r: Option<Packet>)
    ensures
        match r {
            Some(packet) => decoded(text@) == Some(packet@),
            None => decoded(text@) is None,
        },
{
    extract(text, "opcode", "data", "value", "led_command")
}

/// Why a message was passed over.
#[derive(Clone, Copy, PartialEq, Eq, Structural, Debug)]
pub enum Complaint {
    /// The text is not a JSON object.
    NotAnObject,
    /// The object has no unsigned integer `opcode`.
    NoOpcode,
    /// A set-output message without an unsigned integer value.
    BadOutput,
    /// A set-light message without a command text.
    BadLed,
    /// An opcode that asks nothing of this device.
    UnknownOpcode(u64),
}

/// What a message asks the device to do.
#[derive(Clone, Debug, PartialEq, Eq)]
pub enum Reaction {
    /// Set the analog output to this value.
    SetOutput(u16),
    /// Send these commands to the indicator light.
    SetLed(Vec<LEDCommand>),
    /// Read the button and report its state.
    ReportButton,
    /// Gather the system statistics and report them.
    ReportStats,
    /// The controller has acknowledged the identification: nothing to do.
    Hello,
    /// Nothing to do but to log the complaint.
    Ignored(Complaint),
}

/// A reaction as plain values.
pub enum ReactionView {
    SetOutput(u16),
    SetLed(Seq<LEDCommand>),
    ReportButton,
    ReportStats,
    Hello,
    Ignored(Complaint),
}

impl View for Reaction {
    type V = ReactionView;

    open spec fn view(&self) -> ReactionView {
        match *self {
            Reaction::SetOutput(value) => ReactionView::SetOutput(value),
            Reaction::SetLed(chain) => ReactionView::SetLed(chain@),
            Reaction::ReportButton => ReactionView::ReportButton,
            Reaction::ReportStats => ReactionView::ReportStats,
            Reaction::Hello => ReactionView::Hello,
            Reaction::Ignored(complaint) => ReactionView::Ignored(complaint),
        }
    }
}

impl Reaction {
    /// Whether carrying the reaction out touches the hardware.
    pub open spec fn touches_hardware(self) -> bool {
        self is SetOutput || self is SetLed || self is ReportButton || self is ReportStats
    }
}

/// The reaction that a packet calls for, by its opcode. A set-output value is
/// cut to its sixteen low bits.
pub open spec fn reaction_to(packet: Option<PacketView>) -> ReactionView {
    match packet {
        None => ReactionView::Ignored(Complaint::NotAnObject),
        Some(fields) => match fields.opcode {
            None => ReactionView::Ignored(Complaint::NoOpcode),
            Some(opcode) => if opcode == 0x2 {
                match fields.value {
                    Some(value) => ReactionView::SetOutput((value % 0x1_0000) as u16),
                    None => ReactionView::Ignored(Complaint::BadOutput),
                }
            } else if opcode == 0x4 {
                ReactionView::Hello
            } else if opcode == 0xF0 {
                match fields.led_command {
                    Some(text) => ReactionView::SetLed(commands_in(text)),
                    None => ReactionView::Ignored(Complaint::BadLed),
                }
            } else if opcode == 0xF1 {
                ReactionView::ReportButton
            } else if opcode == 0xF3 {
                ReactionView::ReportStats
            } else {
                ReactionView::Ignored(Complaint::UnknownOpcode(opcode))
            },
        },
    }
}

/// Dispatches a packet by its opcode.
pub fn react(packet: &Packet) -> (r: Reaction)
    ensures
        r@ == reaction_to(Some(packet@)),
{
    match packet.opcode {
        None => Reaction::Ignored(Complaint::NoOpcode),
        Some(opcode) => {
            if opcode == OP_OUTPUT {
                match packet.value {
                    Some(value) => Reaction::SetOutput((value % 0x1_0000) as u16),
                    None => Reaction::Ignored(Complaint::BadOutput),
                }
            } else if opcode == OP_HELLO {
                Reaction::Hello
            } else if opcode == OP_SET_LED {
                match &packet.led_command {
                    Some(text) => Reaction::SetLed(parse_commands(text.as_str())),
                    None => Reaction::Ignored(Complaint::BadLed),
                }
            } else if opcode == OP_GET_BUTTON {
                Reaction::ReportButton
            } else if opcode == OP_GET_STATS {
                Reaction::ReportStats
            } else {
                Reaction::Ignored(Complaint::UnknownOpcode(opcode))
            }
        },
    }
}

/// Decodes a message text and dispatches it. A text that is no JSON object
/// is passed over.
pub fn handle_text(text: &str) -> (r: Reaction)
    ensures
        r@ == reaction_to(decoded(text@)),
{
    match decode(text) {
        Some(packet) => react(&packet),
        None => Reaction::Ignored(Complaint::NotAnObject),
    }
}

/// A message as the transport delivers it.
#[derive(Clone, Debug, PartialEq, Eq)]
pub enum Frame {
    /// A text message.
    Text(String),
    /// A ping, with its payload.
    Ping(Vec<u8>),
    /// The peer closes the connection.
    Close,
    /// Any other kind of message.
    Other,
}

/// What to do about a delivered message.
#[derive(Clone, Debug, PartialEq, Eq)]
pub enum Inbound {
    /// The session is over.
    End,
    /// Answer with a pong that carries this payload.
    Pong(Vec<u8>),
    /// Carry the reaction out.
    React(Reaction),
    /// Nothing to do.
    Skip,
}

/// Classifies a delivered message: a close ends the session, a ping is
/// answered with its own payload, a text is dispatched by opcode, anything
/// else is passed over.
pub fn receive(frame: Frame) -> (r: Inbound)
    ensures
        match frame {
            Frame::Close => r is End,
            Frame::Ping(payload) => r matches Inbound::Pong(echo) && echo@ == payload@,
            Frame::Text(text) => r matches Inbound::React(reaction) && reaction@ == reaction_to(
                decoded(text@),
            ),
            Frame::Other => r is Skip,
        },
{
    match frame {
        Frame::Close => Inbound::End,
        Frame::Ping(payload) => Inbound::Pong(payload),
        Frame::Text(text) => Inbound::React(handle_text(text.as_str())),
        Frame::Other => Inbound::Skip,
    }
}

/// Only four opcodes make the device touch its hardware; a message with any
/// other opcode, or with none, or with a payload that does not fit its
/// opcode, touches nothing.
pub proof fn only_known_opcodes_act(packet: Option<PacketView>)
    ensures
        !(reaction_to(packet) is Ignored) && !(reaction_to(packet) is Hello) <==> (packet matches Some(
            fields,
        ) && fields.opcode matches Some(opcode) && ((opcode == 0x2 && fields.value is Some) || (
        opcode == 0xF0 && fields.led_command is Some) || opcode == 0xF1 || opcode == 0xF3)),
{
}

} // verus!
