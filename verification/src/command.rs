//! Commands understood by the indicator light, and their textual tokens.

use vstd::prelude::*;
use vstd::string::*;

verus! {

/// A command for the indicator light: one of the colours, or one of the
/// three lifecycle directives `Off`, `Blink` and `Hold`.
#[derive(Clone, Copy, PartialEq, Eq, Structural, Debug)]
pub enum LEDCommand {
    Red,
    Green,
    Blue,
    Purple,
    Violet,
    Teal,
    Yellow,
    White,
    Off,
    Clownbarf,
    Blink,
    Hold,
}

/// The lower-case form of a text, as `str::to_lowercase` computes it.
pub uninterp spec fn lowercased(text: Seq<char>) -> Seq<char>;

/// Calls `str::to_lowercase`. The result is a function of the text alone;
/// nothing more is claimed of it than that it is `lowercased` of the input.
#[verifier::external_body]
fn to_lowercase(text: &str) -> (r: String)
    ensures
        r@ == lowercased(text@),
{
    text.to_lowercase()
}

/// Whether two texts hold the same characters.
pub fn same_text(a: &str, b: &str) -> (r: bool)
    ensures
        r == (a@ == b@),
{
    a.to_owned() == b.to_owned()
}

impl LEDCommand {
    /// Whether the command is a lifecycle directive rather than a colour.
    pub open spec fn is_directive(self) -> bool {
        self is Off || self is Blink || self is Hold
    }

    /// The token that names the command.
    pub open spec fn token(self) -> Seq<char> {
        match self {
            LEDCommand::Red => "red"@,
            LEDCommand::Green => "green"@,
            LEDCommand::Blue => "blue"@,
            LEDCommand::Purple => "purple"@,
            LEDCommand::Violet => "violet"@,
            LEDCommand::Teal => "teal"@,
            LEDCommand::Yellow => "yellow"@,
            LEDCommand::White => "white"@,
            LEDCommand::Off => "off"@,
            LEDCommand::Clownbarf => "clownbarf"@,
            LEDCommand::Blink => "blink"@,
            LEDCommand::Hold => "hold"@,
        }
    }

    /// The command that a token names, if it names one.
    pub open spec fn named_by(token: Seq<char>) -> Option<LEDCommand> {
        if token == "red"@ {
            Some(LEDCommand::Red)
        } else if token == "green"@ {
            Some(LEDCommand::Green)
        } else if token == "blue"@ {
            Some(LEDCommand::Blue)
        } else if token == "purple"@ {
            Some(LEDCommand::Purple)
        } else if token == "violet"@ {
            Some(LEDCommand::Violet)
        } else if token == "teal"@ {
            Some(LEDCommand::Teal)
        } else if token == "yellow"@ {
            Some(LEDCommand::Yellow)
        } else if token == "white"@ {
            Some(LEDCommand::White)
        } else if token == "off"@ {
            Some(LEDCommand::Off)
        } else if token == "clownbarf"@ {
            Some(LEDCommand::Clownbarf)
        } else if token == "blink"@ {
            Some(LEDCommand::Blink)
        } else if token == "hold"@ {
            Some(LEDCommand::Hold)
        } else {
            None
        }
    }

    /// Whether the command is a lifecycle directive.
    pub fn directive(self) -> (r: bool)
        ensures
            r == self.is_directive(),
    {
        match self {
            LEDCommand::Off | LEDCommand::Blink | LEDCommand::Hold => true,
            _ => false,
        }
    }

    /// The lower-case token of the command.
    pub fn name(self) -> (r: &'static str)
        ensures
            r@ == self.token(),
    {
        match self {
            LEDCommand::Red => "red",
            LEDCommand::Green => "green",
            LEDCommand::Blue => "blue",
            LEDCommand::Purple => "purple",
            LEDCommand::Violet => "violet",
            LEDCommand::Teal => "teal",
            LEDCommand::Yellow => "yellow",
            LEDCommand::White => "white",
            LEDCommand::Off => "off",
            LEDCommand::Clownbarf => "clownbarf",
            LEDCommand::Blink => "blink",
            LEDCommand::Hold => "hold",
        }
    }

    /// The command named by a token that is already in lower case.
    /// Anything that is not exactly one of the twelve tokens is unrecognised.
    pub fn from_token(token: &str) -> (r: Option<LEDCommand>)
        ensures
            r == Self::named_by(token@),
    {
        if same_text(token, "red") {
            Some(LEDCommand::Red)
        } else if same_text(token, "green") {
            Some(LEDCommand::Green)
        } else if same_text(token, "blue") {
            Some(LEDCommand::Blue)
        } else if same_text(token, "purple") {
            Some(LEDCommand::Purple)
        } else if same_text(token, "violet") {
            Some(LEDCommand::Violet)
        } else if same_text(token, "teal") {
            Some(LEDCommand::Teal)
        } else if same_text(token, "yellow") {
            Some(LEDCommand::Yellow)
        } else if same_text(token, "white") {
            Some(LEDCommand::White)
        } else if same_text(token, "off") {
            Some(LEDCommand::Off)
        } else if same_text(token, "clownbarf") {
            Some(LEDCommand::Clownbarf)
        } else if same_text(token, "blink") {
            Some(LEDCommand::Blink)
        } else if same_text(token, "hold") {
            Some(LEDCommand::Hold)
        } else {
            None
        }
    }

    /// The command named by a text, whatever its letter case.
    pub fn try_from(value: String) -> (r: Result<LEDCommand, ()>)
        ensures
            r == match Self::named_by(lowercased(value@)) {
                Some(command) => Ok::<LEDCommand, ()>(command),
                None => Err(()),
            },
    {
        let lowered = to_lowercase(value.as_str());
        match Self::from_token(lowered.as_str()) {
            Some(command) => Ok(command),
            None => Err(()),
        }
    }
}

/// Every command is found again from its own token.
pub proof fn token_names_its_command(command: LEDCommand)
    ensures
        LEDCommand::named_by(command.token()) == Some(command),
{
    reveal_strlit("red");
    reveal_strlit("green");
    reveal_strlit("blue");
    reveal_strlit("purple");
    reveal_strlit("violet");
    reveal_strlit("teal");
    reveal_strlit("yellow");
    reveal_strlit("white");
    reveal_strlit("off");
    reveal_strlit("clownbarf");
    reveal_strlit("blink");
    reveal_strlit("hold");
    // Tokens of different lengths differ.
    assert("red"@.len() == 3);
    assert("green"@.len() == 5);
    assert("blue"@.len() == 4);
    assert("purple"@.len() == 6);
    assert("violet"@.len() == 6);
    assert("teal"@.len() == 4);
    assert("yellow"@.len() == 6);
    assert("white"@.len() == 5);
    assert("off"@.len() == 3);
    assert("clownbarf"@.len() == 9);
    assert("blink"@.len() == 5);
    assert("hold"@.len() == 4);
    // Tokens of one length differ in their first letter.
    assert("red"@[0] != "off"@[0]);
    assert("green"@[0] != "white"@[0]);
    assert("green"@[0] != "blink"@[0]);
    assert("white"@[0] != "blink"@[0]);
    assert("blue"@[0] != "teal"@[0]);
    assert("blue"@[0] != "hold"@[0]);
    assert("teal"@[0] != "hold"@[0]);
    assert("purple"@[0] != "violet"@[0]);
    assert("purple"@[0] != "yellow"@[0]);
    assert("violet"@[0] != "yellow"@[0]);
}

/// Whether a character separates two tokens of a command text.
pub open spec fn is_separator(c: char) -> bool {
    c == ' ' || c == ','
}

/// The commands that one piece of text between separators contributes: the
/// command it names, whatever its letter case, or nothing.
pub open spec fn token_commands(token: Seq<char>) -> Seq<LEDCommand> {
    match LEDCommand::named_by(lowercased(token)) {
        Some(command) => seq![command],
        None => Seq::empty(),
    }
}

/// Reading a text from left to right: the commands of the pieces that a
/// separator has ended, and the piece that is still open.
pub open spec fn scanned(text: Seq<char>) -> (Seq<LEDCommand>, Seq<char>)
    decreases text.len(),
{
    if text.len() == 0 {
        (Seq::empty(), Seq::empty())
    } else {
        let (done, open) = scanned(text.drop_last());
        if is_separator(text.last()) {
            (done + token_commands(open), Seq::empty())
        } else {
            (done, open.push(text.last()))
        }
    }
}

/// The commands that a text names: its pieces between spaces and commas, in
/// order, each piece that names a command giving that command.
pub open spec fn commands_in(text: Seq<char>) -> Seq<LEDCommand> {
    scanned(text).0 + token_commands(scanned(text).1)
}

/// Whether a character separates two tokens of a command text.
pub fn separates(c: char) -> (r: bool)
    ensures
        r == is_separator(c),
{
    c == ' ' || c == ','
}

/// Reads a run of commands from a text in which spaces and commas separate
/// the tokens. Pieces that name no command are passed over.
pub fn parse_commands(text: &str) -> (chain: Vec<LEDCommand>)
    ensures
        chain@ == commands_in(text@),
{
    let mut chain: Vec<LEDCommand> = Vec::new();
    let length = text.unicode_len();
    let mut start: usize = 0;
    let mut i: usize = 0;
    while i < length
        invariant
            length == text@.len(),
            0 <= start <= i <= length,
            scanned(text@.take(i as int)) == (chain@, text@.subrange(start as int, i as int)),
        decreases length - i,
    {
        let c = text.get_char(i);
        proof {
            assert(text@.take(i + 1).drop_last() =~= text@.take(i as int));
            assert(text@.take(i + 1).last() == c);
            assert(text@.subrange(start as int, i as int).push(c) =~= text@.subrange(
                start as int,
                i + 1,
            ));
            assert(text@.subrange(i + 1, i + 1) =~= Seq::<char>::empty());
        }
        if separates(c) {
            let piece = text.substring_char(start, i);
            if let Ok(command) = LEDCommand::try_from(piece.to_owned()) {
                chain.push(command);
            }
            start = i + 1;
        }
        i += 1;
    }
    proof {
        assert(text@.take(i as int) =~= text@);
    }
    let piece = text.substring_char(start, i);
    if let Ok(command) = LEDCommand::try_from(piece.to_owned()) {
        chain.push(command);
    }
    chain
}

/// A text without separators is one token.
pub proof fn whole_text_is_one_token(text: Seq<char>)
    requires
        forall|i: int| 0 <= i < text.len() ==> !is_separator(#[trigger] text[i]),
    ensures
        scanned(text) == (Seq::<LEDCommand>::empty(), text),
        commands_in(text) == token_commands(text),
    decreases text.len(),
{
    if text.len() > 0 {
        whole_text_is_one_token(text.drop_last());
        assert(text.drop_last().push(text.last()) =~= text);
    }
    assert(Seq::<LEDCommand>::empty() + token_commands(text) =~= token_commands(text));
}

/// After a separator the reading starts afresh.
proof fn scan_resumes(before: Seq<char>, after: Seq<char>)
    requires
        scanned(before).1 == Seq::<char>::empty(),
    ensures
        scanned(before + after) == (scanned(before).0 + scanned(after).0, scanned(after).1),
    decreases after.len(),
{
    if after.len() == 0 {
        assert(before + after =~= before);
        assert(scanned(before).0 + Seq::<LEDCommand>::empty() =~= scanned(before).0);
    } else {
        let earlier = after.drop_last();
        scan_resumes(before, earlier);
        assert((before + after).drop_last() =~= before + earlier);
        assert((before + after).last() == after.last());
        assert(scanned(before).0 + (scanned(earlier).0 + token_commands(scanned(earlier).1)) =~= (
        scanned(before).0 + scanned(earlier).0) + token_commands(scanned(earlier).1));
    }
}

/// A separator splits a text into two texts that are read on their own: the
/// commands of the whole are those of the part before it, then those of the
/// part after it.
pub proof fn separator_splits(before: Seq<char>, separator: char, after: Seq<char>)
    requires
        is_separator(separator),
    ensures
        commands_in(before.push(separator) + after) == commands_in(before) + commands_in(after),
{
    let head = before.push(separator);
    assert(head.drop_last() =~= before);
    scan_resumes(head, after);
    assert((commands_in(before) + scanned(after).0) + token_commands(scanned(after).1)
        =~= commands_in(before) + (scanned(after).0 + token_commands(scanned(after).1)));
}

} // verus!
