//! Steering commands and their text on the wire.

use vstd::prelude::*;
use vstd::string::StringExecFns;
use crate::heading::valid_heading;

verus! {

/// An instruction to one aircraft to take a new heading.
#[derive(Clone, Debug, PartialEq, Eq)]
pub struct Command {
    pub aircraft_id: String,
    pub heading: i32,
}

/// What contracts see of a command.
pub struct CommandView {
    pub aircraft_id: Seq<char>,
    pub heading: int,
}

impl View for Command {
    type V = CommandView;

    open spec fn view(&self) -> CommandView {
        CommandView { aircraft_id: self.aircraft_id@, heading: self.heading as int }
    }
}

/// The views of a list of commands, in order.
pub open spec fn command_views(cmds: Seq<Command>) -> Seq<CommandView> {
    Seq::new(cmds.len(), |i: int| cmds[i]@)
}

/// Every command of the list asks for a heading in `[0, 359]`.
pub open spec fn headings_valid(cmds: Seq<CommandView>) -> bool {
    forall|k: int| 0 <= k < cmds.len() ==> valid_heading((#[trigger] cmds[k]).heading)
}

/// No two commands of the list address the same aircraft.
pub open spec fn one_per_aircraft(cmds: Seq<CommandView>) -> bool {
    forall|i: int, j: int|
        0 <= i < j < cmds.len() ==> (#[trigger] cmds[i]).aircraft_id != (
        #[trigger] cmds[j]).aircraft_id
}

/// The texts of a list of strings, in order.
pub open spec fn texts(lines: Seq<String>) -> Seq<Seq<char>> {
    Seq::new(lines.len(), |i: int| lines[i]@)
}

/// The character of a decimal digit.
pub open spec fn digit_char(d: int) -> char {
    if d == 0 {
        '0'
    } else if d == 1 {
        '1'
    } else if d == 2 {
        '2'
    } else if d == 3 {
        '3'
    } else if d == 4 {
        '4'
    } else if d == 5 {
        '5'
    } else if d == 6 {
        '6'
    } else if d == 7 {
        '7'
    } else if d == 8 {
        '8'
    } else {
        '9'
    }
}

/// The decimal numeral of a natural number, without leading zeros.
pub open spec fn decimal(n: nat) -> Seq<char>
    decreases n,
{
    if n < 10 {
        seq![digit_char(n as int)]
    } else {
        decimal(n / 10) + seq![digit_char((n % 10) as int)]
    }
}

/// The decimal numeral of an integer: a minus sign before the digits of a
/// negative one.
pub open spec fn integer_text(n: int) -> Seq<char> {
    if n < 0 {
        seq!['-'] + decimal((-n) as nat)
    } else {
        decimal(n as nat)
    }
}

/// The text of a command: the verb, the aircraft and the heading, with one
/// space between them.
pub open spec fn command_text(c: CommandView) -> Seq<char> {
    seq!['H', 'E', 'A', 'D', ' '] + c.aircraft_id + seq![' '] + integer_text(c.heading)
}

/// The texts of a list of commands, in order.
pub open spec fn command_texts(cmds: Seq<CommandView>) -> Seq<Seq<char>> {
    Seq::new(cmds.len(), |i: int| command_text(cmds[i]))
}

/// The one-character text of a decimal digit.
fn digit_text(d: u32) -> (s: &'static str)
    requires
        d < 10,
    ensures
        s@ == seq![digit_char(d as int)],
{
    proof {
        reveal_strlit("0");
        reveal_strlit("1");
        reveal_strlit("2");
        reveal_strlit("3");
        reveal_strlit("4");
        reveal_strlit("5");
        reveal_strlit("6");
        reveal_strlit("7");
        reveal_strlit("8");
        reveal_strlit("9");
    }
    let s: &'static str = if d == 0 {
        "0"
    } else if d == 1 {
        "1"
    } else if d == 2 {
        "2"
    } else if d == 3 {
        "3"
    } else if d == 4 {
        "4"
    } else if d == 5 {
        "5"
    } else if d == 6 {
        "6"
    } else if d == 7 {
        "7"
    } else if d == 8 {
        "8"
    } else {
        "9"
    };
    assert(s@ =~= seq![digit_char(d as int)]);
    s
}

/// Appends the decimal numeral of `n` to `out`.
pub fn append_decimal(out: &mut String, n: u32)
    ensures
        final(out)@ == old(out)@ + decimal(n as nat),
    decreases n,
{
    if n >= 10 {
        append_decimal(out, n / 10);
    }
    out.append(digit_text(n % 10));
    proof {
        if n >= 10 {
            assert(final(out)@ =~= old(out)@ + decimal(n as nat));
        }
    }
}

impl Command {
    /// A command for the aircraft `id` to take `heading`.
    pub fn new(id: &String, heading: i32) -> (c: Command)
        ensures
            c@ == (CommandView { aircraft_id: id@, heading: heading as int }),
    {
        Command { aircraft_id: id.clone(), heading }
    }

    /// The command as the server reads it: `HEAD`, the aircraft's
    /// identifier and the heading in decimal.
    pub fn encode(&self) -> (text: String)
        ensures
            text@ == command_text(self@),
    {
        proof {
            reveal_strlit("HEAD ");
            reveal_strlit(" ");
            reveal_strlit("-");
        }
        let mut text = String::from_str("HEAD ");
        text.append(self.aircraft_id.as_str());
        text.append(" ");
        if self.heading < 0 {
            text.append("-");
            let size: i64 = -(self.heading as i64);
            append_decimal(&mut text, size as u32);
        } else {
            append_decimal(&mut text, self.heading as u32);
        }
        assert(text@ =~= command_text(self@));
        text
    }
}

/// Encodes every command of a list, in order.
pub fn encode_commands(cmds: &Vec<Command>) -> (payload: Vec<String>)
    ensures
        texts(payload@) == command_texts(command_views(cmds@)),
{
    let mut payload: Vec<String> = Vec::new();
    let mut i: usize = 0;
    while i < cmds.len()
        invariant
            i <= cmds@.len(),
            payload@.len() == i,
            forall|k: int| 0 <= k < i ==> (#[trigger] payload@[k])@ == command_text(cmds@[k]@),
        decreases cmds@.len() - i,
    {
        let line = cmds[i].encode();
        payload.push(line);
        i += 1;
    }
    assert(texts(payload@) =~= command_texts(command_views(cmds@)));
    payload
}

} // verus!
