//! The text of the frames: reading the tag of an inbound message and
//! writing the outbound messages. JSON strings are read and written by
//! `serde_json`; the shape of the messages is this module's own.

use vstd::prelude::*;
use vstd::string::StringExecFns;
use crate::command::texts;
use crate::protocol::{classify_message, message_kind, MessageKind};

verus! {

/// What `serde_json::to_string` gives for a text: the JSON string literal,
/// which is the text between double quotes with escapes where JSON needs
/// them, or nothing where it reports an error.
pub uninterp spec fn json_string(text: Seq<char>) -> Option<Seq<char>>;

/// The tag that `serde_json::from_str` reads off a frame as the first of a
/// two-element array, where the frame is such an array and its first
/// element a string without escapes; else nothing.
pub uninterp spec fn frame_tag(frame: Seq<char>) -> Option<Seq<char>>;

/// Calls `serde_json::to_string` on a text. Not proved: that the outcome is
/// the one named for the text, the same text always giving the same
/// outcome. Nothing is claimed about which texts give a result.
#[verifier::external_body]
fn quote_json(text: &str) -> (quoted: Option<String>)
    ensures
        json_string(text@) == (match quoted {
            Some(q) => Some(q@),
            None => None,
        }),
{
    match serde_json::to_string(text) {
        Ok(quoted) => Some(quoted),
        Err(_) => None,
    }
}

/// Calls `serde_json::from_str` on a frame, asking for a pair of a borrowed
/// string and any JSON value, and keeps the string. Not proved: that the
/// result is the tag of the frame, and nothing where the frame has none.
#[verifier::external_body]
fn read_tag(frame: &str) -> (tag: Option<String>)
    ensures
        frame_tag(frame@) == (match tag {
            Some(t) => Some(t@),
            None => None,
        }),
{
    match serde_json::from_str::<(&str, serde_json::Value)>(frame) {
        Ok((tag, _)) => Some(tag.to_string()),
        Err(_) => None,
    }
}

/// The kind of a frame with this tag, if it has a tag.
pub open spec fn tagged_kind(tag: Option<Seq<char>>) -> Option<MessageKind> {
    match tag {
        Some(t) => Some(message_kind(t)),
        None => None,
    }
}

/// The items in order, with a comma between neighbours.
pub open spec fn comma_joined(items: Seq<Seq<char>>) -> Seq<char>
    decreases items.len(),
{
    if items.len() == 0 {
        Seq::empty()
    } else if items.len() == 1 {
        items[0]
    } else {
        comma_joined(items.drop_last()) + seq![','] + items.last()
    }
}

/// Whether every line can be written as a JSON string literal.
pub open spec fn all_writable(lines: Seq<Seq<char>>) -> bool {
    forall|i: int| 0 <= i < lines.len() ==> (#[trigger] json_string(lines[i])) is Some
}

/// The JSON string literal of each line, in order.
pub open spec fn json_strings(lines: Seq<Seq<char>>) -> Seq<Seq<char>>
    recommends
        all_writable(lines),
{
    Seq::new(lines.len(), |i: int| json_string(lines[i])->0)
}

/// The text of an optional string.
pub open spec fn text_of(s: Option<String>) -> Option<Seq<char>> {
    match s {
        Some(t) => Some(t@),
        None => None,
    }
}

/// The subscription message for a game: the frame around the identifier
/// written as JSON, and nothing where it cannot be written.
pub open spec fn subscribe_message(game_id: Seq<char>) -> Option<Seq<char>> {
    match json_string(game_id) {
        Some(quoted) => Some(subscribe_frame(quoted)),
        None => None,
    }
}

/// The message that carries a tick's commands for a game: the frame around
/// the identifier and the lines written as JSON, and nothing where the
/// identifier or one of the lines cannot be written.
pub open spec fn run_command_message(game_id: Seq<char>, lines: Seq<Seq<char>>) -> Option<
    Seq<char>,
> {
    if json_string(game_id) is Some && all_writable(lines) {
        Some(run_command_frame(json_string(game_id)->0, json_strings(lines)))
    } else {
        None
    }
}

/// The subscription message around an identifier that is already a JSON
/// string literal.
pub open spec fn subscribe_frame(quoted_id: Seq<char>) -> Seq<char> {
    "[\"sub-game\",{\"id\":"@ + quoted_id + "}]"@
}

/// The message that carries a tick's commands, around a game identifier and
/// lines that are already JSON string literals.
pub open spec fn run_command_frame(quoted_game_id: Seq<char>, quoted_lines: Seq<Seq<char>>) -> Seq<
    char,
> {
    "[\"run-command\",{\"game_id\":"@ + quoted_game_id + ",\"payload\":["@ + comma_joined(
        quoted_lines,
    ) + "]}]"@
}

/// Tells the kind of a text frame by the tag it carries; nothing where the
/// frame is not a tagged message.
pub fn classify_frame(frame: &str) -> (kind: Option<MessageKind>)
    ensures
        kind == tagged_kind(frame_tag(frame@)),
{
    match read_tag(frame) {
        Some(tag) => Some(classify_message(tag.as_str())),
        None => None,
    }
}

/// Writes the subscription message around a quoted identifier.
pub fn assemble_subscribe(quoted_id: &str) -> (frame: String)
    ensures
        frame@ == subscribe_frame(quoted_id@),
{
    let mut frame = String::from_str("[\"sub-game\",{\"id\":");
    frame.append(quoted_id);
    frame.append("}]");
    frame
}

/// Joins quoted lines with commas.
pub fn join_lines(quoted_lines: &Vec<String>) -> (joined: String)
    ensures
        joined@ == comma_joined(texts(quoted_lines@)),
{
    let ghost items = texts(quoted_lines@);
    let mut joined = String::new();
    let mut i: usize = 0;
    assert(items.take(0) =~= Seq::<Seq<char>>::empty());
    while i < quoted_lines.len()
        invariant
            i <= quoted_lines@.len(),
            items == texts(quoted_lines@),
            joined@ == comma_joined(items.take(i as int)),
        decreases quoted_lines@.len() - i,
    {
        proof {
            reveal_strlit(",");
            assert(items.take(i + 1).drop_last() =~= items.take(i as int));
            assert(items.take(i + 1).last() == quoted_lines@[i as int]@);
        }
        let ghost before = joined@;
        if i > 0 {
            joined.append(",");
        }
        joined.append(quoted_lines[i].as_str());
        assert(joined@ =~= comma_joined(items.take(i + 1))) by {
            if i > 0 {
                assert(joined@ =~= before + seq![','] + quoted_lines@[i as int]@);
            } else {
                assert(before =~= Seq::<char>::empty());
                assert(joined@ =~= quoted_lines@[i as int]@);
                assert(items.take(1)[0] == quoted_lines@[0]@);
            }
        }
        i += 1;
    }
    assert(items.take(i as int) =~= items);
    joined
}

/// Writes the message that carries a tick's commands around a quoted game
/// identifier and quoted lines.
pub fn assemble_run_command(quoted_game_id: &str, quoted_lines: &Vec<String>) -> (frame: String)
    ensures
        frame@ == run_command_frame(quoted_game_id@, texts(quoted_lines@)),
{
    let joined = join_lines(quoted_lines);
    let mut frame = String::from_str("[\"run-command\",{\"game_id\":");
    frame.append(quoted_game_id);
    frame.append(",\"payload\":[");
    frame.append(joined.as_str());
    frame.append("]}]");
    frame
}

/// The subscription message for a game; nothing exactly where the
/// identifier could not be written as JSON.
pub fn subscribe_text(game_id: &str) -> (frame: Option<String>)
    ensures
        text_of(frame) == subscribe_message(game_id@),
{
    match quote_json(game_id) {
        Some(quoted) => Some(assemble_subscribe(quoted.as_str())),
        None => None,
    }
}

/// The message that carries a tick's commands for a game; nothing exactly
/// where the identifier or one of the lines could not be written as JSON.
pub fn run_command_text(game_id: &str, payload: &Vec<String>) -> (frame: Option<String>)
    ensures
        text_of(frame) == run_command_message(game_id@, texts(payload@)),
{
    let quoted_id = match quote_json(game_id) {
        Some(quoted) => quoted,
        None => {
            return None;
        },
    };
    let mut quoted_lines: Vec<String> = Vec::new();
    let mut i: usize = 0;
    while i < payload.len()
        invariant
            i <= payload@.len(),
            quoted_lines@.len() == i,
            json_string(game_id@) == Some(quoted_id@),
            forall|k: int|
                0 <= k < i ==> json_string(payload@[k]@) == Some((#[trigger] quoted_lines@[k])@),
        decreases payload@.len() - i,
    {
        match quote_json(payload[i].as_str()) {
            Some(quoted) => {
                quoted_lines.push(quoted);
            },
            None => {
                assert(json_string(texts(payload@)[i as int]) is None);
                return None;
            },
        }
        i += 1;
    }
    assert forall|k: int| 0 <= k < texts(payload@).len() implies (#[trigger] json_string(
        texts(payload@)[k],
    )) is Some by {
        assert(json_string(payload@[k]@) == Some(quoted_lines@[k]@));
    }
    assert(texts(quoted_lines@) =~= json_strings(texts(payload@))) by {
        assert forall|k: int| 0 <= k < quoted_lines@.len() implies texts(quoted_lines@)[k]
            == json_strings(texts(payload@))[k] by {
            assert(json_string(payload@[k]@) == Some(quoted_lines@[k]@));
        }
    }
    Some(assemble_run_command(quoted_id.as_str(), &quoted_lines))
}

} // verus!
