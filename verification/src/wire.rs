//! The text form of a command.
//!
//! A command travels as one text frame that holds it as JSON. A command
//! without fields is its name as a string. A command with fields is an object
//! with one key, its name, whose value is an object of its fields by name:
//!
//! ```text
//! "CecStandby"
//! {"TrackpadMove":{"delta_x":-5,"delta_y":3}}
//! {"TrackpadClick":{"button":"Left"}}
//! {"CecActiveSource":{"physical_address":[1,2,3,4]}}
//! ```
//!
//! [`encode`] writes a command in the one way shown: without spaces and with
//! the fields in the order of their declaration. A frame may spell the same
//! JSON in other ways, with spaces, with its keys in another order or with
//! escapes in its strings. Reading such a frame is the work of a reader of
//! JSON, which the driver runs on every text frame; it hands the text and
//! what the reader made of it to [`decode`]. A text that `encode` wrote is
//! read as the command it was written for, whatever the reader says. Of any
//! other text the reader's word holds: its command is the frame's command,
//! its refusal the frame's error.
//!
//! Numbers are held to the range of their field and not beyond that: what a
//! digit of a physical address above 15 means is left to the encoder of CEC
//! frames.

use vstd::prelude::*;
use vstd::string::StrSliceExecFns;
use vstd::string::StringExecFns;
use crate::config::{RemoteCommand, TrackpadButton};
use crate::decimal::{
    append_int, append_nat, int_at, int_text, lemma_int_at_text, lemma_nat_at_text, nat_at,
    nat_text, read_int, read_nat,
};

verus! {

/// What stands before the first number of a motion.
pub const MOVE_HEAD: &'static str = "{\"TrackpadMove\":{\"delta_x\":";

/// What stands before the first number of a scroll.
pub const SCROLL_HEAD: &'static str = "{\"TrackpadScroll\":{\"delta_x\":";

/// What stands between the two numbers of a motion or a scroll.
pub const DELTA_Y: &'static str = ",\"delta_y\":";

/// What closes a command with fields.
pub const BRACES: &'static str = "}}";

/// What stands before the name of the button of a click.
pub const CLICK_HEAD: &'static str = "{\"TrackpadClick\":{\"button\":\"";

/// What stands after the name of the button of a click.
pub const CLICK_TAIL: &'static str = "\"}}";

/// What stands before the first digit of a physical address.
pub const SOURCE_HEAD: &'static str = "{\"CecActiveSource\":{\"physical_address\":[";

/// What stands between two digits of a physical address.
pub const COMMA: &'static str = ",";

/// What stands after the last digit of a physical address.
pub const SOURCE_TAIL: &'static str = "]}}";

pub const IMAGE_VIEW_ON: &'static str = "\"CecImageViewOn\"";

pub const ACTIVE_SOURCE_SELF: &'static str = "\"CecActiveSourceSelf\"";

pub const STANDBY: &'static str = "\"CecStandby\"";

pub const PLAY_PAUSE: &'static str = "\"MpdPlayPause\"";

pub const NEXT: &'static str = "\"MpdNext\"";

pub const PREVIOUS: &'static str = "\"MpdPrevious\"";

pub const LEFT: &'static str = "Left";

pub const RIGHT: &'static str = "Right";

pub const MIDDLE: &'static str = "Middle";

/// A text frame that holds no command.
#[derive(Clone, Debug, PartialEq, Eq)]
pub struct DecodeError {
    /// What the reader said of the frame.
    pub reason: String,
}

/// The name of a button.
pub open spec fn button_name(button: TrackpadButton) -> Seq<char> {
    match button {
        TrackpadButton::Left => LEFT@,
        TrackpadButton::Right => RIGHT@,
        TrackpadButton::Middle => MIDDLE@,
    }
}

/// The text of a command.
pub open spec fn wire_text(command: RemoteCommand) -> Seq<char> {
    match command {
        RemoteCommand::TrackpadMove { delta_x, delta_y } => MOVE_HEAD@ + int_text(delta_x as int)
            + DELTA_Y@ + int_text(delta_y as int) + BRACES@,
        RemoteCommand::TrackpadClick { button } => CLICK_HEAD@ + button_name(button) + CLICK_TAIL@,
        RemoteCommand::TrackpadScroll { delta_x, delta_y } => SCROLL_HEAD@ + int_text(
            delta_x as int,
        ) + DELTA_Y@ + int_text(delta_y as int) + BRACES@,
        RemoteCommand::CecImageViewOn => IMAGE_VIEW_ON@,
        RemoteCommand::CecActiveSourceSelf => ACTIVE_SOURCE_SELF@,
        RemoteCommand::CecActiveSource { physical_address } => SOURCE_HEAD@ + nat_text(
            physical_address[0] as nat,
        ) + COMMA@ + nat_text(physical_address[1] as nat) + COMMA@ + nat_text(
            physical_address[2] as nat,
        ) + COMMA@ + nat_text(physical_address[3] as nat) + SOURCE_TAIL@,
        RemoteCommand::CecStandby => STANDBY@,
        RemoteCommand::MpdPlayPause => PLAY_PAUSE@,
        RemoteCommand::MpdNext => NEXT@,
        RemoteCommand::MpdPrevious => PREVIOUS@,
    }
}

/// The command that was written as `text`, if one was.
pub open spec fn written_command(text: Seq<char>) -> Option<RemoteCommand> {
    if exists|command: RemoteCommand| wire_text(command) == text {
        Some(choose|command: RemoteCommand| wire_text(command) == text)
    } else {
        None
    }
}

/// What a text frame is read as, given what the reader of JSON made of it:
/// the command that was written as `text` if there is one, else what the
/// reader found, a command or the reason why it found none.
pub open spec fn reading(text: Seq<char>, read: Result<RemoteCommand, String>) -> Result<
    RemoteCommand,
    DecodeError,
> {
    match written_command(text) {
        Some(command) => Ok(command),
        None => match read {
            Ok(command) => Ok(command),
            Err(reason) => Err(DecodeError { reason }),
        },
    }
}

/// Writes a command as text.
pub fn encode(command: RemoteCommand) -> (text: String)
    ensures
        text@ == wire_text(command),
{
    match command {
        RemoteCommand::TrackpadMove { delta_x, delta_y } => {
            let mut text: String = String::from_str(MOVE_HEAD);
            append_int(&mut text, delta_x);
            text.append(DELTA_Y);
            append_int(&mut text, delta_y);
            text.append(BRACES);
            text
        },
        RemoteCommand::TrackpadClick { button } => {
            let mut text: String = String::from_str(CLICK_HEAD);
            match button {
                TrackpadButton::Left => text.append(LEFT),
                TrackpadButton::Right => text.append(RIGHT),
                TrackpadButton::Middle => text.append(MIDDLE),
            }
            text.append(CLICK_TAIL);
            text
        },
        RemoteCommand::TrackpadScroll { delta_x, delta_y } => {
            let mut text: String = String::from_str(SCROLL_HEAD);
            append_int(&mut text, delta_x);
            text.append(DELTA_Y);
            append_int(&mut text, delta_y);
            text.append(BRACES);
            text
        },
        RemoteCommand::CecImageViewOn => String::from_str(IMAGE_VIEW_ON),
        RemoteCommand::CecActiveSourceSelf => String::from_str(ACTIVE_SOURCE_SELF),
        RemoteCommand::CecActiveSource { physical_address } => {
            let mut text: String = String::from_str(SOURCE_HEAD);
            append_nat(&mut text, physical_address[0] as u64);
            text.append(COMMA);
            append_nat(&mut text, physical_address[1] as u64);
            text.append(COMMA);
            append_nat(&mut text, physical_address[2] as u64);
            text.append(COMMA);
            append_nat(&mut text, physical_address[3] as u64);
            text.append(SOURCE_TAIL);
            text
        },
        RemoteCommand::CecStandby => String::from_str(STANDBY),
        RemoteCommand::MpdPlayPause => String::from_str(PLAY_PAUSE),
        RemoteCommand::MpdNext => String::from_str(NEXT),
        RemoteCommand::MpdPrevious => String::from_str(PREVIOUS),
    }
}

/// The two numbers of a motion or a scroll, the first of which stands at
/// `from`: what stands between them is passed over unread.
spec fn deltas_at(s: Seq<char>, from: int) -> Option<(i32, i32)> {
    match int_at(s, from) {
        Some((x, end)) => match int_at(s, end + DELTA_Y@.len()) {
            Some((y, _)) => Some((x as i32, y as i32)),
            None => None,
        },
        None => None,
    }
}

/// The button whose name begins with the letter at `from`.
spec fn button_at(s: Seq<char>, from: int) -> Option<TrackpadButton> {
    if 0 <= from < s.len() {
        if s[from] == 'L' {
            Some(TrackpadButton::Left)
        } else if s[from] == 'R' {
            Some(TrackpadButton::Right)
        } else if s[from] == 'M' {
            Some(TrackpadButton::Middle)
        } else {
            None
        }
    } else {
        None
    }
}

/// One digit of a physical address that stands at `from` before another
/// character, and the place after that character, which is passed over
/// unread.
spec fn digit_at(s: Seq<char>, from: int) -> Option<(u8, int)> {
    match nat_at(s, from, 255) {
        Some((digit, end)) => if end < s.len() {
            Some((digit as u8, end + 1))
        } else {
            None
        },
        None => None,
    }
}

/// The four digits of a physical address, the first of which stands at
/// `from`.
spec fn address_at(s: Seq<char>, from: int) -> Option<[u8; 4]> {
    match digit_at(s, from) {
        Some((a, second)) => match digit_at(s, second) {
            Some((b, third)) => match digit_at(s, third) {
                Some((c, fourth)) => match nat_at(s, fourth, 255) {
                    Some((d, _)) => Some([a, b, c, d as u8]),
                    None => None,
                },
                None => None,
            },
            None => None,
        },
        None => None,
    }
}

/// The only command that `s` can be the text of, found by the name at its
/// start and the numbers at their places. What stands between and after them
/// is not read, so `s` need not be the text of that command.
spec fn candidate_of(s: Seq<char>) -> Option<RemoteCommand> {
    if s == IMAGE_VIEW_ON@ {
        Some(RemoteCommand::CecImageViewOn)
    } else if s == ACTIVE_SOURCE_SELF@ {
        Some(RemoteCommand::CecActiveSourceSelf)
    } else if s == STANDBY@ {
        Some(RemoteCommand::CecStandby)
    } else if s == PLAY_PAUSE@ {
        Some(RemoteCommand::MpdPlayPause)
    } else if s == NEXT@ {
        Some(RemoteCommand::MpdNext)
    } else if s == PREVIOUS@ {
        Some(RemoteCommand::MpdPrevious)
    } else if MOVE_HEAD@.is_prefix_of(s) {
        match deltas_at(s, MOVE_HEAD@.len() as int) {
            Some((delta_x, delta_y)) => Some(RemoteCommand::TrackpadMove { delta_x, delta_y }),
            None => None,
        }
    } else if SCROLL_HEAD@.is_prefix_of(s) {
        match deltas_at(s, SCROLL_HEAD@.len() as int) {
            Some((delta_x, delta_y)) => Some(RemoteCommand::TrackpadScroll { delta_x, delta_y }),
            None => None,
        }
    } else if CLICK_HEAD@.is_prefix_of(s) {
        match button_at(s, CLICK_HEAD@.len() as int) {
            Some(button) => Some(RemoteCommand::TrackpadClick { button }),
            None => None,
        }
    } else if SOURCE_HEAD@.is_prefix_of(s) {
        match address_at(s, SOURCE_HEAD@.len() as int) {
            Some(physical_address) => Some(RemoteCommand::CecActiveSource { physical_address }),
            None => None,
        }
    } else {
        None
    }
}

/// The characters of a text.
fn characters(text: &str) -> (chars: Vec<char>)
    ensures
        chars@ == text@,
{
    let mut chars: Vec<char> = Vec::new();
    for c in it: text.chars()
        invariant
            chars@ == it.seq().take(it.index() as int),
    {
        chars.push(c);
    }
    chars
}

/// Whether `prefix` stands at the start of `chars`.
fn starts_with(chars: &Vec<char>, prefix: &str) -> (found: bool)
    ensures
        found == prefix@.is_prefix_of(chars@),
{
    let n: usize = prefix.unicode_len();
    if n > chars.len() {
        return false;
    }
    let mut i: usize = 0;
    while i < n
        invariant
            i <= n,
            n == prefix@.len(),
            n <= chars.len(),
            forall|j: int| 0 <= j < i ==> chars@[j] == prefix@[j],
        decreases n - i,
    {
        if chars[i] != prefix.get_char(i) {
            assert(chars@.subrange(0, n as int)[i as int] != prefix@[i as int]);
            return false;
        }
        i = i + 1;
    }
    assert(prefix@ =~= chars@.subrange(0, n as int));
    true
}

/// Whether `chars` is `text`, letter for letter.
fn is_text(chars: &Vec<char>, text: &str) -> (same: bool)
    ensures
        same == (chars@ == text@),
{
    if chars.len() != text.unicode_len() {
        return false;
    }
    let same: bool = starts_with(chars, text);
    assert(chars@.subrange(0, chars@.len() as int) =~= chars@);
    same
}

/// Reads the two numbers of a motion or a scroll.
fn deltas(chars: &Vec<char>, from: usize) -> (found: Option<(i32, i32)>)
    ensures
        found == deltas_at(chars@, from as int),
{
    let gap: usize = DELTA_Y.unicode_len();
    match read_int(chars, from) {
        Some((x, end)) => {
            if end > chars.len() || chars.len() - end <= gap {
                return None;
            }
            match read_int(chars, end + gap) {
                Some((y, _)) => Some((x, y)),
                None => None,
            }
        },
        None => None,
    }
}

/// Reads the first letter of the name of a button.
fn button(chars: &Vec<char>, from: usize) -> (found: Option<TrackpadButton>)
    ensures
        found == button_at(chars@, from as int),
{
    if from >= chars.len() {
        return None;
    }
    let letter: char = chars[from];
    if letter == 'L' {
        Some(TrackpadButton::Left)
    } else if letter == 'R' {
        Some(TrackpadButton::Right)
    } else if letter == 'M' {
        Some(TrackpadButton::Middle)
    } else {
        None
    }
}

/// Reads one digit of a physical address and gives the place of the next.
fn address_digit(chars: &Vec<char>, from: usize) -> (found: Option<(u8, usize)>)
    ensures
        match found {
            Some((digit, next)) => digit_at(chars@, from as int) == Some((digit, next as int)),
            None => digit_at(chars@, from as int) is None,
        },
{
    match read_nat(chars, from, 255) {
        Some((digit, end)) => {
            if end < chars.len() {
                Some((digit as u8, end + 1))
            } else {
                None
            }
        },
        None => None,
    }
}

/// Reads the four digits of a physical address.
fn address(chars: &Vec<char>, from: usize) -> (found: Option<[u8; 4]>)
    ensures
        found == address_at(chars@, from as int),
{
    let (a, after_a) = match address_digit(chars, from) {
        Some(read) => read,
        None => { return None; },
    };
    let (b, after_b) = match address_digit(chars, after_a) {
        Some(read) => read,
        None => { return None; },
    };
    let (c, after_c) = match address_digit(chars, after_b) {
        Some(read) => read,
        None => { return None; },
    };
    match read_nat(chars, after_c, 255) {
        Some((d, _)) => {
            let digits: [u8; 4] = [a, b, c, d as u8];
            assert(digits =~= address_at(chars@, from as int)->0);
            Some(digits)
        },
        None => None,
    }
}

/// Finds the only command that `chars` can be the text of.
fn candidate(chars: &Vec<char>) -> (found: Option<RemoteCommand>)
    ensures
        found == candidate_of(chars@),
{
    if is_text(chars, IMAGE_VIEW_ON) {
        Some(RemoteCommand::CecImageViewOn)
    } else if is_text(chars, ACTIVE_SOURCE_SELF) {
        Some(RemoteCommand::CecActiveSourceSelf)
    } else if is_text(chars, STANDBY) {
        Some(RemoteCommand::CecStandby)
    } else if is_text(chars, PLAY_PAUSE) {
        Some(RemoteCommand::MpdPlayPause)
    } else if is_text(chars, NEXT) {
        Some(RemoteCommand::MpdNext)
    } else if is_text(chars, PREVIOUS) {
        Some(RemoteCommand::MpdPrevious)
    } else if starts_with(chars, MOVE_HEAD) {
        match deltas(chars, MOVE_HEAD.unicode_len()) {
            Some((delta_x, delta_y)) => Some(RemoteCommand::TrackpadMove { delta_x, delta_y }),
            None => None,
        }
    } else if starts_with(chars, SCROLL_HEAD) {
        match deltas(chars, SCROLL_HEAD.unicode_len()) {
            Some((delta_x, delta_y)) => Some(RemoteCommand::TrackpadScroll { delta_x, delta_y }),
            None => None,
        }
    } else if starts_with(chars, CLICK_HEAD) {
        match button(chars, CLICK_HEAD.unicode_len()) {
            Some(button) => Some(RemoteCommand::TrackpadClick { button }),
            None => None,
        }
    } else if starts_with(chars, SOURCE_HEAD) {
        match address(chars, SOURCE_HEAD.unicode_len()) {
            Some(physical_address) => Some(RemoteCommand::CecActiveSource { physical_address }),
            None => None,
        }
    } else {
        None
    }
}

/// What the fixed parts of a text hold, as far as reading relies on it.
proof fn lemma_fixed_parts()
    ensures
        IMAGE_VIEW_ON@.len() == 16 && IMAGE_VIEW_ON@[0] == '"',
        ACTIVE_SOURCE_SELF@.len() == 21 && ACTIVE_SOURCE_SELF@[0] == '"',
        STANDBY@.len() == 12 && STANDBY@[0] == '"',
        PLAY_PAUSE@.len() == 14 && PLAY_PAUSE@[0] == '"',
        NEXT@.len() == 9 && NEXT@[0] == '"',
        PREVIOUS@.len() == 13 && PREVIOUS@[0] == '"',
        MOVE_HEAD@.len() == 27 && MOVE_HEAD@[0] == '{' && MOVE_HEAD@[2] == 'T' && MOVE_HEAD@[10]
            == 'M',
        SCROLL_HEAD@.len() == 29 && SCROLL_HEAD@[0] == '{' && SCROLL_HEAD@[2] == 'T'
            && SCROLL_HEAD@[10] == 'S',
        CLICK_HEAD@.len() == 28 && CLICK_HEAD@[0] == '{' && CLICK_HEAD@[2] == 'T' && CLICK_HEAD@[10]
            == 'C',
        SOURCE_HEAD@.len() == 40 && SOURCE_HEAD@[0] == '{' && SOURCE_HEAD@[2] == 'C',
        DELTA_Y@.len() == 11 && DELTA_Y@[0] == ',',
        BRACES@.len() == 2 && BRACES@[0] == '}',
        CLICK_TAIL@.len() == 3,
        COMMA@.len() == 1 && COMMA@[0] == ',',
        SOURCE_TAIL@.len() == 3 && SOURCE_TAIL@[0] == ']',
        LEFT@.len() == 4 && LEFT@[0] == 'L',
        RIGHT@.len() == 5 && RIGHT@[0] == 'R',
        MIDDLE@.len() == 6 && MIDDLE@[0] == 'M',
{
    reveal_strlit("\"CecImageViewOn\"");
    reveal_strlit("\"CecActiveSourceSelf\"");
    reveal_strlit("\"CecStandby\"");
    reveal_strlit("\"MpdPlayPause\"");
    reveal_strlit("\"MpdNext\"");
    reveal_strlit("\"MpdPrevious\"");
    reveal_strlit("{\"TrackpadMove\":{\"delta_x\":");
    reveal_strlit("{\"TrackpadScroll\":{\"delta_x\":");
    reveal_strlit("{\"TrackpadClick\":{\"button\":\"");
    reveal_strlit("{\"CecActiveSource\":{\"physical_address\":[");
    reveal_strlit(",\"delta_y\":");
    reveal_strlit("}}");
    reveal_strlit("\"}}");
    reveal_strlit(",");
    reveal_strlit("]}}");
    reveal_strlit("Left");
    reveal_strlit("Right");
    reveal_strlit("Middle");
}

/// A text stands at the start of itself.
proof fn lemma_prefix_self(text: Seq<char>)
    ensures
        text.is_prefix_of(text),
{
    assert(text.subrange(0, text.len() as int) =~= text);
}

/// What stands at the start of a text stands at the start of every text that
/// goes on from it.
proof fn lemma_prefix_grows(prefix: Seq<char>, text: Seq<char>, more: Seq<char>)
    requires
        prefix.is_prefix_of(text),
    ensures
        prefix.is_prefix_of(text + more),
{
    assert((text + more).subrange(0, prefix.len() as int) =~= text.subrange(
        0,
        prefix.len() as int,
    ));
}

/// Where a piece stands in a text that begins with `head`, the piece and
/// `next`.
proof fn lemma_piece(whole: Seq<char>, head: Seq<char>, piece: Seq<char>, next: Seq<char>)
    requires
        (head + piece + next).is_prefix_of(whole),
    ensures
        whole.len() >= head.len() + piece.len() + next.len(),
        whole.subrange(head.len() as int, (head.len() + piece.len()) as int) == piece,
        head.is_prefix_of(whole),
        forall|i: int| 0 <= i < head.len() ==> whole[i] == head[i],
        next.len() > 0 ==> whole[(head.len() + piece.len()) as int] == next[0],
{
    let start = head + piece + next;
    assert(forall|i: int| 0 <= i < start.len() ==> whole[i] == whole.subrange(
        0,
        start.len() as int,
    )[i]);
    assert(whole.subrange(head.len() as int, (head.len() + piece.len()) as int) =~= piece);
    assert(whole.subrange(0, head.len() as int) =~= head);
    if next.len() > 0 {
        assert(whole[(head.len() + piece.len()) as int] == start[(head.len() + piece.len()) as int]);
    }
}

/// In a text that begins with `head`, a number and what stands between two
/// numbers, the number is read back.
proof fn lemma_first_delta_at(whole: Seq<char>, head: Seq<char>, delta: i32)
    requires
        (head + int_text(delta as int) + DELTA_Y@).is_prefix_of(whole),
    ensures
        int_at(whole, head.len() as int) == Some(
            (delta as int, (head.len() + int_text(delta as int).len()) as int),
        ),
        whole.len() >= head.len() + int_text(delta as int).len() + DELTA_Y@.len(),
        head.is_prefix_of(whole),
        forall|i: int| 0 <= i < head.len() ==> whole[i] == head[i],
{
    lemma_fixed_parts();
    lemma_piece(whole, head, int_text(delta as int), DELTA_Y@);
    lemma_int_at_text(whole, head.len() as int, delta as int);
}

/// In a text that ends with a number and the closing braces behind `head`,
/// the number is read back.
proof fn lemma_second_delta_at(whole: Seq<char>, head: Seq<char>, delta: i32)
    requires
        whole == head + int_text(delta as int) + BRACES@,
    ensures
        int_at(whole, head.len() as int) matches Some((value, _)) && value == delta,
{
    lemma_fixed_parts();
    lemma_prefix_self(whole);
    lemma_piece(whole, head, int_text(delta as int), BRACES@);
    lemma_int_at_text(whole, head.len() as int, delta as int);
}

/// In the text of a motion or a scroll behind `head`, both numbers are read
/// back.
proof fn lemma_deltas_at(head: Seq<char>, delta_x: i32, delta_y: i32)
    ensures
        deltas_at(
            head + int_text(delta_x as int) + DELTA_Y@ + int_text(delta_y as int) + BRACES@,
            head.len() as int,
        ) == Some((delta_x, delta_y)),
        head.is_prefix_of(
            head + int_text(delta_x as int) + DELTA_Y@ + int_text(delta_y as int) + BRACES@,
        ),
        forall|i: int|
            0 <= i < head.len() ==> (head + int_text(delta_x as int) + DELTA_Y@ + int_text(
                delta_y as int,
            ) + BRACES@)[i] == head[i],
{
    let x = int_text(delta_x as int);
    let y = int_text(delta_y as int);
    let first = head + x + DELTA_Y@;
    let s = first + y + BRACES@;
    lemma_prefix_self(first);
    lemma_prefix_grows(first, first, y);
    lemma_prefix_grows(first, first + y, BRACES@);
    lemma_first_delta_at(s, head, delta_x);
    lemma_second_delta_at(s, first, delta_y);
}

/// In a text that begins with `head`, a digit of a physical address and a
/// comma, the digit is read back.
proof fn lemma_digit_at(whole: Seq<char>, head: Seq<char>, digit: u8)
    requires
        (head + nat_text(digit as nat) + COMMA@).is_prefix_of(whole),
    ensures
        digit_at(whole, head.len() as int) == Some(
            (digit, (head + nat_text(digit as nat) + COMMA@).len() as int),
        ),
        head.is_prefix_of(whole),
        forall|i: int| 0 <= i < head.len() ==> whole[i] == head[i],
{
    lemma_fixed_parts();
    lemma_piece(whole, head, nat_text(digit as nat), COMMA@);
    lemma_nat_at_text(whole, head.len() as int, digit as nat, 255);
}

/// In a text that ends with a digit of a physical address and the closing
/// brackets behind `head`, the digit is read back.
proof fn lemma_last_digit_at(whole: Seq<char>, head: Seq<char>, digit: u8)
    requires
        whole == head + nat_text(digit as nat) + SOURCE_TAIL@,
    ensures
        nat_at(whole, head.len() as int, 255) matches Some((value, _)) && value == digit,
{
    lemma_fixed_parts();
    lemma_prefix_self(whole);
    lemma_piece(whole, head, nat_text(digit as nat), SOURCE_TAIL@);
    lemma_nat_at_text(whole, head.len() as int, digit as nat, 255);
}

/// In the text of a physical address, all four digits are read back.
proof fn lemma_address_at(physical_address: [u8; 4])
    ensures
        address_at(
            wire_text(RemoteCommand::CecActiveSource { physical_address }),
            SOURCE_HEAD@.len() as int,
        ) == Some(physical_address),
        SOURCE_HEAD@.is_prefix_of(wire_text(RemoteCommand::CecActiveSource { physical_address })),
        forall|i: int|
            0 <= i < SOURCE_HEAD@.len() ==> wire_text(
                RemoteCommand::CecActiveSource { physical_address },
            )[i] == SOURCE_HEAD@[i],
{
    let b = nat_text(physical_address[1] as nat);
    let c = nat_text(physical_address[2] as nat);
    let d = nat_text(physical_address[3] as nat);
    let first = SOURCE_HEAD@ + nat_text(physical_address[0] as nat) + COMMA@;
    let second = first + b + COMMA@;
    let third = second + c + COMMA@;
    let s = third + d + SOURCE_TAIL@;
    assert(s == wire_text(RemoteCommand::CecActiveSource { physical_address }));
    lemma_prefix_self(third);
    lemma_prefix_grows(third, third, d);
    lemma_prefix_grows(third, third + d, SOURCE_TAIL@);
    lemma_prefix_self(second);
    lemma_prefix_grows(second, second, c);
    lemma_prefix_grows(second, second + c, COMMA@);
    lemma_prefix_grows(second, third, d);
    lemma_prefix_grows(second, third + d, SOURCE_TAIL@);
    lemma_prefix_self(first);
    lemma_prefix_grows(first, first, b);
    lemma_prefix_grows(first, first + b, COMMA@);
    lemma_prefix_grows(first, second, c);
    lemma_prefix_grows(first, second + c, COMMA@);
    lemma_prefix_grows(first, third, d);
    lemma_prefix_grows(first, third + d, SOURCE_TAIL@);
    lemma_digit_at(s, SOURCE_HEAD@, physical_address[0]);
    lemma_digit_at(s, first, physical_address[1]);
    lemma_digit_at(s, second, physical_address[2]);
    lemma_last_digit_at(s, third, physical_address[3]);
    assert(address_at(s, SOURCE_HEAD@.len() as int) is Some);
    assert(address_at(s, SOURCE_HEAD@.len() as int)->0 =~= physical_address);
}

/// A text that differs from a head at one place does not begin with it.
proof fn lemma_other_head(head: Seq<char>, text: Seq<char>, place: int)
    requires
        0 <= place < head.len(),
        place < text.len(),
        head[place] != text[place],
    ensures
        !head.is_prefix_of(text),
{
    if head.is_prefix_of(text) {
        assert(text.subrange(0, head.len() as int)[place] == head[place]);
    }
}

/// Reading finds every command in its own text.
proof fn lemma_candidate(command: RemoteCommand)
    ensures
        candidate_of(wire_text(command)) == Some(command),
{
    let s = wire_text(command);
    lemma_fixed_parts();
    match command {
        RemoteCommand::TrackpadMove { delta_x, delta_y } => {
            lemma_deltas_at(MOVE_HEAD@, delta_x, delta_y);
            assert(s[0] == '{');
        },
        RemoteCommand::TrackpadScroll { delta_x, delta_y } => {
            lemma_deltas_at(SCROLL_HEAD@, delta_x, delta_y);
            assert(s[0] == '{');
            assert(s[10] == 'S');
            lemma_other_head(MOVE_HEAD@, s, 10);
        },
        RemoteCommand::TrackpadClick { button } => {
            lemma_prefix_self(s);
            lemma_piece(s, CLICK_HEAD@, button_name(button), CLICK_TAIL@);
            assert(s[0] == '{');
            assert(s[10] == 'C');
            lemma_other_head(MOVE_HEAD@, s, 10);
            lemma_other_head(SCROLL_HEAD@, s, 10);
            assert(s[28] == s.subrange(28, 28 + button_name(button).len() as int)[0]);
        },
        RemoteCommand::CecActiveSource { physical_address } => {
            lemma_address_at(physical_address);
            assert(s[0] == '{');
            assert(s[2] == 'C');
            lemma_other_head(MOVE_HEAD@, s, 2);
            lemma_other_head(SCROLL_HEAD@, s, 2);
            lemma_other_head(CLICK_HEAD@, s, 2);
        },
        RemoteCommand::CecImageViewOn => {},
        RemoteCommand::CecActiveSourceSelf => {},
        RemoteCommand::CecStandby => {},
        RemoteCommand::MpdPlayPause => {},
        RemoteCommand::MpdNext => {},
        RemoteCommand::MpdPrevious => {},
    }
}

/// No two commands share a text.
pub proof fn lemma_wire_text_injective(first: RemoteCommand, second: RemoteCommand)
    requires
        wire_text(first) == wire_text(second),
    ensures
        first == second,
{
    lemma_candidate(first);
    lemma_candidate(second);
}

/// What was written for a command is read as that command, whatever the
/// reader of JSON makes of the text: nothing is lost on the way.
pub proof fn lemma_round_trip(command: RemoteCommand)
    ensures
        written_command(wire_text(command)) == Some(command),
        forall|read: Result<RemoteCommand, String>|
            #[trigger] reading(wire_text(command), read) == Ok::<RemoteCommand, DecodeError>(
                command,
            ),
{
    let found = choose|other: RemoteCommand| wire_text(other) == wire_text(command);
    lemma_wire_text_injective(found, command);
}

/// What `encode` writes begins with a double quote or an opening brace and
/// ends with a double quote or a closing brace.
pub proof fn lemma_written_text_ends(command: RemoteCommand)
    ensures
        wire_text(command).len() >= 2,
        wire_text(command)[0] == '"' || wire_text(command)[0] == '{',
        wire_text(command).last() == '"' || wire_text(command).last() == '}',
{
    reveal_strlit("\"CecImageViewOn\"");
    reveal_strlit("\"CecActiveSourceSelf\"");
    reveal_strlit("\"CecStandby\"");
    reveal_strlit("\"MpdPlayPause\"");
    reveal_strlit("\"MpdNext\"");
    reveal_strlit("\"MpdPrevious\"");
    reveal_strlit("{\"TrackpadMove\":{\"delta_x\":");
    reveal_strlit("{\"TrackpadScroll\":{\"delta_x\":");
    reveal_strlit("{\"TrackpadClick\":{\"button\":\"");
    reveal_strlit("{\"CecActiveSource\":{\"physical_address\":[");
    reveal_strlit("}}");
    reveal_strlit("\"}}");
    reveal_strlit("]}}");
    let s = wire_text(command);
    match command {
        RemoteCommand::TrackpadMove { .. } => {
            assert(s[0] == MOVE_HEAD@[0]);
            assert(s.last() == BRACES@[1]);
        },
        RemoteCommand::TrackpadScroll { .. } => {
            assert(s[0] == SCROLL_HEAD@[0]);
            assert(s.last() == BRACES@[1]);
        },
        RemoteCommand::TrackpadClick { .. } => {
            assert(s[0] == CLICK_HEAD@[0]);
            assert(s.last() == CLICK_TAIL@[2]);
        },
        RemoteCommand::CecActiveSource { .. } => {
            assert(s[0] == SOURCE_HEAD@[0]);
            assert(s.last() == SOURCE_TAIL@[2]);
        },
        RemoteCommand::CecImageViewOn => {
            assert(s.last() == IMAGE_VIEW_ON@[15]);
        },
        RemoteCommand::CecActiveSourceSelf => {
            assert(s.last() == ACTIVE_SOURCE_SELF@[20]);
        },
        RemoteCommand::CecStandby => {
            assert(s.last() == STANDBY@[11]);
        },
        RemoteCommand::MpdPlayPause => {
            assert(s.last() == PLAY_PAUSE@[13]);
        },
        RemoteCommand::MpdNext => {
            assert(s.last() == NEXT@[8]);
        },
        RemoteCommand::MpdPrevious => {
            assert(s.last() == PREVIOUS@[12]);
        },
    }
}

/// Of a text that does not begin and end as `encode` writes, such as JSON
/// with a space before or after it, the reader's word holds.
pub proof fn lemma_reader_is_followed(text: Seq<char>, read: Result<RemoteCommand, String>)
    requires
        text.len() == 0 || (text[0] != '"' && text[0] != '{') || (text.last() != '"'
            && text.last() != '}'),
    ensures
        written_command(text) is None,
        reading(text, read) == (match read {
            Ok(command) => Ok::<RemoteCommand, DecodeError>(command),
            Err(reason) => Err::<RemoteCommand, DecodeError>(DecodeError { reason }),
        }),
{
    assert forall|command: RemoteCommand| wire_text(command) != text by {
        lemma_written_text_ends(command);
    }
}

/// Finds the command that was written as `text`.
fn written(text: &str) -> (found: Option<RemoteCommand>)
    ensures
        found == written_command(text@),
{
    let chars: Vec<char> = characters(text);
    let found: Option<RemoteCommand> = match candidate(&chars) {
        Some(command) => {
            let written: String = encode(command);
            let given: String = String::from_str(text);
            if written == given {
                Some(command)
            } else {
                None
            }
        },
        None => None,
    };
    proof {
        match found {
            Some(command) => {
                lemma_round_trip(command);
            },
            None => {
                assert forall|other: RemoteCommand| wire_text(other) != text@ by {
                    if wire_text(other) == text@ {
                        lemma_candidate(other);
                    }
                }
            },
        }
    }
    found
}

/// Reads a text frame, given what the reader of JSON made of its text: the
/// command it found, or the reason why it found none.
///
/// A text that [`encode`] wrote is read as its command, whatever the reader
/// says. Of any other text the reader's word holds.
pub fn decode(text: &str, read: Result<RemoteCommand, String>) -> (decoded: Result<
    RemoteCommand,
    DecodeError,
>)
    ensures
        decoded == reading(text@, read),
{
    match written(text) {
        Some(command) => Ok(command),
        None => match read {
            Ok(command) => Ok(command),
            Err(reason) => Err(DecodeError { reason }),
        },
    }
}

} // verus!
