//! The action language: one `tag:value` line becomes an [`ActionCommand`],
//! and a command becomes the pointer and keyboard operations that carry it
//! out.

use crate::pattern::{regex_captures, search_captures};
use crate::text::{
    chars_of, find, find_first, i32_value, lower_ascii, lowered, parse_i32, same_text, slice_of,
    string_of, trim, trimmed,
};
use vstd::prelude::*;

verus! {

/// Why a line of the action language was not turned into operations.
#[derive(Clone, Copy, Debug, PartialEq, Eq, Structural)]
pub enum ActionError {
    /// The line has no `:` between tag and value.
    MissingSeparator,
    /// The tag is none of the ten known ones.
    UnknownTag,
    /// The coordinate pattern itself was rejected by the matcher.
    PatternRejected,
    /// The value holds no `(x,y)` pair.
    InvalidCoordinate,
    /// A coordinate is not a decimal number that fits in 32 bits.
    InvalidNumber,
    /// The key is not written between single quotes.
    InvalidKeyFormat,
    /// The quoted token is longer than one character and names no key.
    UnknownKey,
    /// `tap_down` or `tap_up` was asked for a literal character.
    LiteralKeyHeld,
    /// The scroll distance is not a signed 32-bit integer.
    InvalidScroll,
    /// The text to type is not written between single quotes.
    InvalidText,
}

impl ActionError {
    /// What the error says to the operator.
    pub open spec fn message_text(self) -> Seq<char> {
        match self {
            ActionError::MissingSeparator => "Invalid action format: no ':' between tag and value"@,
            ActionError::UnknownTag => "Unknown action type"@,
            ActionError::PatternRejected => "The coordinate pattern was rejected"@,
            ActionError::InvalidCoordinate => "Invalid coordinate format"@,
            ActionError::InvalidNumber => "A coordinate is not a 32-bit integer"@,
            ActionError::InvalidKeyFormat => "Invalid key format"@,
            ActionError::UnknownKey => "Unknown or unsupported key"@,
            ActionError::LiteralKeyHeld => "'tap_down' and 'tap_up' are not supported for a single character. Use key names like 'Shift'."@,
            ActionError::InvalidScroll => "Invalid scroll value"@,
            ActionError::InvalidText => "Invalid type format"@,
        }
    }

    /// What the error says to the operator.
    pub fn message(&self) -> (r: String)
        ensures
            r@ == self.message_text(),
    {
        let text = match self {
            ActionError::MissingSeparator => "Invalid action format: no ':' between tag and value",
            ActionError::UnknownTag => "Unknown action type",
            ActionError::PatternRejected => "The coordinate pattern was rejected",
            ActionError::InvalidCoordinate => "Invalid coordinate format",
            ActionError::InvalidNumber => "A coordinate is not a 32-bit integer",
            ActionError::InvalidKeyFormat => "Invalid key format",
            ActionError::UnknownKey => "Unknown or unsupported key",
            ActionError::LiteralKeyHeld => "'tap_down' and 'tap_up' are not supported for a single character. Use key names like 'Shift'.",
            ActionError::InvalidScroll => "Invalid scroll value",
            ActionError::InvalidText => "Invalid type format",
        };
        text.to_owned()
    }
}

/// The keys that have a name in the action language.
#[derive(Clone, Copy, Debug, PartialEq, Eq, Structural)]
pub enum SymbolicKey {
    Alt,
    Backspace,
    CapsLock,
    Control,
    Delete,
    DownArrow,
    End,
    Escape,
    F1,
    F2,
    F3,
    F4,
    F5,
    F6,
    F7,
    F8,
    F9,
    F10,
    F11,
    F12,
    Home,
    LeftArrow,
    Meta,
    OptionKey,
    PageDown,
    PageUp,
    Return,
    RightArrow,
    Shift,
    Space,
    Tab,
    UpArrow,
}

/// A key payload: a named key, or one literal character to type.
#[derive(Clone, Copy, Debug, PartialEq, Eq, Structural)]
pub enum ParsedKey {
    Key(SymbolicKey),
    Char(char),
}

/// The key that a lower-case name stands for.
pub open spec fn key_named(name: Seq<char>) -> Option<SymbolicKey> {
    if name == "alt"@ {
        Some(SymbolicKey::Alt)
    } else if name == "backspace"@ {
        Some(SymbolicKey::Backspace)
    } else if name == "capslock"@ {
        Some(SymbolicKey::CapsLock)
    } else if name == "control"@ || name == "ctrl"@ {
        Some(SymbolicKey::Control)
    } else if name == "delete"@ || name == "del"@ {
        Some(SymbolicKey::Delete)
    } else if name == "downarrow"@ || name == "down"@ {
        Some(SymbolicKey::DownArrow)
    } else if name == "end"@ {
        Some(SymbolicKey::End)
    } else if name == "escape"@ || name == "esc"@ {
        Some(SymbolicKey::Escape)
    } else if name == "f1"@ {
        Some(SymbolicKey::F1)
    } else if name == "f2"@ {
        Some(SymbolicKey::F2)
    } else if name == "f3"@ {
        Some(SymbolicKey::F3)
    } else if name == "f4"@ {
        Some(SymbolicKey::F4)
    } else if name == "f5"@ {
        Some(SymbolicKey::F5)
    } else if name == "f6"@ {
        Some(SymbolicKey::F6)
    } else if name == "f7"@ {
        Some(SymbolicKey::F7)
    } else if name == "f8"@ {
        Some(SymbolicKey::F8)
    } else if name == "f9"@ {
        Some(SymbolicKey::F9)
    } else if name == "f10"@ {
        Some(SymbolicKey::F10)
    } else if name == "f11"@ {
        Some(SymbolicKey::F11)
    } else if name == "f12"@ {
        Some(SymbolicKey::F12)
    } else if name == "home"@ {
        Some(SymbolicKey::Home)
    } else if name == "leftarrow"@ || name == "left"@ {
        Some(SymbolicKey::LeftArrow)
    } else if name == "meta"@ || name == "win"@ || name == "cmd"@ || name == "command"@ {
        Some(SymbolicKey::Meta)
    } else if name == "option"@ {
        Some(SymbolicKey::OptionKey)
    } else if name == "pagedown"@ {
        Some(SymbolicKey::PageDown)
    } else if name == "pageup"@ {
        Some(SymbolicKey::PageUp)
    } else if name == "return"@ || name == "enter"@ {
        Some(SymbolicKey::Return)
    } else if name == "rightarrow"@ || name == "right"@ {
        Some(SymbolicKey::RightArrow)
    } else if name == "shift"@ {
        Some(SymbolicKey::Shift)
    } else if name == "space"@ || name == " "@ {
        Some(SymbolicKey::Space)
    } else if name == "tab"@ {
        Some(SymbolicKey::Tab)
    } else if name == "uparrow"@ || name == "up"@ {
        Some(SymbolicKey::UpArrow)
    } else {
        None
    }
}

/// Looks a lower-case key name up in the table of named keys.
pub fn lookup_key(name: &Vec<char>) -> (r: Option<SymbolicKey>)
    ensures
        r == key_named(name@),
{
    if same_text(name, "alt") {
        Some(SymbolicKey::Alt)
    } else if same_text(name, "backspace") {
        Some(SymbolicKey::Backspace)
    } else if same_text(name, "capslock") {
        Some(SymbolicKey::CapsLock)
    } else if same_text(name, "control") || same_text(name, "ctrl") {
        Some(SymbolicKey::Control)
    } else if same_text(name, "delete") || same_text(name, "del") {
        Some(SymbolicKey::Delete)
    } else if same_text(name, "downarrow") || same_text(name, "down") {
        Some(SymbolicKey::DownArrow)
    } else if same_text(name, "end") {
        Some(SymbolicKey::End)
    } else if same_text(name, "escape") || same_text(name, "esc") {
        Some(SymbolicKey::Escape)
    } else if same_text(name, "f1") {
        Some(SymbolicKey::F1)
    } else if same_text(name, "f2") {
        Some(SymbolicKey::F2)
    } else if same_text(name, "f3") {
        Some(SymbolicKey::F3)
    } else if same_text(name, "f4") {
        Some(SymbolicKey::F4)
    } else if same_text(name, "f5") {
        Some(SymbolicKey::F5)
    } else if same_text(name, "f6") {
        Some(SymbolicKey::F6)
    } else if same_text(name, "f7") {
        Some(SymbolicKey::F7)
    } else if same_text(name, "f8") {
        Some(SymbolicKey::F8)
    } else if same_text(name, "f9") {
        Some(SymbolicKey::F9)
    } else if same_text(name, "f10") {
        Some(SymbolicKey::F10)
    } else if same_text(name, "f11") {
        Some(SymbolicKey::F11)
    } else if same_text(name, "f12") {
        Some(SymbolicKey::F12)
    } else if same_text(name, "home") {
        Some(SymbolicKey::Home)
    } else if same_text(name, "leftarrow") || same_text(name, "left") {
        Some(SymbolicKey::LeftArrow)
    } else if same_text(name, "meta") || same_text(name, "win") || same_text(name, "cmd")
        || same_text(name, "command") {
        Some(SymbolicKey::Meta)
    } else if same_text(name, "option") {
        Some(SymbolicKey::OptionKey)
    } else if same_text(name, "pagedown") {
        Some(SymbolicKey::PageDown)
    } else if same_text(name, "pageup") {
        Some(SymbolicKey::PageUp)
    } else if same_text(name, "return") || same_text(name, "enter") {
        Some(SymbolicKey::Return)
    } else if same_text(name, "rightarrow") || same_text(name, "right") {
        Some(SymbolicKey::RightArrow)
    } else if same_text(name, "shift") {
        Some(SymbolicKey::Shift)
    } else if same_text(name, "space") || same_text(name, " ") {
        Some(SymbolicKey::Space)
    } else if same_text(name, "tab") {
        Some(SymbolicKey::Tab)
    } else if same_text(name, "uparrow") || same_text(name, "up") {
        Some(SymbolicKey::UpArrow)
    } else {
        None
    }
}

/// Whether `t` is at least `least` characters long and stands between single
/// quotes.
pub open spec fn is_quoted(t: Seq<char>, least: int) -> bool {
    t.len() >= least && t.len() >= 1 && t.first() == '\'' && t.last() == '\''
}

/// What stands between the first and the last character of `t`.
pub open spec fn unquoted(t: Seq<char>) -> Seq<char> {
    t.subrange(1, t.len() - 1)
}

/// The key that a key payload denotes. The payload is trimmed and must be a
/// quoted token of at least one character. A token that, without regard to
/// ASCII case, is a key's name or alias denotes that key; any other token of
/// one character denotes that character; every other token is unknown.
pub open spec fn key_of(text: Seq<char>) -> Result<ParsedKey, ActionError> {
    let t = trimmed(text);
    if !is_quoted(t, 3) {
        Err(ActionError::InvalidKeyFormat)
    } else {
        let inner = unquoted(t);
        match key_named(lowered(inner)) {
            Some(k) => Ok(ParsedKey::Key(k)),
            None => if inner.len() == 1 {
                Ok(ParsedKey::Char(inner[0]))
            } else {
                Err(ActionError::UnknownKey)
            },
        }
    }
}

fn quoted(t: &Vec<char>, least: usize) -> (r: bool)
    ensures
        r == is_quoted(t@, least as int),
{
    t.len() >= least && t.len() >= 1 && t[0] == '\'' && t[t.len() - 1] == '\''
}

fn parse_key_chars(text: &Vec<char>) -> (r: Result<ParsedKey, ActionError>)
    ensures
        r == key_of(text@),
{
    let t = trim(text);
    if !quoted(&t, 3) {
        return Err(ActionError::InvalidKeyFormat);
    }
    let inner = slice_of(&t, 1, t.len() - 1);
    let lower = lower_ascii(&inner);
    match lookup_key(&lower) {
        Some(k) => Ok(ParsedKey::Key(k)),
        None => if inner.len() == 1 {
            Ok(ParsedKey::Char(inner[0]))
        } else {
            Err(ActionError::UnknownKey)
        },
    }
}

/// Parses a key payload such as `'a'` or `'Shift'`.
pub fn parse_key(key_str: &str) -> (r: Result<ParsedKey, ActionError>)
    ensures
        r == key_of(key_str@),
{
    let text = chars_of(key_str);
    parse_key_chars(&text)
}

/// The pattern of a coordinate pair: two decimal integers, each with an
/// optional minus sign, between round brackets and separated by a comma,
/// with white space allowed around each number.
pub open spec fn coordinate_pattern() -> Seq<char> {
    "\\(\\s*(-?\\d+)\\s*,\\s*(-?\\d+)\\s*\\)"@
}

/// The coordinates that the capture groups of a search denote: groups 1 and 2
/// read as decimal `i32` numbers.
pub open spec fn coordinate_from(found: Option<Seq<Option<Seq<char>>>>) -> Result<
    (i32, i32),
    ActionError,
> {
    match found {
        None => Err(ActionError::InvalidCoordinate),
        Some(groups) => if groups.len() < 3 || groups[1] is None || groups[2] is None {
            Err(ActionError::InvalidCoordinate)
        } else {
            match (i32_value(groups[1]->0), i32_value(groups[2]->0)) {
                (Some(x), Some(y)) => Ok((x, y)),
                _ => Err(ActionError::InvalidNumber),
            }
        },
    }
}

/// The coordinates that a coordinate payload denotes.
pub open spec fn coordinate_of(text: Seq<char>) -> Result<(i32, i32), ActionError> {
    match regex_captures(coordinate_pattern(), text) {
        None => Err(ActionError::PatternRejected),
        Some(found) => coordinate_from(found),
    }
}

/// Reads the two numbers of a coordinate pair out of the capture groups of a
/// search for the coordinate pattern.
pub fn coordinate_from_captures(found: &Option<Vec<Option<String>>>) -> (r: Result<
    (i32, i32),
    ActionError,
>)
    ensures
        r == coordinate_from(found.deep_view()),
{
    match found {
        None => Err(ActionError::InvalidCoordinate),
        Some(groups) => {
            if groups.len() < 3 {
                return Err(ActionError::InvalidCoordinate);
            }
            assert(groups.deep_view()[1] == groups@[1].deep_view());
            assert(groups.deep_view()[2] == groups@[2].deep_view());
            match (&groups[1], &groups[2]) {
                (Some(first), Some(second)) => {
                    let x = parse_i32(&chars_of(first.as_str()));
                    let y = parse_i32(&chars_of(second.as_str()));
                    match (x, y) {
                        (Some(x), Some(y)) => Ok((x, y)),
                        _ => Err(ActionError::InvalidNumber),
                    }
                },
                _ => Err(ActionError::InvalidCoordinate),
            }
        },
    }
}

/// Parses a coordinate payload such as `(125,265)`.
pub fn parse_coordinate(coord_str: &str) -> (r: Result<(i32, i32), ActionError>)
    ensures
        r == coordinate_of(coord_str@),
{
    match search_captures("\\(\\s*(-?\\d+)\\s*,\\s*(-?\\d+)\\s*\\)", coord_str) {
        Ok(found) => coordinate_from_captures(&found),
        Err(_) => Err(ActionError::PatternRejected),
    }
}

/// One parsed line of the action language.
#[derive(Clone, Debug, PartialEq, Eq)]
pub enum ActionCommand {
    Click(i32, i32),
    ClickDown(i32, i32),
    ClickUp,
    Drag(i32, i32),
    Tap(ParsedKey),
    TapDown(SymbolicKey),
    TapUp(SymbolicKey),
    Scroll(i32),
    Type(String),
    Done(String),
}

/// The mathematical value of an [`ActionCommand`].
pub ghost enum CommandModel {
    Click(i32, i32),
    ClickDown(i32, i32),
    ClickUp,
    Drag(i32, i32),
    Tap(ParsedKey),
    TapDown(SymbolicKey),
    TapUp(SymbolicKey),
    Scroll(i32),
    Type(Seq<char>),
    Done(Seq<char>),
}

impl View for ActionCommand {
    type V = CommandModel;

    open spec fn view(&self) -> CommandModel {
        match *self {
            ActionCommand::Click(x, y) => CommandModel::Click(x, y),
            ActionCommand::ClickDown(x, y) => CommandModel::ClickDown(x, y),
            ActionCommand::ClickUp => CommandModel::ClickUp,
            ActionCommand::Drag(x, y) => CommandModel::Drag(x, y),
            ActionCommand::Tap(k) => CommandModel::Tap(k),
            ActionCommand::TapDown(k) => CommandModel::TapDown(k),
            ActionCommand::TapUp(k) => CommandModel::TapUp(k),
            ActionCommand::Scroll(n) => CommandModel::Scroll(n),
            ActionCommand::Type(t) => CommandModel::Type(t@),
            ActionCommand::Done(m) => CommandModel::Done(m@),
        }
    }
}

/// The command with a coordinate payload that `tag` asks for.
pub open spec fn pointer_command(make: spec_fn(i32, i32) -> CommandModel, value: Seq<char>) -> Result<
    CommandModel,
    ActionError,
> {
    match coordinate_of(value) {
        Ok(p) => Ok(make(p.0, p.1)),
        Err(e) => Err(e),
    }
}

/// The command that holds or lets go a key: only a named key will do.
pub open spec fn held_key_command(make: spec_fn(SymbolicKey) -> CommandModel, value: Seq<char>) -> Result<
    CommandModel,
    ActionError,
> {
    match key_of(value) {
        Ok(ParsedKey::Key(k)) => Ok(make(k)),
        Ok(ParsedKey::Char(_)) => Err(ActionError::LiteralKeyHeld),
        Err(e) => Err(e),
    }
}

/// The completion message of a `done` payload: the trimmed payload, without
/// its single quotes when it stands between them.
pub open spec fn done_message(value: Seq<char>) -> Seq<char> {
    let t = trimmed(value);
    if is_quoted(t, 2) {
        unquoted(t)
    } else {
        t
    }
}

/// The command that a line denotes. The line is split at its first `:`; what
/// stands before is the tag, what stands after is the payload.
pub open spec fn command_of(line: Seq<char>) -> Result<CommandModel, ActionError> {
    match find_first(line, seq![':']) {
        None => Err(ActionError::MissingSeparator),
        Some(k) => {
            let tag = line.subrange(0, k);
            let value = line.subrange(k + 1, line.len() as int);
            if tag == "click"@ {
                pointer_command(|x: i32, y: i32| CommandModel::Click(x, y), value)
            } else if tag == "click_down"@ {
                pointer_command(|x: i32, y: i32| CommandModel::ClickDown(x, y), value)
            } else if tag == "click_up"@ {
                Ok(CommandModel::ClickUp)
            } else if tag == "drag"@ {
                pointer_command(|x: i32, y: i32| CommandModel::Drag(x, y), value)
            } else if tag == "tap"@ {
                match key_of(value) {
                    Ok(k) => Ok(CommandModel::Tap(k)),
                    Err(e) => Err(e),
                }
            } else if tag == "tap_down"@ {
                held_key_command(|k: SymbolicKey| CommandModel::TapDown(k), value)
            } else if tag == "tap_up"@ {
                held_key_command(|k: SymbolicKey| CommandModel::TapUp(k), value)
            } else if tag == "scroll"@ {
                match i32_value(value) {
                    Some(n) => Ok(CommandModel::Scroll(n)),
                    None => Err(ActionError::InvalidScroll),
                }
            } else if tag == "type"@ {
                let t = trimmed(value);
                if is_quoted(t, 2) {
                    Ok(CommandModel::Type(unquoted(t)))
                } else {
                    Err(ActionError::InvalidText)
                }
            } else if tag == "done"@ {
                Ok(CommandModel::Done(done_message(value)))
            } else {
                Err(ActionError::UnknownTag)
            }
        },
    }
}

/// The view of a parse result.
pub open spec fn parsed_view(r: Result<ActionCommand, ActionError>) -> Result<
    CommandModel,
    ActionError,
> {
    match r {
        Ok(c) => Ok(c@),
        Err(e) => Err(e),
    }
}

fn parse_held_key(value: &Vec<char>) -> (r: Result<SymbolicKey, ActionError>)
    ensures
        r == match key_of(value@) {
            Ok(ParsedKey::Key(k)) => Ok::<SymbolicKey, ActionError>(k),
            Ok(ParsedKey::Char(_)) => Err(ActionError::LiteralKeyHeld),
            Err(e) => Err(e),
        },
{
    match parse_key_chars(value) {
        Ok(ParsedKey::Key(k)) => Ok(k),
        Ok(ParsedKey::Char(_)) => Err(ActionError::LiteralKeyHeld),
        Err(e) => Err(e),
    }
}

/// Parses one line of the action language.
pub fn parse_action(action_str: &str) -> (r: Result<ActionCommand, ActionError>)
    ensures
        parsed_view(r) == command_of(action_str@),
{
    let line = chars_of(action_str);
    let colon: Vec<char> = vec![':'];
    assert(colon@ =~= seq![':']);
    let k: usize = match find(&line, &colon) {
        None => {
            return Err(ActionError::MissingSeparator);
        },
        Some(k) => k,
    };
    proof {
        crate::text::lemma_find_from(line@, colon@, 0);
    }
    let tag = slice_of(&line, 0, k);
    let value = slice_of(&line, k + 1, line.len());
    if same_text(&tag, "click") {
        let text = string_of(&value, 0, value.len());
        assert(text@ =~= value@);
        match parse_coordinate(text.as_str()) {
            Ok(p) => Ok(ActionCommand::Click(p.0, p.1)),
            Err(e) => Err(e),
        }
    } else if same_text(&tag, "click_down") {
        let text = string_of(&value, 0, value.len());
        assert(text@ =~= value@);
        match parse_coordinate(text.as_str()) {
            Ok(p) => Ok(ActionCommand::ClickDown(p.0, p.1)),
            Err(e) => Err(e),
        }
    } else if same_text(&tag, "click_up") {
        Ok(ActionCommand::ClickUp)
    } else if same_text(&tag, "drag") {
        let text = string_of(&value, 0, value.len());
        assert(text@ =~= value@);
        match parse_coordinate(text.as_str()) {
            Ok(p) => Ok(ActionCommand::Drag(p.0, p.1)),
            Err(e) => Err(e),
        }
    } else if same_text(&tag, "tap") {
        match parse_key_chars(&value) {
            Ok(k) => Ok(ActionCommand::Tap(k)),
            Err(e) => Err(e),
        }
    } else if same_text(&tag, "tap_down") {
        match parse_held_key(&value) {
            Ok(k) => Ok(ActionCommand::TapDown(k)),
            Err(e) => Err(e),
        }
    } else if same_text(&tag, "tap_up") {
        match parse_held_key(&value) {
            Ok(k) => Ok(ActionCommand::TapUp(k)),
            Err(e) => Err(e),
        }
    } else if same_text(&tag, "scroll") {
        match parse_i32(&value) {
            Some(n) => Ok(ActionCommand::Scroll(n)),
            None => Err(ActionError::InvalidScroll),
        }
    } else if same_text(&tag, "type") {
        let t = trim(&value);
        if quoted(&t, 2) {
            Ok(ActionCommand::Type(string_of(&t, 1, t.len() - 1)))
        } else {
            Err(ActionError::InvalidText)
        }
    } else if same_text(&tag, "done") {
        let t = trim(&value);
        if quoted(&t, 2) {
            Ok(ActionCommand::Done(string_of(&t, 1, t.len() - 1)))
        } else {
            let whole = string_of(&t, 0, t.len());
            assert(whole@ =~= t@);
            Ok(ActionCommand::Done(whole))
        }
    } else {
        Err(ActionError::UnknownTag)
    }
}

/// How a key or a button is moved.
#[derive(Clone, Copy, Debug, PartialEq, Eq, Structural)]
pub enum Direction {
    Press,
    Release,
    Click,
}

/// One primitive operation on the pointer or the keyboard. The button is
/// always the left one and the pointer moves to absolute coordinates.
#[derive(Clone, Debug, PartialEq, Eq)]
pub enum InputOp {
    MoveTo(i32, i32),
    Button(Direction),
    Key(SymbolicKey, Direction),
    Text(String),
    Scroll(i32),
}

/// The mathematical value of an [`InputOp`].
pub ghost enum InputOpModel {
    MoveTo(i32, i32),
    Button(Direction),
    Key(SymbolicKey, Direction),
    Text(Seq<char>),
    Scroll(i32),
}

impl View for InputOp {
    type V = InputOpModel;

    open spec fn view(&self) -> InputOpModel {
        match *self {
            InputOp::MoveTo(x, y) => InputOpModel::MoveTo(x, y),
            InputOp::Button(d) => InputOpModel::Button(d),
            InputOp::Key(k, d) => InputOpModel::Key(k, d),
            InputOp::Text(t) => InputOpModel::Text(t@),
            InputOp::Scroll(n) => InputOpModel::Scroll(n),
        }
    }
}

/// The values of a list of operations.
pub open spec fn ops_view(ops: Seq<InputOp>) -> Seq<InputOpModel> {
    Seq::new(ops.len(), |i: int| ops[i]@)
}

/// The operations that carry a command out, in the order in which they are
/// issued. `done` issues none.
pub open spec fn ops_of(command: CommandModel) -> Seq<InputOpModel> {
    match command {
        CommandModel::Click(x, y) => seq![
            InputOpModel::MoveTo(x, y),
            InputOpModel::Button(Direction::Click),
        ],
        CommandModel::ClickDown(x, y) => seq![
            InputOpModel::MoveTo(x, y),
            InputOpModel::Button(Direction::Press),
        ],
        CommandModel::ClickUp => seq![InputOpModel::Button(Direction::Release)],
        CommandModel::Drag(x, y) => seq![InputOpModel::MoveTo(x, y)],
        CommandModel::Tap(ParsedKey::Key(k)) => seq![InputOpModel::Key(k, Direction::Click)],
        CommandModel::Tap(ParsedKey::Char(c)) => seq![InputOpModel::Text(seq![c])],
        CommandModel::TapDown(k) => seq![InputOpModel::Key(k, Direction::Press)],
        CommandModel::TapUp(k) => seq![InputOpModel::Key(k, Direction::Release)],
        CommandModel::Scroll(n) => seq![InputOpModel::Scroll(n)],
        CommandModel::Type(t) => seq![InputOpModel::Text(t)],
        CommandModel::Done(_) => Seq::empty(),
    }
}

/// Turns a command into the operations that carry it out.
pub fn input_ops(command: &ActionCommand) -> (ops: Vec<InputOp>)
    ensures
        ops_view(ops@) == ops_of(command@),
{
    let mut ops: Vec<InputOp> = Vec::new();
    match command {
        ActionCommand::Click(x, y) => {
            ops.push(InputOp::MoveTo(*x, *y));
            ops.push(InputOp::Button(Direction::Click));
        },
        ActionCommand::ClickDown(x, y) => {
            ops.push(InputOp::MoveTo(*x, *y));
            ops.push(InputOp::Button(Direction::Press));
        },
        ActionCommand::ClickUp => {
            ops.push(InputOp::Button(Direction::Release));
        },
        ActionCommand::Drag(x, y) => {
            ops.push(InputOp::MoveTo(*x, *y));
        },
        ActionCommand::Tap(ParsedKey::Key(k)) => {
            ops.push(InputOp::Key(*k, Direction::Click));
        },
        ActionCommand::Tap(ParsedKey::Char(c)) => {
            let mut text = String::new();
            text.push(*c);
            assert(text@ =~= seq![*c]);
            ops.push(InputOp::Text(text));
        },
        ActionCommand::TapDown(k) => {
            ops.push(InputOp::Key(*k, Direction::Press));
        },
        ActionCommand::TapUp(k) => {
            ops.push(InputOp::Key(*k, Direction::Release));
        },
        ActionCommand::Scroll(n) => {
            ops.push(InputOp::Scroll(*n));
        },
        ActionCommand::Type(t) => {
            ops.push(InputOp::Text(t.clone()));
        },
        ActionCommand::Done(_) => {},
    }
    assert(ops_view(ops@) =~= ops_of(command@));
    ops
}

/// What one line asks the loop to do next.
#[derive(Clone, Debug, PartialEq, Eq)]
pub enum ActionStep {
    /// Issue these operations, then go on.
    Perform(Vec<InputOp>),
    /// Stop with this completion message.
    Finish(String),
}

/// The mathematical value of an [`ActionStep`].
pub ghost enum StepModel {
    Perform(Seq<InputOpModel>),
    Finish(Seq<char>),
}

impl View for ActionStep {
    type V = StepModel;

    open spec fn view(&self) -> StepModel {
        match *self {
            ActionStep::Perform(ops) => StepModel::Perform(ops_view(ops@)),
            ActionStep::Finish(m) => StepModel::Finish(m@),
        }
    }
}

/// What a line asks for: `done` finishes with its message, every other
/// command is performed through its operations, and a line that does not
/// parse asks for nothing.
pub open spec fn step_of(line: Seq<char>) -> Result<StepModel, ActionError> {
    match command_of(line) {
        Ok(CommandModel::Done(m)) => Ok(StepModel::Finish(m)),
        Ok(c) => Ok(StepModel::Perform(ops_of(c))),
        Err(e) => Err(e),
    }
}

/// The view of the outcome of [`do_action`].
pub open spec fn step_view(r: Result<ActionStep, ActionError>) -> Result<StepModel, ActionError> {
    match r {
        Ok(s) => Ok(s@),
        Err(e) => Err(e),
    }
}

/// Interprets one line: parses it and lays out the operations to issue.
pub fn do_action(action_str: &str) -> (r: Result<ActionStep, ActionError>)
    ensures
        step_view(r) == step_of(action_str@),
{
    match parse_action(action_str) {
        Ok(ActionCommand::Done(m)) => Ok(ActionStep::Finish(m)),
        Ok(c) => {
            let ops = input_ops(&c);
            Ok(ActionStep::Perform(ops))
        },
        Err(e) => Err(e),
    }
}

} // verus!
