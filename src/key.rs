use vstd::prelude::*;

verus! {

/// A key press, as the pages read it.
#[derive(Clone, Copy, PartialEq, Eq, Structural, Debug)]
pub enum Key {
    Char(char),
    Esc,
    Enter,
    Backspace,
    Tab,
    BackTab,
    Other,
}

/// The text of an input field after `key` was typed into it: a character is appended,
/// backspace removes the last one, other keys leave it as it was.
pub open spec fn edit_input(input: Seq<char>, key: Key) -> Seq<char> {
    match key {
        Key::Char(c) => input.push(c),
        Key::Backspace => if input.len() == 0 {
            input
        } else {
            input.drop_last()
        },
        _ => input,
    }
}

} // verus!
