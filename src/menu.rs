use vstd::prelude::*;
use crate::charset::Charset;

verus! {

/// What a number entered at the options menu asks for.
#[derive(Clone, Copy, Debug, PartialEq, Eq, Structural)]
pub enum MenuChoice {
    Exit,
    Generate,
    SetLength,
    Toggle(Charset),
    Help,
    Invalid,
}

/// Reads a menu number: 0 exits, 1 generates, 2 sets the length, 3 to 6
/// toggle uppercase, lowercase, digits and symbols, 7 shows help; any other
/// number is invalid.
pub fn menu_choice(n: usize) -> (c: MenuChoice)
    ensures
        n == 0 <==> c == MenuChoice::Exit,
        n == 1 <==> c == MenuChoice::Generate,
        n == 2 <==> c == MenuChoice::SetLength,
        n == 3 <==> c == MenuChoice::Toggle(Charset::Upper),
        n == 4 <==> c == MenuChoice::Toggle(Charset::Lower),
        n == 5 <==> c == MenuChoice::Toggle(Charset::Digits),
        n == 6 <==> c == MenuChoice::Toggle(Charset::Symbols),
        n == 7 <==> c == MenuChoice::Help,
        n > 7 <==> c == MenuChoice::Invalid,
{
    match n {
        0 => MenuChoice::Exit,
        1 => MenuChoice::Generate,
        2 => MenuChoice::SetLength,
        3 => MenuChoice::Toggle(Charset::Upper),
        4 => MenuChoice::Toggle(Charset::Lower),
        5 => MenuChoice::Toggle(Charset::Digits),
        6 => MenuChoice::Toggle(Charset::Symbols),
        7 => MenuChoice::Help,
        _ => MenuChoice::Invalid,
    }
}

/// A reply to the offer to copy a password to the clipboard.
#[derive(Clone, Copy, Debug, PartialEq, Eq, Structural)]
pub enum CopyAnswer {
    Yes,
    No,
    Unclear,
}

/// The lowercase form of a string, as `str::to_lowercase` gives it.
pub uninterp spec fn lower_of(s: Seq<char>) -> Seq<char>;

/// Relies on `str::to_lowercase`: the result depends on the characters alone.
#[verifier::external_body]
fn lowercase(s: &str) -> (r: String)
    ensures
        r@ == lower_of(s@),
{
    s.to_lowercase()
}

/// The answer that a reply means once lowercased: `y` or `n`, else unclear.
pub open spec fn answer_of(lowered: Seq<char>) -> CopyAnswer {
    if lowered.len() == 1 && lowered[0] == 'y' {
        CopyAnswer::Yes
    } else if lowered.len() == 1 && lowered[0] == 'n' {
        CopyAnswer::No
    } else {
        CopyAnswer::Unclear
    }
}

/// Reads a reply that is already lowercase.
pub fn answer_from_lowered(lowered: &str) -> (a: CopyAnswer)
    ensures
        a == answer_of(lowered@),
{
    if lowered.unicode_len() != 1 {
        return CopyAnswer::Unclear;
    }
    let c = lowered.get_char(0);
    if c == 'y' {
        CopyAnswer::Yes
    } else if c == 'n' {
        CopyAnswer::No
    } else {
        CopyAnswer::Unclear
    }
}

/// Reads a reply to the copy offer, in either case: `y` or `n`.
pub fn copy_answer(reply: &str) -> (a: CopyAnswer)
    ensures
        a == answer_of(lower_of(reply@)),
{
    let lowered = lowercase(reply);
    answer_from_lowered(lowered.as_str())
}

} // verus!
