use vstd::prelude::*;
use crate::units::{Unit, VolumeUnit, unit_of_choice, volume_unit_of_choice};

verus! {

/// Whether `c` is an ASCII decimal digit.
pub open spec fn is_digit(c: char) -> bool {
    '0' <= c && c <= '9'
}

/// The number that a string of decimal digits writes.
pub open spec fn digits_value(s: Seq<char>) -> nat
    decreases s.len(),
{
    if s.len() == 0 {
        0
    } else {
        digits_value(s.drop_last()) * 10 + ((s.last() as nat) - ('0' as nat)) as nat
    }
}

/// `s` without one leading plus sign, if it has one.
pub open spec fn unsigned_part(s: Seq<char>) -> Seq<char> {
    if s.len() > 0 && s[0] == '+' {
        s.drop_first()
    } else {
        s
    }
}

/// The `u32` that `s` writes in decimal: an optional `+`, then one or more
/// ASCII digits, of a value that fits in 32 bits. `None` for anything else.
pub open spec fn u32_of_text(s: Seq<char>) -> Option<u32> {
    let d = unsigned_part(s);
    if d.len() > 0 && (forall|i: int| 0 <= i < d.len() ==> is_digit(#[trigger] d[i]))
        && digits_value(d) <= u32::MAX {
        Some(digits_value(d) as u32)
    } else {
        None
    }
}

/// Reads `text` as an unsigned 32-bit decimal number.
pub fn parse_u32(text: &str) -> (r: Option<u32>)
    ensures
        r == u32_of_text(text@),
{
    let n = text.unicode_len();
    let mut start: usize = 0;
    if n > 0 && text.get_char(0) == '+' {
        start = 1;
    }
    let ghost d = unsigned_part(text@);
    assert(d =~= text@.subrange(start as int, n as int));
    if start == n {
        return None;
    }
    let mut i: usize = start;
    let mut acc: u64 = 0;
    let mut overflow = false;
    while i < n
        invariant
            start <= i <= n,
            n == text@.len(),
            d == text@.subrange(start as int, n as int),
            d == unsigned_part(text@),
            forall|k: int| start <= k < i ==> is_digit(#[trigger] text@[k]),
            !overflow ==> acc == digits_value(text@.subrange(start as int, i as int)),
            !overflow ==> acc <= u32::MAX,
            overflow ==> digits_value(text@.subrange(start as int, i as int)) > u32::MAX,
        decreases n - i,
    {
        let c = text.get_char(i);
        if c < '0' || c > '9' {
            assert(d[i - start] == c);
            assert(!is_digit(d[i - start]));
            return None;
        }
        let ghost prev = text@.subrange(start as int, i as int);
        let ghost next = text@.subrange(start as int, i + 1);
        assert(next.drop_last() =~= prev);
        assert(next.last() == c);
        if !overflow {
            let v = acc * 10 + ((c as u32) - ('0' as u32)) as u64;
            if v > 0xffff_ffff {
                overflow = true;
            } else {
                acc = v;
            }
        }
        i = i + 1;
    }
    assert(text@.subrange(start as int, n as int) == d);
    assert forall|k: int| 0 <= k < d.len() implies is_digit(#[trigger] d[k]) by {
        assert(d[k] == text@[k + start]);
    }
    if overflow {
        None
    } else {
        Some(acc as u32)
    }
}

/// Why a menu entry was refused.
#[derive(Clone, Copy, Debug, PartialEq, Eq, Structural)]
pub enum ChoiceError {
    /// The entry is not an unsigned number.
    NotANumber,
    /// The entry is a number that names no option.
    OutOfRange,
}

/// What the main menu offers.
#[derive(Clone, Copy, Debug, PartialEq, Eq, Structural)]
pub enum Task {
    /// Correct a meter reading for line pressure.
    CorrectReading,
    /// Convert a figure between energy and volume units.
    ConvertUnits,
}

/// The task of main-menu entry `choice` (1: correct a reading, 2: convert).
pub open spec fn task_of_choice(choice: int) -> Option<Task> {
    if choice == 1 {
        Some(Task::CorrectReading)
    } else if choice == 2 {
        Some(Task::ConvertUnits)
    } else {
        None
    }
}

/// The outcome of a menu whose options are `option(n)` for an entry `n`.
pub open spec fn menu_outcome<T>(text: Seq<char>, option: spec_fn(int) -> Option<T>) -> Result<
    T,
    ChoiceError,
> {
    match u32_of_text(text) {
        None => Err(ChoiceError::NotANumber),
        Some(n) => match option(n as int) {
            Some(t) => Ok(t),
            None => Err(ChoiceError::OutOfRange),
        },
    }
}

/// Reads an entry of the main menu; `text` is the line without surrounding
/// whitespace.
pub fn main_menu(text: &str) -> (r: Result<Task, ChoiceError>)
    ensures
        r == menu_outcome(text@, |n: int| task_of_choice(n)),
{
    match parse_u32(text) {
        None => Err(ChoiceError::NotANumber),
        Some(1) => Ok(Task::CorrectReading),
        Some(2) => Ok(Task::ConvertUnits),
        Some(_) => Err(ChoiceError::OutOfRange),
    }
}

/// Reads an entry of the menu of units for an uncorrected reading.
pub fn volume_unit_menu(text: &str) -> (r: Result<VolumeUnit, ChoiceError>)
    ensures
        r == menu_outcome(text@, |n: int| volume_unit_of_choice(n)),
{
    match parse_u32(text) {
        None => Err(ChoiceError::NotANumber),
        Some(n) => match VolumeUnit::from_choice(n) {
            Some(u) => Ok(u),
            None => Err(ChoiceError::OutOfRange),
        },
    }
}

/// Reads an entry of the menu of units to convert from.
pub fn source_unit_menu(text: &str) -> (r: Result<Unit, ChoiceError>)
    ensures
        r == menu_outcome(text@, |n: int| unit_of_choice(n)),
{
    match parse_u32(text) {
        None => Err(ChoiceError::NotANumber),
        Some(n) => match Unit::from_choice(n) {
            Some(u) => Ok(u),
            None => Err(ChoiceError::OutOfRange),
        },
    }
}

/// Whether an answer to "another operation?" asks for one: the answer, without
/// surrounding whitespace, is `y` in either case.
pub fn wants_another(answer: &str) -> (r: bool)
    ensures
        r == (answer@ == seq!['y'] || answer@ == seq!['Y']),
{
    if answer.unicode_len() != 1 {
        return false;
    }
    let c = answer.get_char(0);
    assert(answer@ == seq![c]);
    c == 'y' || c == 'Y'
}

} // verus!
