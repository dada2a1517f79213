use vstd::prelude::*;
use crate::units::{Unit, VolumeUnit};
use crate::choice::{
    ChoiceError, Task, main_menu, menu_outcome, source_unit_menu, task_of_choice,
    volume_unit_menu, wants_another,
};
use crate::units::{unit_of_choice, volume_unit_of_choice};
use crate::choice::u32_of_text;

verus! {

/// Where an interactive session stands: what it asks for next.
#[derive(Clone, Copy, Debug, PartialEq, Eq, Structural)]
pub enum Stage {
    /// The main menu: correct a reading, or convert units.
    Menu,
    /// The pressure at the meter, in psi.
    Pressure,
    /// The uncorrected meter reading.
    Reading,
    /// The unit of the uncorrected reading.
    ReadingUnit,
    /// The unit to convert from.
    SourceUnit,
    /// The figure to convert, in the given unit.
    Amount(Unit),
    /// Whether to perform another operation.
    Another,
    /// The session is over.
    Finished,
}

/// A number as the user entered it, as far as the session's decisions read it.
#[derive(Clone, Copy, Debug, PartialEq, Eq, Structural)]
pub enum NumberEntry {
    /// The text is not a number.
    Unreadable,
    /// A number, and whether it compares at least zero.
    Read { at_least_zero: bool },
}

/// A complaint shown to the user.
#[derive(Clone, Copy, Debug, PartialEq, Eq, Structural)]
pub enum Notice {
    /// The entry is not a number.
    NotANumber,
    /// The main-menu entry is neither 1 nor 2.
    TaskOutOfRange,
    /// The number is not at least zero.
    NotNonNegative,
    /// The unit entry for a reading is not 1, 2 or 3.
    VolumeUnitOutOfRange,
    /// The unit entry to convert from is not a number from 1 to 6.
    SourceUnitRefused,
}

/// What the surrounding program does with the entry just read.
#[derive(Clone, Copy, Debug, PartialEq, Eq, Structural)]
pub enum Work {
    /// Keep the number as the pressure at the meter.
    KeepPressure,
    /// Keep the number as the uncorrected reading.
    KeepReading,
    /// Correct the kept reading, given in this unit, for the kept pressure.
    Correct(VolumeUnit),
    /// Convert the number just read, given in this unit, to every unit.
    Convert(Unit),
}

/// One step of a session.
#[derive(Clone, Copy, Debug, PartialEq, Eq, Structural)]
pub struct Outcome {
    pub next: Stage,
    pub notice: Option<Notice>,
    pub work: Option<Work>,
}

/// Whether the entry at `stage` is a line of text read by the session itself.
pub open spec fn reads_text(stage: Stage) -> bool {
    stage is Menu || stage is ReadingUnit || stage is SourceUnit || stage is Another
}

/// Whether the entry at `stage` is a number.
pub open spec fn reads_number(stage: Stage) -> bool {
    stage is Pressure || stage is Reading || stage is Amount
}

/// An outcome of the given fields.
pub open spec fn outcome(next: Stage, notice: Option<Notice>, work: Option<Work>) -> Outcome {
    Outcome { next, notice, work }
}

/// The step taken on `text` (without surrounding whitespace) at a stage that
/// reads text.
///
/// A refused main-menu entry skips to the question of another operation. A
/// refused unit for a reading asks again. A refused unit to convert from ends
/// the conversion.
pub open spec fn step_on_text(stage: Stage, text: Seq<char>) -> Outcome {
    match stage {
        Stage::Menu => match menu_outcome(text, |n: int| task_of_choice(n)) {
            Ok(Task::CorrectReading) => outcome(Stage::Pressure, None, None),
            Ok(Task::ConvertUnits) => outcome(Stage::SourceUnit, None, None),
            Err(ChoiceError::NotANumber) => outcome(Stage::Another, Some(Notice::NotANumber), None),
            Err(ChoiceError::OutOfRange) => outcome(
                Stage::Another,
                Some(Notice::TaskOutOfRange),
                None,
            ),
        },
        Stage::ReadingUnit => match menu_outcome(text, |n: int| volume_unit_of_choice(n)) {
            Ok(u) => outcome(Stage::Another, None, Some(Work::Correct(u))),
            Err(ChoiceError::NotANumber) => outcome(
                Stage::ReadingUnit,
                Some(Notice::NotANumber),
                None,
            ),
            Err(ChoiceError::OutOfRange) => outcome(
                Stage::ReadingUnit,
                Some(Notice::VolumeUnitOutOfRange),
                None,
            ),
        },
        Stage::SourceUnit => match menu_outcome(text, |n: int| unit_of_choice(n)) {
            Ok(u) => outcome(Stage::Amount(u), None, None),
            Err(_) => outcome(Stage::Another, Some(Notice::SourceUnitRefused), None),
        },
        _ => if text == seq!['y'] || text == seq!['Y'] {
            outcome(Stage::Menu, None, None)
        } else {
            outcome(Stage::Finished, None, None)
        },
    }
}

/// The step taken on a number at a stage that reads one.
///
/// The pressure and the reading must be at least zero and are asked again
/// until they are; the figure to convert may be any number, and an unreadable
/// one ends the conversion.
pub open spec fn step_on_number(stage: Stage, entry: NumberEntry) -> Outcome {
    let accepted = entry == (NumberEntry::Read { at_least_zero: true });
    match stage {
        Stage::Pressure => if accepted {
            outcome(Stage::Reading, None, Some(Work::KeepPressure))
        } else {
            outcome(Stage::Pressure, Some(Notice::NotNonNegative), None)
        },
        Stage::Reading => if accepted {
            outcome(Stage::ReadingUnit, None, Some(Work::KeepReading))
        } else {
            outcome(Stage::Reading, Some(Notice::NotNonNegative), None)
        },
        Stage::Amount(u) => match entry {
            NumberEntry::Read { .. } => outcome(Stage::Another, None, Some(Work::Convert(u))),
            NumberEntry::Unreadable => outcome(Stage::Another, Some(Notice::NotANumber), None),
        },
        _ => outcome(stage, None, None),
    }
}

/// The step a session takes on a line of text at a stage that reads text.
pub fn on_text(stage: Stage, text: &str) -> (r: Outcome)
    requires
        reads_text(stage),
    ensures
        r == step_on_text(stage, text@),
{
    match stage {
        Stage::Menu => match main_menu(text) {
            Ok(Task::CorrectReading) => Outcome { next: Stage::Pressure, notice: None, work: None },
            Ok(Task::ConvertUnits) => Outcome { next: Stage::SourceUnit, notice: None, work: None },
            Err(ChoiceError::NotANumber) => Outcome {
                next: Stage::Another,
                notice: Some(Notice::NotANumber),
                work: None,
            },
            Err(ChoiceError::OutOfRange) => Outcome {
                next: Stage::Another,
                notice: Some(Notice::TaskOutOfRange),
                work: None,
            },
        },
        Stage::ReadingUnit => match volume_unit_menu(text) {
            Ok(u) => Outcome { next: Stage::Another, notice: None, work: Some(Work::Correct(u)) },
            Err(ChoiceError::NotANumber) => Outcome {
                next: Stage::ReadingUnit,
                notice: Some(Notice::NotANumber),
                work: None,
            },
            Err(ChoiceError::OutOfRange) => Outcome {
                next: Stage::ReadingUnit,
                notice: Some(Notice::VolumeUnitOutOfRange),
                work: None,
            },
        },
        Stage::SourceUnit => match source_unit_menu(text) {
            Ok(u) => Outcome { next: Stage::Amount(u), notice: None, work: None },
            Err(_) => Outcome {
                next: Stage::Another,
                notice: Some(Notice::SourceUnitRefused),
                work: None,
            },
        },
        _ => if wants_another(text) {
            Outcome { next: Stage::Menu, notice: None, work: None }
        } else {
            Outcome { next: Stage::Finished, notice: None, work: None }
        },
    }
}

/// The step a session takes on a number at a stage that reads one.
pub fn on_number(stage: Stage, entry: NumberEntry) -> (r: Outcome)
    requires
        reads_number(stage),
    ensures
        r == step_on_number(stage, entry),
{
    let accepted = match entry {
        NumberEntry::Read { at_least_zero } => at_least_zero,
        NumberEntry::Unreadable => false,
    };
    match stage {
        Stage::Pressure => if accepted {
            Outcome { next: Stage::Reading, notice: None, work: Some(Work::KeepPressure) }
        } else {
            Outcome { next: Stage::Pressure, notice: Some(Notice::NotNonNegative), work: None }
        },
        Stage::Reading => if accepted {
            Outcome { next: Stage::ReadingUnit, notice: None, work: Some(Work::KeepReading) }
        } else {
            Outcome { next: Stage::Reading, notice: Some(Notice::NotNonNegative), work: None }
        },
        Stage::Amount(u) => match entry {
            NumberEntry::Read { .. } => Outcome {
                next: Stage::Another,
                notice: None,
                work: Some(Work::Convert(u)),
            },
            NumberEntry::Unreadable => Outcome {
                next: Stage::Another,
                notice: Some(Notice::NotANumber),
                work: None,
            },
        },
        _ => Outcome { next: stage, notice: None, work: None },
    }
}

/// A unit entry to convert from that is not a number from 1 to 6 ends the
/// conversion at once: the session goes on to the question of another
/// operation, with a notice, and asks for no figure.
pub proof fn lemma_refused_source_unit_ends_conversion(text: Seq<char>)
    requires
        !(u32_of_text(text) matches Some(n) && 1 <= n <= 6),
    ensures
        step_on_text(Stage::SourceUnit, text) == outcome(
            Stage::Another,
            Some(Notice::SourceUnitRefused),
            None,
        ),
{
}

/// In the correction of a reading, a refused entry is asked for again: the
/// session stays at the same stage, with a notice, and does no work.
pub proof fn lemma_refused_reading_entries_ask_again(stage: Stage, entry: NumberEntry, text: Seq<char>)
    ensures
        (stage is Pressure || stage is Reading) && entry != (NumberEntry::Read {
            at_least_zero: true,
        }) ==> step_on_number(stage, entry).next == stage && step_on_number(
            stage,
            entry,
        ).notice is Some && step_on_number(stage, entry).work is None,
        !(u32_of_text(text) matches Some(n) && 1 <= n <= 3) ==> step_on_text(
            Stage::ReadingUnit,
            text,
        ).next == Stage::ReadingUnit && step_on_text(Stage::ReadingUnit, text).notice is Some
            && step_on_text(Stage::ReadingUnit, text).work is None,
{
}

} // verus!
