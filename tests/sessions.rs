use conversion_tool::session::{on_number, on_text, Notice, NumberEntry, Outcome, Stage, Work};
use conversion_tool::units::{Unit, VolumeUnit};

const ACCEPTED: NumberEntry = NumberEntry::Read { at_least_zero: true };

fn plain(next: Stage) -> Outcome {
    Outcome { next, notice: None, work: None }
}

#[test]
fn invalid_source_choice_ends_conversion() {
    assert_eq!(on_text(Stage::Menu, "2"), plain(Stage::SourceUnit));
    assert_eq!(
        on_text(Stage::SourceUnit, "9"),
        Outcome { next: Stage::Another, notice: Some(Notice::SourceUnitRefused), work: None }
    );
    assert_eq!(
        on_text(Stage::SourceUnit, "nine"),
        Outcome { next: Stage::Another, notice: Some(Notice::SourceUnitRefused), work: None }
    );
}

#[test]
fn unreadable_figure_ends_conversion() {
    assert_eq!(
        on_number(Stage::Amount(Unit::Cf), NumberEntry::Unreadable),
        Outcome { next: Stage::Another, notice: Some(Notice::NotANumber), work: None }
    );
}

#[test]
fn conversion_takes_any_number() {
    assert_eq!(on_text(Stage::SourceUnit, "5"), plain(Stage::Amount(Unit::Ccf)));
    let done = Outcome { next: Stage::Another, notice: None, work: Some(Work::Convert(Unit::Ccf)) };
    assert_eq!(on_number(Stage::Amount(Unit::Ccf), ACCEPTED), done);
    assert_eq!(on_number(Stage::Amount(Unit::Ccf), NumberEntry::Read { at_least_zero: false }), done);
}

#[test]
fn corrected_reading_walk() {
    assert_eq!(on_text(Stage::Menu, "1"), plain(Stage::Pressure));
    assert_eq!(
        on_number(Stage::Pressure, ACCEPTED),
        Outcome { next: Stage::Reading, notice: None, work: Some(Work::KeepPressure) }
    );
    assert_eq!(
        on_number(Stage::Reading, ACCEPTED),
        Outcome { next: Stage::ReadingUnit, notice: None, work: Some(Work::KeepReading) }
    );
    assert_eq!(
        on_text(Stage::ReadingUnit, "1"),
        Outcome { next: Stage::Another, notice: None, work: Some(Work::Correct(VolumeUnit::Cf)) }
    );
}

#[test]
fn corrected_reading_of_50_cf_at_10_psi() {
    assert_eq!(
        on_text(Stage::ReadingUnit, "1"),
        Outcome { next: Stage::Another, notice: None, work: Some(Work::Correct(VolumeUnit::Cf)) }
    );
    let pressure_factor: f64 = (10.0 + 14.43) / 14.73;
    assert_eq!(format!("{:.6}", pressure_factor), "1.658520");
    let corrected_cf = pressure_factor * (50.0 * VolumeUnit::Cf.cubic_feet() as f64);
    assert_eq!(corrected_cf as i64, 82);
    assert_eq!((corrected_cf / VolumeUnit::Ccf.cubic_feet() as f64) as i64, 0);
    assert_eq!((corrected_cf / VolumeUnit::Mcf.cubic_feet() as f64) as i64, 0);
}

#[test]
fn refused_reading_entries_ask_again() {
    let again = |s: Stage| Outcome { next: s, notice: Some(Notice::NotNonNegative), work: None };
    assert_eq!(on_number(Stage::Pressure, NumberEntry::Unreadable), again(Stage::Pressure));
    assert_eq!(
        on_number(Stage::Pressure, NumberEntry::Read { at_least_zero: false }),
        again(Stage::Pressure)
    );
    assert_eq!(on_number(Stage::Reading, NumberEntry::Unreadable), again(Stage::Reading));
    assert_eq!(
        on_text(Stage::ReadingUnit, "4"),
        Outcome { next: Stage::ReadingUnit, notice: Some(Notice::VolumeUnitOutOfRange), work: None }
    );
    assert_eq!(
        on_text(Stage::ReadingUnit, "x"),
        Outcome { next: Stage::ReadingUnit, notice: Some(Notice::NotANumber), work: None }
    );
}

#[test]
fn refused_menu_entry_skips_to_question() {
    assert_eq!(
        on_text(Stage::Menu, "3"),
        Outcome { next: Stage::Another, notice: Some(Notice::TaskOutOfRange), work: None }
    );
    assert_eq!(
        on_text(Stage::Menu, "abc"),
        Outcome { next: Stage::Another, notice: Some(Notice::NotANumber), work: None }
    );
}

#[test]
fn question_ends_or_restarts() {
    assert_eq!(on_text(Stage::Another, "y"), plain(Stage::Menu));
    assert_eq!(on_text(Stage::Another, "Y"), plain(Stage::Menu));
    assert_eq!(on_text(Stage::Another, "n"), plain(Stage::Finished));
    assert_eq!(on_text(Stage::Another, "maybe"), plain(Stage::Finished));
}
