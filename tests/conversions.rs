use conversion_tool::conversion::{conversion_factor, Factor};
use conversion_tool::units::Unit;

fn apply(f: Factor, value: f64) -> f64 {
    match f {
        Factor::Times { numerator, denominator } => value * (numerator as f64 / denominator as f64),
        Factor::Over { divisor } => value / divisor as f64,
    }
}

#[test]
fn convert_100_ccf() {
    assert_eq!(conversion_factor(Unit::Ccf, Unit::Cf), Factor::Times { numerator: 100, denominator: 1 });
    assert_eq!(conversion_factor(Unit::Ccf, Unit::Mcf), Factor::Over { divisor: 10 });
    assert_eq!(apply(conversion_factor(Unit::Ccf, Unit::Cf), 100.0), 10000.0);
    assert_eq!(apply(conversion_factor(Unit::Ccf, Unit::Mcf), 100.0), 10.0);
    assert_eq!(apply(conversion_factor(Unit::Ccf, Unit::Ccf), 100.0), 100.0);
    assert_eq!(apply(conversion_factor(Unit::Ccf, Unit::Btu), 100.0), 10380000.0);
}

#[test]
fn btu_mmbtu_round_trip() {
    for x in [1.0, 12345.678, 0.001, 9.87e9, -42.5] {
        let there = apply(conversion_factor(Unit::Btu, Unit::Mmbtu), x);
        let back = apply(conversion_factor(Unit::Mmbtu, Unit::Btu), there);
        assert!(((back - x) / x).abs() <= 1e-6, "{} {}", x, back);
    }
}

#[test]
fn factors_match_the_table_literals() {
    let table: [[f64; 6]; 6] = [
        [1.0, 1.0 / 1000.0, 1.0 / 1000000.0, 0.0009634, 0.09634, 0.9634],
        [1000.0, 1.0, 1.0 / 1000.0, 0.9634, 96.34, 963.4],
        [1000000.0, 1000.0, 1.0, 963.4, 96340.0, 963400.0],
        [1038.0, 1.038, 0.001038, 1.0, 1.0 / 100.0, 1.0 / 1000.0],
        [103800.0, 103.8, 0.1038, 100.0, 1.0, 1.0 / 10.0],
        [1038000.0, 1038.0, 1.038, 1000.0, 10.0, 1.0],
    ];
    let units = Unit::listing();
    for (i, from) in units.iter().enumerate() {
        for (j, to) in units.iter().enumerate() {
            let f = conversion_factor(*from, *to);
            let expected = table[i][j];
            match f {
                Factor::Times { numerator, denominator } => {
                    assert_eq!(numerator as f64 / denominator as f64, expected, "{:?} {:?}", from, to)
                }
                Factor::Over { divisor } => {
                    assert_eq!(1.0 / divisor as f64, expected, "{:?} {:?}", from, to)
                }
            }
        }
    }
}

#[test]
fn divisions_only_towards_larger_units_of_one_kind() {
    assert_eq!(conversion_factor(Unit::Btu, Unit::Mbtu), Factor::Over { divisor: 1000 });
    assert_eq!(conversion_factor(Unit::Btu, Unit::Mmbtu), Factor::Over { divisor: 1000000 });
    assert_eq!(conversion_factor(Unit::Mbtu, Unit::Mmbtu), Factor::Over { divisor: 1000 });
    assert_eq!(conversion_factor(Unit::Cf, Unit::Ccf), Factor::Over { divisor: 100 });
    assert_eq!(conversion_factor(Unit::Cf, Unit::Mcf), Factor::Over { divisor: 1000 });
    assert_eq!(conversion_factor(Unit::Mmbtu, Unit::Btu), Factor::Times { numerator: 1000000, denominator: 1 });
    assert_eq!(
        conversion_factor(Unit::Btu, Unit::Cf),
        Factor::Times { numerator: 9634, denominator: 10000000 }
    );
    assert_eq!(
        conversion_factor(Unit::Cf, Unit::Mmbtu),
        Factor::Times { numerator: 1038, denominator: 1000000 }
    );
}

#[test]
fn figure_of_mcf_in_every_unit() {
    let got: Vec<f64> = Unit::listing()
        .into_iter()
        .map(|to| apply(conversion_factor(Unit::Mcf, to), 2.0))
        .collect();
    assert_eq!(got, vec![2076000.0, 2076.0, 2.076, 2000.0, 20.0, 2.0]);
}
