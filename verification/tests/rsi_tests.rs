use rsi::errors::IndicatorError;
use rsi::ratio::{Ratio, RelativeStrength};
use rsi::rsi::{
    calculate_final_rs, calculate_final_rsi, calculate_price_change, compute_rsi,
    period_rolling_mean, split_gain_loss, RelativeStrengthIndex,
};
use rsi::table::{resolve_columns, Column, ColumnConfig, ColumnNames, Series, Table};

fn ratio(num: i128, den: i128) -> Ratio {
    Ratio { num, den }
}

/// The fixed scenario series, as fixed-point prices scaled by 100:
/// 44, 44.25, 44.5, 43.75, 44.5, 44.75, 44, 44.25, 45, 45.5.
fn scenario_prices() -> Vec<i64> {
    vec![4400, 4425, 4450, 4375, 4450, 4475, 4400, 4425, 4500, 4550]
}

fn scenario_series() -> Series {
    let price = scenario_prices();
    let time: Vec<i64> = (0..price.len() as i64).collect();
    Series { time, price }
}

#[test]
fn known_scenario_price_change_and_gain_loss() {
    let out = compute_rsi(&scenario_series(), 14).unwrap();
    assert_eq!(out.price_change[0], 0);
    assert_eq!(out.price_change[1], 25);
    assert_eq!(out.gain[1], 25);
    assert_eq!(out.loss[1], 0);
    assert_eq!(out.price_change[3], -75);
    assert_eq!(out.gain[3], 0);
    assert_eq!(out.loss[3], 75);
}

#[test]
fn known_scenario_rolling_averages() {
    let out = compute_rsi(&scenario_series(), 14).unwrap();
    // Window shrinks: row i averages rows 0..=i while i + 1 < period.
    // Cumulative gains: 0, 25, 50, 50, 125, 150, 150, 175, 250, 300.
    // Cumulative losses: 0, 0, 0, 75, 75, 75, 150, 150, 150, 150.
    assert_eq!(out.gain_avg[0], ratio(0, 1));
    assert_eq!(out.gain_avg[3], ratio(50, 4));
    assert_eq!(out.gain_avg[9], ratio(300, 10));
    assert_eq!(out.loss_avg[3], ratio(75, 4));
    assert_eq!(out.loss_avg[9], ratio(150, 10));
}

#[test]
fn known_scenario_rs_and_rsi() {
    let out = compute_rsi(&scenario_series(), 14).unwrap();
    assert_eq!(out.rs[0], RelativeStrength::Finite(ratio(0, 1)));
    assert_eq!(out.rs[1], RelativeStrength::MaxStrength);
    assert_eq!(out.rs[2], RelativeStrength::MaxStrength);
    assert_eq!(out.rs[3], RelativeStrength::Finite(ratio(50, 75)));
    assert_eq!(out.rs[9], RelativeStrength::Finite(ratio(300, 150)));

    // RSI = 100 * g / (g + l) over the window sums, exactly.
    assert_eq!(out.rsi[0], ratio(0, 1));
    assert_eq!(out.rsi[1], ratio(100, 1));
    assert_eq!(out.rsi[3], ratio(5000, 125));
    // Hand-computed values: rs[3] = 2/3, rsi[3] = 100 - 100/(1 + 2/3) = 40.
    assert_eq!(out.rsi[3].num, 40 * out.rsi[3].den);
    // rs[9] = 2, rsi[9] = 100 - 100/3 = 200/3.
    assert_eq!(out.rsi[9], ratio(30000, 450));
    assert_eq!(3 * out.rsi[9].num, 200 * out.rsi[9].den);
}

#[test]
fn row_count_preserved() {
    let series = scenario_series();
    let n = series.price.len();
    let out = compute_rsi(&series, 14).unwrap();
    assert_eq!(out.time.len(), n);
    assert_eq!(out.price.len(), n);
    assert_eq!(out.price_change.len(), n);
    assert_eq!(out.gain.len(), n);
    assert_eq!(out.loss.len(), n);
    assert_eq!(out.gain_avg.len(), n);
    assert_eq!(out.loss_avg.len(), n);
    assert_eq!(out.rs.len(), n);
    assert_eq!(out.rsi.len(), n);
}

#[test]
fn first_price_change_is_zero() {
    let change = calculate_price_change(&vec![500, 900, 700]);
    assert_eq!(change[0], 0);
    assert_eq!(change, vec![0, 400, -200]);
}

#[test]
fn zero_price_forces_zero_change() {
    // A zero-filled placeholder row must not produce a spike.
    let change = calculate_price_change(&vec![100, 0, 120]);
    assert_eq!(change, vec![0, 0, 120]);
}

#[test]
fn gain_loss_decomposition_is_exact() {
    let change = vec![0, 25, -75, 0, 120, -1, 3];
    let (gain, loss) = split_gain_loss(&change);
    for i in 0..change.len() {
        assert!(gain[i] >= 0);
        assert!(loss[i] >= 0);
        assert_eq!(gain[i] - loss[i], change[i]);
    }
    assert_eq!(gain, vec![0, 25, 0, 0, 120, 0, 3]);
    assert_eq!(loss, vec![0, 0, 75, 0, 0, 1, 0]);
}

#[test]
fn rolling_mean_shrinking_then_sliding_window() {
    let values = vec![10, 20, 30, 40];
    let avg = period_rolling_mean(&values, 2).unwrap();
    assert_eq!(avg[0], ratio(10, 1));
    assert_eq!(avg[1], ratio(30, 2));
    assert_eq!(avg[2], ratio(50, 2));
    assert_eq!(avg[3], ratio(70, 2));
}

#[test]
fn rolling_mean_rejects_zero_period() {
    match period_rolling_mean(&vec![1, 2, 3], 0) {
        Err(IndicatorError::InvalidPeriod { period }) => assert_eq!(period, 0),
        _ => panic!("a period below one must be rejected"),
    }
}

#[test]
fn rs_zero_loss_policy() {
    let gain_avg = vec![ratio(25, 2), ratio(0, 2), ratio(30, 2)];
    let loss_avg = vec![ratio(0, 2), ratio(0, 2), ratio(15, 2)];
    let rs = calculate_final_rs(&gain_avg, &loss_avg);
    assert_eq!(rs[0], RelativeStrength::MaxStrength);
    assert_eq!(rs[1], RelativeStrength::Finite(ratio(0, 1)));
    assert_eq!(rs[2], RelativeStrength::Finite(ratio(30, 15)));
}

#[test]
fn rsi_formula_values() {
    let rs = vec![
        RelativeStrength::MaxStrength,
        RelativeStrength::Finite(ratio(0, 1)),
        RelativeStrength::Finite(ratio(1, 1)),
        RelativeStrength::Finite(ratio(50, 75)),
    ];
    let rsi = calculate_final_rsi(&rs);
    assert_eq!(rsi[0], ratio(100, 1));
    assert_eq!(rsi[1], ratio(0, 1));
    assert_eq!(rsi[2], ratio(100, 2));
    assert_eq!(rsi[3], ratio(5000, 125));
}

#[test]
fn rsi_within_bounds() {
    let price = vec![4400, 4425, 0, 4375, 4450, -4475, 4400, 4425, 4500, 4550];
    let time: Vec<i64> = (0..price.len() as i64).collect();
    let out = compute_rsi(&Series { time, price }, 3).unwrap();
    for r in &out.rsi {
        assert!(r.den >= 1);
        assert!(r.num >= 0);
        assert!(r.num <= 100 * r.den);
    }
}

#[test]
fn pipeline_is_idempotent() {
    let out1 = compute_rsi(&scenario_series(), 14).unwrap();
    let out2 = compute_rsi(&scenario_series(), 14).unwrap();
    assert_eq!(out1.time, out2.time);
    assert_eq!(out1.price, out2.price);
    assert_eq!(out1.price_change, out2.price_change);
    assert_eq!(out1.gain, out2.gain);
    assert_eq!(out1.loss, out2.loss);
    assert_eq!(out1.gain_avg, out2.gain_avg);
    assert_eq!(out1.loss_avg, out2.loss_avg);
    assert_eq!(out1.rs, out2.rs);
    assert_eq!(out1.rsi, out2.rsi);
}

#[test]
fn unit_period_degenerate_window() {
    let out = compute_rsi(&scenario_series(), 1).unwrap();
    for i in 0..out.gain.len() {
        assert_eq!(out.gain_avg[i], ratio(out.gain[i] as i128, 1));
        assert_eq!(out.loss_avg[i], ratio(out.loss[i] as i128, 1));
    }
}

#[test]
fn zero_loss_rows_give_rsi_100() {
    // Strictly increasing prices: zero loss in every window, so RSI is
    // exactly 100 on every row after the first (row 0 is flat by
    // definition and gives 0).
    let price = vec![1000, 2000, 3000, 4000, 5000, 6000];
    let time: Vec<i64> = (0..price.len() as i64).collect();
    let out = compute_rsi(&Series { time, price }, 3).unwrap();
    assert_eq!(out.rsi[0], ratio(0, 1));
    for i in 1..out.rsi.len() {
        assert_eq!(out.rs[i], RelativeStrength::MaxStrength);
        assert_eq!(out.rsi[i], ratio(100, 1));
    }
}

#[test]
fn flat_series_gives_zero_rs_and_rsi() {
    let price = vec![5000, 5000, 5000, 5000];
    let time: Vec<i64> = (0..price.len() as i64).collect();
    let out = compute_rsi(&Series { time, price }, 14).unwrap();
    for i in 0..out.rsi.len() {
        assert_eq!(out.rs[i], RelativeStrength::Finite(ratio(0, 1)));
        assert_eq!(out.rsi[i], ratio(0, 1));
    }
}

#[test]
fn empty_series_is_rejected() {
    let series = Series { time: vec![1], price: vec![4400] };
    match compute_rsi(&series, 14) {
        Err(IndicatorError::EmptySeriesError { rows }) => assert_eq!(rows, 1),
        _ => panic!("a single-row series must be rejected"),
    }
    let empty = Series { time: vec![], price: vec![] };
    match compute_rsi(&empty, 14) {
        Err(IndicatorError::EmptySeriesError { rows }) => assert_eq!(rows, 0),
        _ => panic!("an empty series must be rejected"),
    }
}

#[test]
fn invalid_period_is_rejected() {
    match compute_rsi(&scenario_series(), 0) {
        Err(IndicatorError::InvalidPeriod { period }) => assert_eq!(period, 0),
        _ => panic!("a period below one must be rejected"),
    }
}

#[test]
fn resolve_columns_projects_and_renames() {
    let table = Table {
        columns: vec![
            Column { name: "volume".to_string(), values: vec![7, 8] },
            Column { name: "time".to_string(), values: vec![1, 2] },
            Column { name: "close".to_string(), values: vec![4400, 4425] },
        ],
    };
    let series = resolve_columns(&table, &ColumnConfig::default()).unwrap();
    assert_eq!(series.time, vec![1, 2]);
    assert_eq!(series.price, vec![4400, 4425]);
}

#[test]
fn resolve_columns_honours_configured_names() {
    let table = Table {
        columns: vec![
            Column { name: "stamp".to_string(), values: vec![1, 2] },
            Column { name: "last".to_string(), values: vec![4400, 4425] },
        ],
    };
    let config = ColumnConfig { time_name: "stamp".to_string(), close_name: "last".to_string() };
    let series = resolve_columns(&table, &config).unwrap();
    assert_eq!(series.time, vec![1, 2]);
    assert_eq!(series.price, vec![4400, 4425]);
}

#[test]
fn missing_columns_give_schema_errors() {
    let table = Table {
        columns: vec![Column { name: "close".to_string(), values: vec![4400, 4425] }],
    };
    match resolve_columns(&table, &ColumnConfig::default()) {
        Err(IndicatorError::SchemaError { column }) => assert_eq!(column, "time"),
        _ => panic!("a missing time column must be a schema error"),
    }
    let table = Table {
        columns: vec![Column { name: "time".to_string(), values: vec![1, 2] }],
    };
    match resolve_columns(&table, &ColumnConfig::default()) {
        Err(IndicatorError::SchemaError { column }) => assert_eq!(column, "close"),
        _ => panic!("a missing close column must be a schema error"),
    }
}

#[test]
fn default_column_names() {
    let config = ColumnConfig::default();
    assert_eq!(config.time_name, "time");
    assert_eq!(config.close_name, "close");
    assert_eq!(ColumnNames::Time.default_name(), "time");
    assert_eq!(ColumnNames::Close.default_name(), "close");
}

#[test]
fn relative_strength_index_end_to_end() {
    let price = scenario_prices();
    let time: Vec<i64> = (0..price.len() as i64).collect();
    let table = Table {
        columns: vec![
            Column { name: "time".to_string(), values: time },
            Column { name: "close".to_string(), values: price },
        ],
    };
    let indicator = RelativeStrengthIndex::new(&table, &ColumnConfig::default(), 14).unwrap();
    assert_eq!(indicator.period, 14);
    assert_eq!(indicator.table.rsi[3], ratio(5000, 125));
    assert_eq!(indicator.table.rsi[1], ratio(100, 1));
}
