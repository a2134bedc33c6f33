use hall_angle::digits::u64_to_dec;
use hall_angle::display::{csv_header, csv_path, csv_record, filename_candidate, probe_step, ProbeStep};

#[test]
fn decimal_rendering_is_canonical() {
    assert_eq!(u64_to_dec(0), "0");
    assert_eq!(u64_to_dec(7), "7");
    assert_eq!(u64_to_dec(10), "10");
    assert_eq!(u64_to_dec(90), "90");
    assert_eq!(u64_to_dec(12345), "12345");
    assert_eq!(u64_to_dec(u64::MAX), "18446744073709551615");
}

#[test]
fn header_line_names_the_columns() {
    assert_eq!(csv_header(), "v0,v,theta");
}

#[test]
fn record_line_joins_with_commas() {
    assert_eq!(csv_record("10", "5", "60"), "10,5,60");
    assert_eq!(csv_record("", "", ""), ",,");
    let theta = format!("{}", (5.0f64 / 10.0).acos().to_degrees());
    assert_eq!(csv_record("10", "5", &theta), format!("10,5,{}", theta));
}

#[test]
fn path_appends_extension() {
    assert_eq!(csv_path("log"), "log.csv");
    assert_eq!(csv_path("hall_angles_2"), "hall_angles_2.csv");
    assert_eq!(csv_path(""), ".csv");
}

#[test]
fn filename_candidates_count_up() {
    assert_eq!(filename_candidate(1), "hall_angles_1");
    assert_eq!(filename_candidate(2), "hall_angles_2");
    assert_eq!(filename_candidate(907), "hall_angles_907");
}

#[test]
fn probe_takes_free_index_or_advances() {
    match probe_step(3, false) {
        ProbeStep::Take { stem } => assert_eq!(stem, "hall_angles_3"),
        ProbeStep::Next { .. } => panic!("a free index must be taken"),
    }
    match probe_step(3, true) {
        ProbeStep::Next { i } => assert_eq!(i, 4),
        ProbeStep::Take { .. } => panic!("a used index must be skipped"),
    }
}
