use cycles_per_byte::decimal::decimal_string;
use cycles_per_byte::{CyclesPerByte, CyclesPerByteFormatter, ThroughputHint};

#[test]
fn decimal_string_writes_digits() {
    assert_eq!(decimal_string(0), "0");
    assert_eq!(decimal_string(9), "9");
    assert_eq!(decimal_string(10), "10");
    assert_eq!(decimal_string(12345), "12345");
    assert_eq!(decimal_string(1_000_000), "1000000");
    assert_eq!(decimal_string(u64::MAX), "18446744073709551615");
}

#[test]
fn value_is_shown_in_cycles_with_four_places() {
    let f = CyclesPerByte.formatter();
    assert_eq!(f.value_unit(), "cycles");
    let shown = format!("{:.4} {}", 12345.6789_f64, f.value_unit());
    assert_eq!(shown, "12345.6789 cycles");
}

#[test]
fn bytes_throughput_divides_and_shows_cpb() {
    let f = CyclesPerByteFormatter;
    let t = ThroughputHint::Bytes(16);
    assert_eq!(f.throughput_divisor(&t), Some(16));
    assert_eq!(f.throughput_unit(&t), "cpb");
    let value = 320.0_f64 / f.throughput_divisor(&t).unwrap() as f64;
    assert_eq!(format!("{:.4} {}", value, f.throughput_unit(&t)), "20.0000 cpb");
}

#[test]
fn elements_throughput_keeps_value_and_names_count() {
    let f = CyclesPerByteFormatter;
    let t = ThroughputHint::Elements(10);
    assert_eq!(f.throughput_divisor(&t), None);
    assert_eq!(f.throughput_unit(&t), "cycles/10");
    let shown = format!("{:.4} {}", 500.0_f64, f.throughput_unit(&t));
    assert_eq!(shown, "500.0000 cycles/10");
}

#[test]
fn elements_unit_writes_large_counts() {
    let f = CyclesPerByteFormatter;
    assert_eq!(f.throughput_unit(&ThroughputHint::Elements(0)), "cycles/0");
    assert_eq!(
        f.throughput_unit(&ThroughputHint::Elements(4096)),
        "cycles/4096"
    );
}

#[test]
fn decimal_bytes_throughput_is_marked() {
    let f = CyclesPerByteFormatter;
    let t = ThroughputHint::BytesDecimal(1000);
    assert_eq!(f.throughput_divisor(&t), Some(1000));
    assert_eq!(f.throughput_unit(&t), "cpb (decimal)");
    assert_eq!(f.scale_divisor(&t), 1000);
    assert_eq!(f.scale_label(&t), "cpb (decimal)");
}

#[test]
fn scale_throughputs_for_bytes_divides_each_value() {
    let f = CyclesPerByteFormatter;
    let t = ThroughputHint::Bytes(4);
    assert_eq!(f.scale_divisor(&t), 4);
    assert_eq!(f.scale_label(&t), "cpb");
    let mut values = vec![8.0_f64, 16.0];
    let d = f.scale_divisor(&t) as f64;
    for v in values.iter_mut() {
        *v /= d;
    }
    assert_eq!(values, vec![2.0, 4.0]);
}

#[test]
fn scale_throughputs_for_elements_uses_short_label() {
    let f = CyclesPerByteFormatter;
    let t = ThroughputHint::Elements(7);
    assert_eq!(f.scale_divisor(&t), 7);
    assert_eq!(f.scale_label(&t), "c/e");
}

#[test]
fn machine_output_stays_in_cycles() {
    let f = CyclesPerByteFormatter;
    assert_eq!(f.machine_unit(), "cycles");
}

#[test]
fn unscaled_summary_is_in_cycles() {
    let f = CyclesPerByteFormatter;
    assert_eq!(f.value_unit(), "cycles");
}
