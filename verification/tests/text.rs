use rlox::text::{decimal_width, push_decimal, push_decimal_column, push_fill, Fill};

const SAMPLES: [usize; 16] = [
    0,
    1,
    9,
    10,
    11,
    99,
    100,
    999,
    1000,
    1234,
    9999,
    10000,
    65535,
    4294967295,
    usize::MAX - 1,
    usize::MAX,
];

#[test]
fn push_decimal_writes_the_numeral() {
    let mut out = String::new();
    push_decimal(&mut out, 0);
    assert_eq!(out, "0");
    push_decimal(&mut out, 1203);
    assert_eq!(out, "01203");
    for n in SAMPLES {
        let mut out = String::from("n=");
        push_decimal(&mut out, n);
        assert_eq!(out, format!("n={}", n));
    }
}

#[test]
fn push_decimal_writes_the_largest_number() {
    let mut out = String::new();
    push_decimal(&mut out, 18446744073709551615u64 as usize);
    assert_eq!(out, "18446744073709551615");
}

#[test]
fn decimal_width_counts_the_digits() {
    assert_eq!(decimal_width(0), 1);
    assert_eq!(decimal_width(9), 1);
    assert_eq!(decimal_width(10), 2);
    assert_eq!(decimal_width(99999), 5);
    assert_eq!(decimal_width(18446744073709551615u64 as usize), 20);
    for n in SAMPLES {
        assert_eq!(decimal_width(n), n.to_string().len());
    }
}

#[test]
fn push_fill_repeats_the_character() {
    let mut out = String::from("a");
    push_fill(&mut out, Fill::Zero, 0);
    assert_eq!(out, "a");
    push_fill(&mut out, Fill::Zero, 3);
    assert_eq!(out, "a000");
    push_fill(&mut out, Fill::Space, 2);
    assert_eq!(out, "a000  ");
}

#[test]
fn push_decimal_column_pads_with_zeros() {
    let mut out = String::new();
    push_decimal_column(&mut out, 7, 4, Fill::Zero);
    assert_eq!(out, "0007");
    for n in SAMPLES {
        let mut out = String::new();
        push_decimal_column(&mut out, n, 4, Fill::Zero);
        assert_eq!(out, format!("{:04}", n));
    }
}

#[test]
fn push_decimal_column_pads_with_spaces() {
    let mut out = String::new();
    push_decimal_column(&mut out, 123, 4, Fill::Space);
    assert_eq!(out, " 123");
    for n in SAMPLES {
        let mut out = String::new();
        push_decimal_column(&mut out, n, 4, Fill::Space);
        assert_eq!(out, format!("{:4}", n));
        assert_eq!(out, format!("{:>4}", n));
    }
}

#[test]
fn push_decimal_column_keeps_a_wide_number_whole() {
    let mut out = String::new();
    push_decimal_column(&mut out, 12345, 4, Fill::Zero);
    assert_eq!(out, "12345");
    let mut out = String::new();
    push_decimal_column(&mut out, 1234, 4, Fill::Space);
    assert_eq!(out, "1234");
    let mut out = String::new();
    push_decimal_column(&mut out, 5, 0, Fill::Space);
    assert_eq!(out, "5");
}
