use hermes::serial::Serial;

#[test]
fn zero_is_written_as_a_single_digit() {
    assert_eq!(Serial::zero().to_text(), "0");
}

#[test]
fn successor_counts_up_in_decimal() {
    let mut serial = Serial::zero();
    let mut texts = Vec::new();
    for _ in 0..12 {
        texts.push(serial.to_text());
        serial = serial.successor();
    }
    assert_eq!(texts, vec!["0", "1", "2", "3", "4", "5", "6", "7", "8", "9", "10", "11"]);
}

#[test]
fn successor_carries_over_a_run_of_nines() {
    let mut serial = Serial::zero();
    for _ in 0..999 {
        serial = serial.successor();
    }
    assert_eq!(serial.to_text(), "999");
    assert_eq!(serial.successor().to_text(), "1000");
}

#[test]
fn successor_leaves_its_argument_unchanged() {
    let one = Serial::zero().successor();
    let two = one.successor();
    assert_eq!(one.to_text(), "1");
    assert_eq!(two.to_text(), "2");
}

#[test]
fn equals_tells_numbers_apart() {
    let nine = {
        let mut serial = Serial::zero();
        for _ in 0..9 {
            serial = serial.successor();
        }
        serial
    };
    let ten = nine.successor();
    assert!(nine.equals(&nine.duplicate()));
    assert!(!nine.equals(&ten));
    assert!(!ten.equals(&nine));
    assert!(ten.equals(&nine.successor()));
}

#[test]
fn duplicate_is_the_same_number() {
    let mut serial = Serial::zero();
    for _ in 0..1234 {
        serial = serial.successor();
    }
    let copy = serial.duplicate();
    assert_eq!(copy, serial);
    assert_eq!(copy.to_text(), "1234");
}

#[test]
fn decimal_texts_of_distinct_numbers_differ() {
    let mut serial = Serial::zero();
    let mut seen = Vec::new();
    for _ in 0..300 {
        let text = serial.to_text();
        assert!(!seen.contains(&text));
        seen.push(text);
        serial = serial.successor();
    }
}
