use rithmic_rs::framing::{frame_message, frame_payload};
use rithmic_rs::text::decimal_string;

#[test]
fn a_frame_starts_with_the_big_endian_length() {
    assert_eq!(frame_message(&[7, 8, 9]), vec![0, 0, 0, 3, 7, 8, 9]);
    let long = vec![1u8; 300];
    let framed = frame_message(&long);
    assert_eq!(&framed[..4], &[0, 0, 1, 44]);
    assert_eq!(framed.len(), 304);
}

#[test]
fn a_frame_gives_back_its_payload() {
    let payload = vec![5u8, 4, 3, 2, 1];
    assert_eq!(frame_payload(&frame_message(&payload)).unwrap(), payload);
    assert_eq!(frame_payload(&frame_message(&[])).unwrap(), Vec::<u8>::new());
}

#[test]
fn decimal_rendering() {
    assert_eq!(decimal_string(0), "0");
    assert_eq!(decimal_string(42), "42");
    assert_eq!(decimal_string(u64::MAX), "18446744073709551615");
}
