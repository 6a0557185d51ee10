use locker::{code_field_or_unknown, sorted_unique_codes};

fn code(s: &str) -> u16 {
    let b = s.as_bytes();
    u16::from_be_bytes([b[0], b[1]])
}

#[test]
fn empty_code_column_is_unknown() {
    assert_eq!(code_field_or_unknown(""), "UN");
    assert_eq!(code_field_or_unknown("DE"), "DE");
}

#[test]
fn codes_are_sorted_and_deduplicated() {
    let input = vec![code("US"), code("DE"), code("UN"), code("DE"), code("AF"), code("US")];
    let out = sorted_unique_codes(&input);
    assert_eq!(out, vec![code("AF"), code("DE"), code("UN"), code("US")]);
    assert_eq!(sorted_unique_codes(&vec![]), Vec::<u16>::new());
    assert_eq!(sorted_unique_codes(&vec![7, 7, 7]), vec![7]);
    assert_eq!(sorted_unique_codes(&vec![u16::MAX, 0, 1]), vec![0, 1, u16::MAX]);
}
