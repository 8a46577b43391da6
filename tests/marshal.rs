use rust_host_func::marshal::{
    append_processed, double_all, process_complex_types, processed_scalar, wrapping_sum,
};
use rust_host_func::process_complex_types_json;

#[test]
fn scalar_adds_ten() {
    assert_eq!(processed_scalar(5), 15);
    assert_eq!(processed_scalar(0), 10);
}

#[test]
fn scalar_wraps_at_256() {
    assert_eq!(processed_scalar(250), 4);
    assert_eq!(processed_scalar(255), 9);
    assert_eq!(processed_scalar(246), 0);
}

#[test]
fn doubling_keeps_order_and_length() {
    let v = vec![1, -2, 0, 7];
    assert_eq!(double_all(&v), vec![2, -4, 0, 14]);
    assert_eq!(double_all(&vec![]), Vec::<i32>::new());
}

#[test]
fn doubling_wraps_on_overflow() {
    assert_eq!(double_all(&vec![i32::MAX, i32::MIN]), vec![-2, 0]);
}

#[test]
fn sum_of_sequence() {
    assert_eq!(wrapping_sum(&vec![1, 2, 3]), 6);
    assert_eq!(wrapping_sum(&vec![]), 0);
    assert_eq!(wrapping_sum(&vec![-5, 3]), -2);
}

#[test]
fn sum_wraps_on_overflow() {
    assert_eq!(wrapping_sum(&vec![i32::MAX, 1]), i32::MIN);
    assert_eq!(wrapping_sum(&vec![i32::MIN, -1]), i32::MAX);
}

#[test]
fn appended_text_example() {
    assert_eq!(append_processed("abc"), "abc processed");
    assert_eq!(append_processed(""), " processed");
}

#[test]
fn derived_values() {
    let r = process_complex_types(5, &vec![1, 2, 3], "hi", &vec![1, 2, 3]);
    assert_eq!(r.processed_u8, 15);
    assert_eq!(r.bytes_len, 3);
    assert_eq!(r.appended_string, "hi processed");
    assert_eq!(r.vector_sum, 6);
    assert_eq!(r.reversed_string, "ih");
    assert_eq!(r.doubled_vector, vec![2, 4, 6]);
}

#[test]
fn payload_example() {
    let p = process_complex_types_json(5, vec![1, 2, 3], "hi".to_string(), vec![1, 2, 3]);
    assert_eq!(
        p,
        "{\"processed_u8\": 15, \"bytes_len\": 3, \"appended_string\": \"hi processed\", \
         \"vector_sum\": 6, \"reversed_string\": \"ih\", \"doubled_vector\": [2, 4, 6]}"
    );
}

#[test]
fn payload_empty_inputs() {
    let p = process_complex_types_json(250, vec![], String::new(), vec![]);
    assert_eq!(
        p,
        "{\"processed_u8\": 4, \"bytes_len\": 0, \"appended_string\": \" processed\", \
         \"vector_sum\": 0, \"reversed_string\": \"\", \"doubled_vector\": []}"
    );
}

#[test]
fn payload_escapes_strings_and_negatives() {
    let p = process_complex_types_json(0, vec![9], "a\"\\\n\u{1}".to_string(), vec![-3, 10]);
    assert_eq!(
        p,
        "{\"processed_u8\": 10, \"bytes_len\": 1, \"appended_string\": \"a\\\"\\\\\\n\\u0001 processed\", \
         \"vector_sum\": 7, \"reversed_string\": \"\\u0001\\n\\\\\\\"a\", \"doubled_vector\": [-6, 20]}"
    );
}

#[test]
fn payload_min_sum() {
    let p = process_complex_types_json(1, vec![], "x".to_string(), vec![i32::MIN]);
    assert!(p.contains("\"vector_sum\": -2147483648"));
    assert!(p.contains("\"doubled_vector\": [0]"));
}
