use virtual_universe::text::{c_string, log_bytes, log_capacity, log_string};

#[test]
fn c_string_appends_one_nul() {
    assert_eq!(c_string("u_model"), Some(b"u_model\0".to_vec()));
}

#[test]
fn c_string_of_empty_text_is_a_lone_nul() {
    assert_eq!(c_string(""), Some(vec![0u8]));
}

#[test]
fn c_string_refuses_an_inner_nul() {
    assert_eq!(c_string("void main() {}\0"), None);
    assert_eq!(c_string("a\0b"), None);
}

#[test]
fn c_string_keeps_multibyte_text() {
    assert_eq!(c_string("é"), Some(vec![0xC3, 0xA9, 0]));
}

#[test]
fn log_bytes_stop_at_the_first_nul() {
    assert_eq!(log_bytes(&b"error\0junk".to_vec()), b"error".to_vec());
    assert_eq!(log_bytes(&b"no terminator".to_vec()), b"no terminator".to_vec());
    assert_eq!(log_bytes(&vec![0u8, 65]), Vec::<u8>::new());
    assert_eq!(log_bytes(&Vec::new()), Vec::<u8>::new());
}

#[test]
fn log_string_decodes_utf8() {
    assert_eq!(log_string(&b"0:1(1): error\0".to_vec()), Some("0:1(1): error".to_string()));
    assert_eq!(log_string(&vec![0xC3, 0xA9, 0]), Some("é".to_string()));
}

#[test]
fn log_string_refuses_invalid_utf8() {
    assert_eq!(log_string(&vec![0xFF, 0xFE, 0]), None);
    assert_eq!(log_string(&vec![b'a', 0xC3, 0]), None);
}

#[test]
fn log_string_ignores_bytes_after_the_nul() {
    assert_eq!(log_string(&vec![b'o', b'k', 0, 0xFF]), Some("ok".to_string()));
}

#[test]
fn log_capacity_follows_the_reported_length() {
    assert_eq!(log_capacity(12), 12);
    assert_eq!(log_capacity(0), 0);
    assert_eq!(log_capacity(-1), 0);
    assert_eq!(log_capacity(i32::MIN), 0);
}
