use cstr_core::CStr;
use mynewt_coap::{
    has_trailing_nul, lookup_encoder, str_eq, CoapContext, CoapError, EncoderHandle,
    ToBytesOptionalNull, COAP_KEY_SIZE, COAP_VALUE_SIZE,
};

#[test]
fn cstr_len_drops_trailing_null() {
    let ctx = CoapContext::new();
    assert_eq!(ctx.cstr_len(b"on\0"), 2);
    assert_eq!(ctx.cstr_len(b"\0"), 0);
    assert_eq!(ctx.cstr_len(b"a\0b\0"), 3);
}

#[test]
fn cstr_len_keeps_unterminated_length() {
    let ctx = CoapContext::new();
    assert_eq!(ctx.cstr_len(b"on"), 2);
    assert_eq!(ctx.cstr_len(b""), 0);
    assert_eq!(ctx.cstr_len(b"\0a"), 2);
}

#[test]
fn has_trailing_nul_checks_last_byte() {
    assert!(has_trailing_nul(b"x\0"));
    assert!(!has_trailing_nul(b"x"));
    assert!(!has_trailing_nul(b""));
}

#[test]
fn new_context_is_zeroed() {
    let ctx = CoapContext::default();
    assert_eq!(ctx.key_buffer(), &[0u8; COAP_KEY_SIZE][..]);
    assert_eq!(ctx.value_buffer(), &[0u8; COAP_VALUE_SIZE][..]);
}

#[test]
fn stage_key_temp() {
    let mut ctx = CoapContext::new();
    let start = ctx.key_buffer().as_ptr() as usize;
    let r = ctx.key_to_cstr(b"temp");
    assert_eq!(r, b"temp\0");
    let at = r.as_ptr() as usize;
    assert_eq!(at, start);
    assert_eq!(&ctx.key_buffer()[..5], b"temp\0");
    assert_eq!(ctx.cstr_len(b"temp"), 4);
}

#[test]
fn stage_key_copies_terminated_input() {
    let mut ctx = CoapContext::new();
    let input: &[u8] = b"on\0";
    let r = ctx.key_to_cstr(input);
    assert_eq!(r, b"on\0\0");
    assert!(!std::ptr::eq(r, input));
    assert_eq!(&ctx.key_buffer()[..4], b"on\0\0");
}

#[test]
fn stage_key_of_31_bytes_fits() {
    let mut ctx = CoapContext::new();
    let key = [b'k'; 31];
    let r = ctx.key_to_cstr(&key);
    assert_eq!(r.len(), 32);
    assert_eq!(&r[..31], &key[..]);
    assert_eq!(r[31], 0);
}

#[test]
fn stage_key_overwrites_only_prefix() {
    let mut ctx = CoapContext::new();
    ctx.key_to_cstr(b"abcdef");
    let r = ctx.key_to_cstr(b"xy");
    assert_eq!(r, b"xy\0");
    assert_eq!(&ctx.key_buffer()[..8], b"xy\0def\0\0");
}

#[test]
fn stage_key_leaves_value_buffer() {
    let mut ctx = CoapContext::new();
    ctx.value_to_cstr(b"v1");
    ctx.key_to_cstr(b"k1");
    assert_eq!(&ctx.value_buffer()[..3], b"v1\0");
}

#[test]
fn stage_value_terminated_is_zero_copy() {
    let mut ctx = CoapContext::new();
    let input: &[u8] = b"on\0";
    let r = ctx.value_to_cstr(input);
    assert!(std::ptr::eq(r, input));
    assert_eq!(r, b"on\0");
    assert_eq!(ctx.value_buffer(), &[0u8; COAP_VALUE_SIZE][..]);
}

#[test]
fn stage_value_unterminated_is_copied() {
    let mut ctx = CoapContext::new();
    let input: &[u8] = b"off";
    let start = ctx.value_buffer().as_ptr() as usize;
    let r = ctx.value_to_cstr(input);
    assert_eq!(r, b"off\0");
    assert!(!std::ptr::eq(r, input));
    let at = r.as_ptr() as usize;
    assert_eq!(at, start);
    assert_eq!(&ctx.value_buffer()[..4], b"off\0");
}

#[test]
fn stage_value_of_31_bytes_fits() {
    let mut ctx = CoapContext::new();
    let value = [b'v'; 31];
    let r = ctx.value_to_cstr(&value);
    assert_eq!(r.len(), 32);
    assert_eq!(&r[..31], &value[..]);
    assert_eq!(r[31], 0);
}

#[test]
fn stage_value_long_terminated_input_is_not_copied() {
    let mut ctx = CoapContext::new();
    let mut value = [b'v'; 40];
    value[39] = 0;
    let r = ctx.value_to_cstr(&value);
    assert_eq!(r.len(), 40);
    assert!(std::ptr::eq(r, &value[..]));
}

#[test]
fn stage_empty_value_gives_lone_null() {
    let mut ctx = CoapContext::new();
    let r = ctx.value_to_cstr(b"");
    assert_eq!(r, b"\0");
}

#[test]
fn encoder_resolves_root_map() {
    let ctx = CoapContext::new();
    assert_eq!(ctx.encoder("root", "_map"), EncoderHandle::RootMap);
    assert_eq!(ctx.encoder("root", "_map"), EncoderHandle::RootMap);
}

#[test]
fn encoder_resolves_values_with_any_suffix() {
    let ctx = CoapContext::new();
    assert_eq!(ctx.encoder("values", "_array"), EncoderHandle::Values);
    assert_eq!(ctx.encoder("values", "_map"), EncoderHandle::Values);
    assert_eq!(ctx.encoder("values", ""), EncoderHandle::Values);
    assert_ne!(ctx.encoder("values", "_map"), ctx.encoder("root", "_map"));
}

#[test]
fn lookup_encoder_rejects_unknown_names() {
    assert_eq!(lookup_encoder("root", "_array"), None);
    assert_eq!(lookup_encoder("temp", "_map"), None);
    assert_eq!(lookup_encoder("", ""), None);
    assert_eq!(lookup_encoder("root", "_map"), Some(EncoderHandle::RootMap));
    assert_eq!(lookup_encoder("values", "x"), Some(EncoderHandle::Values));
}

#[test]
fn new_encoder_gives_values_array() {
    let ctx = CoapContext::new();
    assert_eq!(ctx.new_encoder("values", "_array"), EncoderHandle::Values);
}

#[test]
fn global_encoder_is_global() {
    let ctx = CoapContext::new();
    assert_eq!(ctx.global_encoder(), EncoderHandle::Global);
}

#[test]
fn check_result_of_zero_is_no_op() {
    let ctx = CoapContext::new();
    ctx.check_result(0);
    assert_eq!(ctx.key_buffer(), &[0u8; COAP_KEY_SIZE][..]);
}

#[test]
fn fail_with_ok_is_no_op() {
    let mut ctx = CoapContext::new();
    ctx.key_to_cstr(b"k");
    ctx.fail(CoapError::OK);
    assert_eq!(&ctx.key_buffer()[..2], b"k\0");
}

#[test]
fn error_codes() {
    assert_eq!(CoapError::OK.code(), 0);
    assert_eq!(CoapError::VALUE_NOT_UINT.code(), 1);
    assert_ne!(CoapError::OK, CoapError::VALUE_NOT_UINT);
}

#[test]
fn str_eq_compares_characters() {
    assert!(str_eq("values", "values"));
    assert!(!str_eq("values", "value"));
    assert!(!str_eq("root", "roof"));
    assert!(str_eq("", ""));
}

#[test]
fn bytes_optional_nul_of_each_source() {
    let ctx = CoapContext::new();
    let raw: &[u8] = b"ab";
    assert_eq!(raw.to_bytes_optional_nul(), b"ab");
    assert_eq!("ab".to_bytes_optional_nul(), b"ab");
    let text: &str = "ab";
    assert_eq!((&text).to_bytes_optional_nul(), b"ab");
    let c = CStr::from_bytes_with_nul(b"ab\0").unwrap();
    let b = c.to_bytes_optional_nul();
    assert_eq!(b, b"ab\0");
    assert_eq!(ctx.cstr_len(b), 2);
}
