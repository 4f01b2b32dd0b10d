use base64::Engine;
use bili_ticker_buy::token::{interleave_zeros, CTokenGenerator};

fn decode(token: &str) -> Vec<u8> {
    base64::engine::general_purpose::STANDARD.decode(token).expect("valid base64")
}

#[test]
fn new_generator_starts_at_zero() {
    let g = CTokenGenerator::new(1000, -5, 5000);
    assert_eq!(g.ticket_collection_t, 1000);
    assert_eq!(g.time_offset, -5);
    assert_eq!(g.stay_time, 5000);
    assert_eq!(g.token_buffer(), vec![0u8; 16]);
}

#[test]
fn discovery_layout_is_exact() {
    let mut g = CTokenGenerator::new(1000, 0, 5000);
    g.refresh_fields(false, 0, 1500, 50, 7);
    assert_eq!(
        g.token_buffer(),
        vec![7, 0, 2, 0, 255, 0, 255, 255, 0x13, 0x88, 0, 0, 255, 0, 0, 255]
    );
}

#[test]
fn submission_layout_is_exact() {
    let mut g = CTokenGenerator::new(1000, 0, 5000);
    g.refresh_fields(true, 1100, 2999, 1, 0);
    assert_eq!(g.time_difference, 100);
    assert_eq!(g.timer, 5100);
    assert_eq!(
        g.token_buffer(),
        vec![255, 0, 2, 0, 255, 25, 255, 255, 0x13, 0xEC, 0x00, 0x64, 255, 0, 0, 255]
    );
}

#[test]
fn submission_uses_time_offset() {
    let mut g = CTokenGenerator::new(1000, 50, 0);
    g.refresh_fields(true, 1100, 1000, 1, 0);
    assert_eq!(g.time_difference, 150);
    assert_eq!(g.timer, 150);
}

#[test]
fn wide_fields_saturate() {
    let mut g = CTokenGenerator::new(0, 0, 70_000);
    g.refresh_fields(false, 0, 1000, 1, 9);
    let b = g.token_buffer();
    assert_eq!(b[8], 0xFF);
    assert_eq!(b[9], 0xFF);
    g.touch_event = 300;
    assert_eq!(g.token_buffer()[0], 255);
}

#[test]
fn time_difference_never_negative() {
    let mut g = CTokenGenerator::new(5000, 0, 10);
    g.refresh_fields(true, 100, 1000, 1, 0);
    assert_eq!(g.time_difference, 0);
    assert_eq!(g.timer, 10);
}

#[test]
fn interleave_puts_zero_after_each_byte() {
    assert_eq!(interleave_zeros(&vec![1, 2, 3]), vec![1, 0, 2, 0, 3, 0]);
    assert_eq!(interleave_zeros(&vec![]), Vec::<u8>::new());
}

#[test]
fn encode_is_base64_of_interleaved_buffer() {
    let mut g = CTokenGenerator::new(1000, 0, 5000);
    g.refresh_fields(false, 0, 1500, 50, 7);
    let token = g.encode();
    assert_eq!(token.len(), 44);
    assert_eq!(decode(&token), interleave_zeros(&g.token_buffer()));
    assert_eq!(g.encode(), token);
}

#[test]
fn generated_discovery_token_decodes_to_32_bytes() {
    let mut g = CTokenGenerator::new(1000, 0, 5000);
    let token = g.generate_ctoken(false);
    let bytes = decode(&token);
    assert_eq!(bytes.len(), 32);
    for i in (1..32).step_by(2) {
        assert_eq!(bytes[i], 0);
    }
    assert!((3..10).contains(&bytes[0]));
    assert_eq!(bytes[4], 2);
    assert!((1000..3000).contains(&g.screen_height));
    assert!((1..100).contains(&g.screen_avail_width));
    assert_eq!(g.time_difference, 0);
    assert_eq!(g.timer, 5000);
}

#[test]
fn generated_tokens_keep_fixed_offsets() {
    let mut g = CTokenGenerator::new(1000, 0, 5000);
    let a = decode(&g.generate_ctoken(true));
    let b = decode(&g.generate_ctoken(true));
    for i in [0usize, 2, 4, 6, 7, 12, 15] {
        assert_eq!(a[2 * i], b[2 * i]);
    }
    assert_eq!(a[0], 255);
    assert_eq!(a[10], 25);
    assert_eq!(g.page_unload, 25);
}
