use macrodeck::config::action::{u16_from_le, ButtonFunction, ChangePage, PressKeys};
use macrodeck::util::bytes_before_zero;
use macrodeck::config::button::{decode_slot, Button};

fn button(primary: &[u8], secondary: &[u8]) -> Button {
    let mut raw_data = [0u8; 128];
    raw_data[..primary.len()].copy_from_slice(primary);
    raw_data[64..64 + secondary.len()].copy_from_slice(secondary);
    Button { raw_image: [0u8; 1025], raw_data }
}

fn kind(f: &ButtonFunction) -> u8 {
    match f {
        ButtonFunction::PressKeys(_) => 0,
        ButtonFunction::ChangePage(_) => 1,
        ButtonFunction::NoFunction => 2,
        ButtonFunction::PressSpecialKey => 3,
        ButtonFunction::SendText => 4,
        ButtonFunction::SetSetting => 5,
        ButtonFunction::CommunicateToHost => 6,
    }
}

#[test]
fn every_mode_code_decodes_to_its_function() {
    let payload = [0u8; 63];
    for code in 0u8..16 {
        let expected = if code <= 6 { code } else { 2 };
        assert_eq!(kind(&decode_slot(code, &payload)), expected, "code {}", code);
    }
}

#[test]
fn mode_decoding_ignores_the_high_nibble() {
    let mut payload = [0u8; 63];
    payload[0] = 7;
    payload[1] = 1;
    for m in 0u8..=239 {
        let low = decode_slot(m, &payload);
        let high = decode_slot(m + 16, &payload);
        assert_eq!(kind(&low), kind(&high), "mode {}", m);
        assert_eq!(kind(&low), if m % 16 <= 6 { m % 16 } else { 2 });
    }
}

#[test]
fn change_page_reads_the_first_two_payload_bytes() {
    let mut b = button(&[1, 5, 0], &[2]);
    match b.primary_function() {
        ButtonFunction::ChangePage(c) => assert_eq!(c.target_page, 5),
        _ => panic!("expected a page change"),
    }
    b.raw_data[1] = 0x34;
    b.raw_data[2] = 0x12;
    match b.primary_function() {
        ButtonFunction::ChangePage(c) => assert_eq!(c.target_page, 0x1234),
        _ => panic!("expected a page change"),
    }
    let mut payload = [0u8; 63];
    payload[0] = 0xff;
    payload[1] = 0xff;
    assert_eq!(ChangePage::decode(&payload).target_page, 65535);
}

#[test]
fn press_keys_stop_at_the_first_zero() {
    let mut payload = [0u8; 63];
    payload[..4].copy_from_slice(&[4, 5, 6, 0]);
    payload[4] = 9;
    let p = PressKeys::decode(&payload);
    assert_eq!(p.keys, &[4u8, 5, 6][..]);
    assert_eq!(p.goto, None);
    assert_eq!(bytes_before_zero(&payload), 3);
}

#[test]
fn press_keys_of_an_empty_list() {
    let payload = [0u8; 63];
    let p = PressKeys::decode(&payload);
    assert!(p.keys.is_empty());
    assert_eq!(p.goto, None);
}

#[test]
fn press_keys_without_a_zero_are_the_whole_payload() {
    let payload = [7u8; 63];
    let p = PressKeys::decode(&payload);
    assert_eq!(p.keys, &payload[..]);
    assert_eq!(p.goto, Some(0x0707 - 1));
    assert_eq!(bytes_before_zero(&[1u8, 2, 3]), 3);
    assert_eq!(bytes_before_zero(&[]), 0);
}

#[test]
fn press_keys_goto_is_stored_plus_one() {
    let mut payload = [0u8; 63];
    payload[0] = 4;
    payload[60] = 1;
    assert_eq!(PressKeys::decode(&payload).goto, Some(0));
    payload[60] = 6;
    assert_eq!(PressKeys::decode(&payload).goto, Some(5));
    payload[60] = 0;
    payload[61] = 1;
    assert_eq!(PressKeys::decode(&payload).goto, Some(255));
    payload[60] = 0xff;
    payload[61] = 0xff;
    assert_eq!(PressKeys::decode(&payload).goto, Some(65534));
    payload[60] = 0;
    payload[61] = 0;
    payload[62] = 9;
    assert_eq!(PressKeys::decode(&payload).goto, None);
    assert_eq!(PressKeys::decode(&payload).keys, &[4u8][..]);
}

#[test]
fn press_keys_of_both_slots() {
    let mut b = button(&[0, 10, 11, 0], &[16, 20, 0]);
    b.raw_data[61] = 3;
    b.raw_data[125] = 8;
    match b.primary_function() {
        ButtonFunction::PressKeys(p) => {
            assert_eq!(p.keys, &[10u8, 11][..]);
            assert_eq!(p.goto, Some(2));
        }
        _ => panic!("expected a key list"),
    }
    match b.secondary_function() {
        ButtonFunction::PressKeys(p) => {
            assert_eq!(p.keys, &[20u8][..]);
            assert_eq!(p.goto, Some(7));
        }
        _ => panic!("expected a key list"),
    }
}

#[test]
fn u16_from_le_joins_low_byte_first() {
    assert_eq!(u16_from_le(5, 0), 5);
    assert_eq!(u16_from_le(0, 1), 256);
    assert_eq!(u16_from_le(0x34, 0x12), 0x1234);
    assert_eq!(u16_from_le(255, 255), 65535);
}

#[test]
fn has_secondary_function_is_false_only_for_the_reserved_code() {
    for m in 0u8..=255 {
        let b = button(&[0], &[m]);
        assert_eq!(b.has_secondary_function(), m != 2, "mode {}", m);
    }
    let b = button(&[2], &[18]);
    assert!(b.has_secondary_function());
    assert_eq!(kind(&b.secondary_function()), 2);
}

#[test]
fn slots_do_not_overlap() {
    let mut raw_data = [0u8; 128];
    for (i, byte) in raw_data.iter_mut().enumerate() {
        *byte = i as u8;
    }
    let b = Button { raw_image: [0u8; 1025], raw_data };
    assert_eq!(b.primary_data().len(), 63);
    assert_eq!(b.secondary_data().len(), 63);
    assert_eq!(b.primary_data()[0], 1);
    assert_eq!(b.primary_data()[62], 63);
    assert_eq!(b.secondary_data()[0], 65);
    assert_eq!(b.secondary_data()[62], 127);
}

#[test]
fn image_buff_strips_the_liveness_flag() {
    let mut raw_image = [0u8; 1025];
    raw_image[0] = 1;
    raw_image[1] = 0xaa;
    raw_image[1024] = 0x55;
    let mut b = Button { raw_image, raw_data: [0u8; 128] };
    assert!(b.has_live_data());
    assert_eq!(b.image_buff().len(), 1024);
    assert_eq!(b.image_buff()[0], 0xaa);
    assert_eq!(b.image_buff()[1023], 0x55);
    b.raw_image[0] = 0;
    assert!(!b.has_live_data());
    b.raw_image[0] = 2;
    assert!(!b.has_live_data());
}
