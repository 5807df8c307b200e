use lpc_cat::{
    check_cmd, check_ohai_response, decode_init_uart_response, decode_poll,
    decode_set_bit_rate_response, init_uart_request, ohai_request, poll_request, read_le_u32,
    set_bit_rate_request, PollResult, ProtocolError, MAX_PACKET,
};

fn report(bytes: &[u8]) -> Vec<u8> {
    let mut r = vec![0u8; MAX_PACKET];
    r[..bytes.len()].copy_from_slice(bytes);
    r
}

#[test]
fn check_cmd_accepts_echo() {
    assert_eq!(check_cmd(0x1f, 0x1f), Ok(()));
}

#[test]
fn check_cmd_rejects_other_byte() {
    assert_eq!(
        check_cmd(0x02, 0x1f),
        Err(ProtocolError::UnexpectedResponse { expected: 0x1f, actual: 0x02 })
    );
}

#[test]
fn ohai_request_layout() {
    assert_eq!(ohai_request(0xff), vec![0x1f, 0xff]);
}

#[test]
fn ohai_with_expected_tag_succeeds() {
    assert_eq!(check_ohai_response(&report(&[0x1f, 0x38])), Ok(()));
}

#[test]
fn ohai_with_mismatched_tag_fails() {
    assert_eq!(
        check_ohai_response(&report(&[0x1f, 0x39])),
        Err(ProtocolError::UnexpectedOhaiResponse { tag: 0x39 })
    );
}

#[test]
fn ohai_with_wrong_echo_fails() {
    assert_eq!(
        check_ohai_response(&report(&[0x03, 0x38])),
        Err(ProtocolError::UnexpectedResponse { expected: 0x1f, actual: 0x03 })
    );
}

#[test]
fn ohai_short_response_is_truncated() {
    assert_eq!(
        check_ohai_response(&[0x1f]),
        Err(ProtocolError::Truncated { needed: 2, actual: 1 })
    );
}

#[test]
fn init_uart_request_layout() {
    assert_eq!(init_uart_request(), vec![0x03]);
}

#[test]
fn init_uart_decodes_max_rate() {
    let resp = report(&[0x03, 9, 9, 9, 9, 0x00, 0xc2, 0x01, 0x00]);
    assert_eq!(decode_init_uart_response(&resp), Ok(115200));
}

#[test]
fn init_uart_wrong_echo_fails() {
    let resp = report(&[0x01, 0, 0, 0, 0, 0x00, 0xc2, 0x01, 0x00]);
    assert_eq!(
        decode_init_uart_response(&resp),
        Err(ProtocolError::UnexpectedResponse { expected: 0x03, actual: 0x01 })
    );
}

#[test]
fn set_bit_rate_request_layout() {
    assert_eq!(set_bit_rate_request(115200), vec![0x01, 0x00, 0xc2, 0x01, 0x00]);
    assert_eq!(set_bit_rate_request(0x12345678), vec![0x01, 0x78, 0x56, 0x34, 0x12]);
}

#[test]
fn set_bit_rate_echoes_requested_rate() {
    let resp = report(&[0x01, 0x00, 0xc2, 0x01, 0x00]);
    assert_eq!(decode_set_bit_rate_response(&resp), Ok(115200));
}

#[test]
fn set_bit_rate_reports_other_rate() {
    let resp = report(&[0x01, 0x00, 0x84, 0x03, 0x00]);
    assert_eq!(decode_set_bit_rate_response(&resp), Ok(230400));
}

#[test]
fn set_bit_rate_short_response_is_truncated() {
    assert_eq!(
        decode_set_bit_rate_response(&[0x01, 0x00]),
        Err(ProtocolError::Truncated { needed: 5, actual: 2 })
    );
}

#[test]
fn read_le_u32_largest() {
    assert_eq!(read_le_u32(&[0, 0xff, 0xff, 0xff, 0xff], 1), u32::MAX);
}

#[test]
fn poll_request_layout() {
    assert_eq!(poll_request(), vec![0x02]);
}

#[test]
fn poll_empty_when_levels_zero() {
    assert_eq!(decode_poll(&[0x04, 7, 0, 0, 0]), Ok((7, PollResult::Empty)));
}

#[test]
fn poll_incremental_fragment() {
    // start = 10, end = 13: packed = 10 | 13 << 12 = 0x00d00a
    let resp = [0x04, 3, 0x0a, 0xd0, 0x00, b'x', b'y', b'z', 0xee];
    assert_eq!(
        decode_poll(&resp),
        Ok((
            3,
            PollResult::Incremental { start: 10, end: 13, fragment: b"xyz".to_vec() }
        ))
    );
}

#[test]
fn poll_incremental_high_levels() {
    // start = 0xabc, end = 0xfff
    let mut resp = vec![0x04, 1, 0xbc, 0xfa, 0xff];
    resp.extend(std::iter::repeat(5u8).take(0xfff - 0xabc));
    match decode_poll(&resp) {
        Ok((1, PollResult::Incremental { start, end, fragment })) => {
            assert_eq!(start, 0xabc);
            assert_eq!(end, 0xfff);
            assert_eq!(fragment.len(), 0xfff - 0xabc);
        }
        other => panic!("unexpected {:?}", other),
    }
}

#[test]
fn poll_invalid_fill_levels() {
    // start = 20, end = 10
    let resp = [0x04, 0, 0x14, 0xa0, 0x00, 0, 0, 0];
    assert_eq!(
        decode_poll(&resp),
        Err(ProtocolError::InvalidFillLevels { start: 20, end: 10 })
    );
}

#[test]
fn poll_incremental_short_fragment() {
    let resp = [0x04, 0, 0x0a, 0xd0, 0x00, b'x'];
    assert_eq!(
        decode_poll(&resp),
        Err(ProtocolError::Truncated { needed: 8, actual: 6 })
    );
}

#[test]
fn poll_total_payload() {
    let mut resp = vec![0u8; MAX_PACKET];
    resp[0] = 0x82;
    resp[1] = 9;
    for (i, b) in resp.iter_mut().enumerate().skip(2) {
        *b = (i % 251) as u8;
    }
    match decode_poll(&resp) {
        Ok((9, PollResult::Total(payload))) => {
            assert_eq!(payload.len(), 1022);
            assert_eq!(payload[..], resp[2..]);
        }
        other => panic!("unexpected {:?}", other),
    }
}

#[test]
fn poll_total_short_is_truncated() {
    assert_eq!(
        decode_poll(&[0x82, 0, 1, 2]),
        Err(ProtocolError::Truncated { needed: 1024, actual: 4 })
    );
}

#[test]
fn poll_unknown_kind() {
    assert_eq!(
        decode_poll(&[0x05, 0, 0, 0, 0]),
        Err(ProtocolError::UnexpectedPollResponse { kind: 0x05 })
    );
}

#[test]
fn poll_empty_response_is_truncated() {
    assert_eq!(decode_poll(&[]), Err(ProtocolError::Truncated { needed: 2, actual: 0 }));
}
