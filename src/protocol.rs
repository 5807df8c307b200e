use vstd::prelude::*;

verus! {

/// Opcode announcing the session mode.
pub const OP_OHAI: u8 = 0x1f;

/// Tag that the probe sends back after a mode announcement.
pub const OHAI_TAG: u8 = 0x38;

/// Opcode of the UART capability query.
pub const OP_INIT_UART: u8 = 0x03;

/// Opcode of the bit rate negotiation.
pub const OP_SET_BIT_RATE: u8 = 0x01;

/// Opcode of the capture buffer poll.
pub const OP_POLL: u8 = 0x02;

/// Poll response kind: new bytes since the previous poll.
pub const KIND_INCREMENTAL: u8 = 0x04;

/// Poll response kind: the whole capture buffer, dumped after it filled up.
pub const KIND_TOTAL: u8 = 0x82;

/// Size of a response report, and of the scratch buffer a response is read into.
pub const MAX_PACKET: usize = 1024;

/// Offset of the fragment in an incremental poll response.
pub const FRAGMENT_OFFSET: usize = 5;

/// Offset of the payload in a total poll response.
pub const PAYLOAD_OFFSET: usize = 2;

/// A response from the probe that does not follow the command protocol.
#[derive(Debug, Clone, Copy, PartialEq, Eq, Structural)]
pub enum ProtocolError {
    /// The response's leading byte does not echo the command's opcode.
    UnexpectedResponse { expected: u8, actual: u8 },
    /// The mode announcement was answered with another tag than `OHAI_TAG`.
    UnexpectedOhaiResponse { tag: u8 },
    /// An incremental poll response whose end level lies before its start level.
    InvalidFillLevels { start: u16, end: u16 },
    /// A poll response of an unknown kind.
    UnexpectedPollResponse { kind: u8 },
    /// The response holds fewer bytes than its layout needs.
    Truncated { needed: usize, actual: usize },
}

/// What a poll of the capture buffer found.
#[derive(Debug, Clone, PartialEq, Eq)]
pub enum PollResult {
    /// No new traffic in the buffer since the last poll.
    Empty,
    /// New traffic at buffer offsets `start` (inclusive) through `end` (exclusive).
    Incremental { start: u16, end: u16, fragment: Vec<u8> },
    /// The buffer has filled up; this is its whole content. It repeats the
    /// bytes of earlier `Incremental` results of the same epoch.
    Total(Vec<u8>),
}

/// The unsigned integer that four bytes at `at` encode, least significant first.
pub open spec fn le_u32(b: Seq<u8>, at: int) -> int {
    b[at] + 256 * b[at + 1] + 65536 * b[at + 2] + 16777216 * b[at + 3]
}

/// The 24-bit fill level field of an incremental poll response.
pub open spec fn packed_levels(resp: Seq<u8>) -> int {
    resp[2] + 256 * resp[3] + 65536 * resp[4]
}

/// The start level: the low twelve bits of the fill level field.
pub open spec fn start_level(resp: Seq<u8>) -> int {
    packed_levels(resp) % 4096
}

/// The end level: the high twelve bits of the fill level field.
pub open spec fn end_level(resp: Seq<u8>) -> int {
    packed_levels(resp) / 4096
}

/// Checks that the leading byte `c` of a response echoes the opcode `expected`.
pub fn check_cmd(c: u8, expected: u8) -> (r: Result<(), ProtocolError>)
    ensures
        c == expected ==> r is Ok,
        c != expected ==> r == Err::<(), ProtocolError>(
            ProtocolError::UnexpectedResponse { expected, actual: c },
        ),
{
    if c != expected {
        Err(ProtocolError::UnexpectedResponse { expected, actual: c })
    } else {
        Ok(())
    }
}

/// Fails with `Truncated` unless `resp` holds at least `needed` bytes.
fn check_len(resp: &[u8], needed: usize) -> (r: Result<(), ProtocolError>)
    ensures
        resp@.len() >= needed ==> r is Ok,
        resp@.len() < needed ==> r == Err::<(), ProtocolError>(
            ProtocolError::Truncated { needed, actual: resp@.len() as usize },
        ),
{
    if resp.len() < needed {
        Err(ProtocolError::Truncated { needed, actual: resp.len() })
    } else {
        Ok(())
    }
}

/// Reads the four bytes at `at` as a little-endian unsigned integer.
pub fn read_le_u32(b: &[u8], at: usize) -> (r: u32)
    requires
        at + 4 <= b@.len(),
    ensures
        r == le_u32(b@, at as int),
{
    let b0 = b[at] as u32;
    let b1 = b[at + 1] as u32;
    let b2 = b[at + 2] as u32;
    let b3 = b[at + 3] as u32;
    b0 + 256 * b1 + 65536 * b2 + 16777216 * b3
}

/// Copies `b[from..to]` into a new vector.
fn copy_range(b: &[u8], from: usize, to: usize) -> (r: Vec<u8>)
    requires
        from <= to <= b@.len(),
    ensures
        r@ == b@.subrange(from as int, to as int),
{
    let mut r: Vec<u8> = Vec::new();
    let mut i: usize = from;
    while i < to
        invariant
            from <= i <= to <= b@.len(),
            r@ == b@.subrange(from as int, i as int),
        decreases to - i,
    {
        r.push(b[i]);
        assert(r@ =~= b@.subrange(from as int, i + 1));
        i = i + 1;
    }
    r
}

/// The request that announces session mode `mode`.
pub fn ohai_request(mode: u8) -> (r: Vec<u8>)
    ensures
        r@ == seq![OP_OHAI, mode],
{
    vec![OP_OHAI, mode]
}

/// Checks the response to a mode announcement: it echoes `OP_OHAI`, then
/// carries `OHAI_TAG`.
pub fn check_ohai_response(resp: &[u8]) -> (r: Result<(), ProtocolError>)
    ensures
        resp@.len() < 2 ==> r == Err::<(), ProtocolError>(
            ProtocolError::Truncated { needed: 2, actual: resp@.len() as usize },
        ),
        resp@.len() >= 2 && resp@[0] != OP_OHAI ==> r == Err::<(), ProtocolError>(
            ProtocolError::UnexpectedResponse { expected: OP_OHAI, actual: resp@[0] },
        ),
        resp@.len() >= 2 && resp@[0] == OP_OHAI && resp@[1] != OHAI_TAG ==> r == Err::<
            (),
            ProtocolError,
        >(ProtocolError::UnexpectedOhaiResponse { tag: resp@[1] }),
        resp@.len() >= 2 && resp@[0] == OP_OHAI && resp@[1] == OHAI_TAG ==> r is Ok,
{
    check_len(resp, 2)?;
    check_cmd(resp[0], OP_OHAI)?;
    if resp[1] != OHAI_TAG {
        return Err(ProtocolError::UnexpectedOhaiResponse { tag: resp[1] });
    }
    Ok(())
}

/// The request that queries the UART capability.
pub fn init_uart_request() -> (r: Vec<u8>)
    ensures
        r@ == seq![OP_INIT_UART],
{
    vec![OP_INIT_UART]
}

/// Decodes the response to the UART capability query: the highest bit rate
/// the probe supports, held at bytes 5 to 8.
pub fn decode_init_uart_response(resp: &[u8]) -> (r: Result<u32, ProtocolError>)
    ensures
        resp@.len() < 9 ==> r == Err::<u32, ProtocolError>(
            ProtocolError::Truncated { needed: 9, actual: resp@.len() as usize },
        ),
        resp@.len() >= 9 && resp@[0] != OP_INIT_UART ==> r == Err::<u32, ProtocolError>(
            ProtocolError::UnexpectedResponse { expected: OP_INIT_UART, actual: resp@[0] },
        ),
        resp@.len() >= 9 && resp@[0] == OP_INIT_UART ==> r == Ok::<u32, ProtocolError>(
            le_u32(resp@, 5) as u32,
        ),
{
    check_len(resp, 9)?;
    check_cmd(resp[0], OP_INIT_UART)?;
    Ok(read_le_u32(resp, 5))
}

/// The request that asks for bit rate `rate`: the opcode, then the rate in
/// four bytes, least significant first.
pub fn set_bit_rate_request(rate: u32) -> (r: Vec<u8>)
    ensures
        r@.len() == 5,
        r@[0] == OP_SET_BIT_RATE,
        le_u32(r@, 1) == rate,
{
    let b0 = (rate % 256) as u8;
    let b1 = (rate / 256 % 256) as u8;
    let b2 = (rate / 65536 % 256) as u8;
    let b3 = (rate / 16777216) as u8;
    let r = vec![OP_SET_BIT_RATE, b0, b1, b2, b3];
    assert(le_u32(r@, 1) == rate) by (nonlinear_arith)
        requires
            r@[1] == rate % 256,
            r@[2] == rate / 256 % 256,
            r@[3] == rate / 65536 % 256,
            r@[4] == rate / 16777216,
            rate < 0x1_0000_0000,
    {
    }
    r
}

/// Decodes the response to a bit rate request: the rate the probe achieved,
/// held at bytes 1 to 4.
pub fn decode_set_bit_rate_response(resp: &[u8]) -> (r: Result<u32, ProtocolError>)
    ensures
        resp@.len() < 5 ==> r == Err::<u32, ProtocolError>(
            ProtocolError::Truncated { needed: 5, actual: resp@.len() as usize },
        ),
        resp@.len() >= 5 && resp@[0] != OP_SET_BIT_RATE ==> r == Err::<u32, ProtocolError>(
            ProtocolError::UnexpectedResponse { expected: OP_SET_BIT_RATE, actual: resp@[0] },
        ),
        resp@.len() >= 5 && resp@[0] == OP_SET_BIT_RATE ==> r == Ok::<u32, ProtocolError>(
            le_u32(resp@, 1) as u32,
        ),
{
    check_len(resp, 5)?;
    check_cmd(resp[0], OP_SET_BIT_RATE)?;
    Ok(read_le_u32(resp, 1))
}

/// The request that polls the capture buffer.
pub fn poll_request() -> (r: Vec<u8>)
    ensures
        r@ == seq![OP_POLL],
{
    vec![OP_POLL]
}

/// Decodes the response to a poll, `resp` being the bytes the probe returned.
///
/// Returns the epoch of the capture buffer and what the poll found. The
/// fragment and payload are copied out of `resp`.
pub fn decode_poll(resp: &[u8]) -> (r: Result<(u8, PollResult), ProtocolError>)
    ensures
        resp@.len() < 2 ==> r == Err::<(u8, PollResult), ProtocolError>(
            ProtocolError::Truncated { needed: 2, actual: resp@.len() as usize },
        ),
        resp@.len() >= 2 && resp@[0] != KIND_INCREMENTAL && resp@[0] != KIND_TOTAL ==> r == Err::<
            (u8, PollResult),
            ProtocolError,
        >(ProtocolError::UnexpectedPollResponse { kind: resp@[0] }),
        resp@.len() >= 2 && resp@[0] == KIND_TOTAL ==> {
            &&& resp@.len() < MAX_PACKET ==> r == Err::<(u8, PollResult), ProtocolError>(
                ProtocolError::Truncated { needed: MAX_PACKET, actual: resp@.len() as usize },
            )
            &&& resp@.len() >= MAX_PACKET ==> (r matches Ok((epoch, PollResult::Total(payload)))
                && epoch == resp@[1] && payload@ == resp@.subrange(
                PAYLOAD_OFFSET as int,
                MAX_PACKET as int,
            ))
        },
        resp@.len() >= 2 && resp@[0] == KIND_INCREMENTAL ==> {
            &&& resp@.len() < 5 ==> r == Err::<(u8, PollResult), ProtocolError>(
                ProtocolError::Truncated { needed: 5, actual: resp@.len() as usize },
            )
            &&& resp@.len() >= 5 && packed_levels(resp@) == 0 ==> r == Ok::<
                (u8, PollResult),
                ProtocolError,
            >((resp@[1], PollResult::Empty))
            &&& resp@.len() >= 5 && packed_levels(resp@) != 0 && end_level(resp@) < start_level(
                resp@,
            ) ==> r == Err::<(u8, PollResult), ProtocolError>(
                ProtocolError::InvalidFillLevels {
                    start: start_level(resp@) as u16,
                    end: end_level(resp@) as u16,
                },
            )
            &&& resp@.len() >= 5 && packed_levels(resp@) != 0 && end_level(resp@) >= start_level(
                resp@,
            ) ==> {
                let n = end_level(resp@) - start_level(resp@);
                &&& resp@.len() < 5 + n ==> r == Err::<(u8, PollResult), ProtocolError>(
                    ProtocolError::Truncated { needed: (5 + n) as usize, actual: resp@.len() as usize },
                )
                &&& resp@.len() >= 5 + n ==> (r matches Ok(
                    (epoch, PollResult::Incremental { start, end, fragment }),
                ) && epoch == resp@[1] && start == start_level(resp@) && end == end_level(resp@)
                    && fragment@ == resp@.subrange(5, 5 + n))
            }
        },
{
    check_len(resp, 2)?;
    let kind = resp[0];
    let epoch = resp[1];
    if kind == KIND_INCREMENTAL {
        check_len(resp, FRAGMENT_OFFSET)?;
        let packed = resp[2] as u32 + 256 * (resp[3] as u32) + 65536 * (resp[4] as u32);
        if packed == 0 {
            return Ok((epoch, PollResult::Empty));
        }
        let start = (packed % 4096) as u16;
        let end = (packed / 4096) as u16;
        if end < start {
            return Err(ProtocolError::InvalidFillLevels { start, end });
        }
        let n = (end - start) as usize;
        check_len(resp, FRAGMENT_OFFSET + n)?;
        let fragment = copy_range(resp, FRAGMENT_OFFSET, FRAGMENT_OFFSET + n);
        Ok((epoch, PollResult::Incremental { start, end, fragment }))
    } else if kind == KIND_TOTAL {
        check_len(resp, MAX_PACKET)?;
        Ok((epoch, PollResult::Total(copy_range(resp, PAYLOAD_OFFSET, MAX_PACKET))))
    } else {
        Err(ProtocolError::UnexpectedPollResponse { kind })
    }
}

} // verus!
