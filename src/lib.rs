//! Client logic for the SWO trace endpoint of an LPC-Link2 debug probe:
//! command encoding, response decoding, and reconstruction of the trace
//! byte stream from successive polls of the probe's circular capture buffer.

pub mod protocol;
pub mod rate;
pub mod reconstruct;

pub use protocol::{
    check_cmd, check_ohai_response, decode_init_uart_response, decode_poll,
    decode_set_bit_rate_response, init_uart_request, ohai_request, poll_request, read_le_u32,
    set_bit_rate_request, PollResult, ProtocolError, FRAGMENT_OFFSET, KIND_INCREMENTAL,
    KIND_TOTAL, MAX_PACKET, OHAI_TAG, OP_INIT_UART, OP_OHAI, OP_POLL, OP_SET_BIT_RATE,
    PAYLOAD_OFFSET,
};
pub use rate::{check_rate, RateCheck};
pub use reconstruct::{step, Position, Step};
