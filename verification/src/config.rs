//! How many buffers a stream has, and how long they are.

use crate::error::{ErrorView, RtlsdrError};
use vstd::prelude::*;

verus! {

pub const DEFAULT_BUF_LENGTH: usize = 16 * 16384;

pub const DEFAULT_ASYNC_BUF_NUMBER: usize = 15;

/// The length of a USB packet, which buffers are made up of.
pub const PACKET_LENGTH: usize = 512;

/// The number of buffers of a stream and the length of each.
#[derive(Debug, Clone, Copy, PartialEq, Eq, Structural)]
pub struct StreamConfig {
    pub buf_num: usize,
    pub buf_len: usize,
}

/// Zero stands for the default.
pub open spec fn or_default(n: usize, default: usize) -> usize {
    if n == 0 {
        default
    } else {
        n
    }
}

/// What is reported of a buffer length that is not made up of whole packets.
pub open spec fn invalid_length(len: usize) -> ErrorView {
    ErrorView::Message(
        "Invalid async buffer length "@ + crate::text::decimal(len as nat)
            + " (must be multiple of 512)"@,
    )
}

impl StreamConfig {
    /// What the numbers that a caller gave stand for.
    pub open spec fn effective(buf_num: usize, buf_len: usize) -> StreamConfig {
        StreamConfig {
            buf_num: or_default(buf_num, DEFAULT_ASYNC_BUF_NUMBER),
            buf_len: or_default(buf_len, DEFAULT_BUF_LENGTH),
        }
    }

    /// Whether a buffer is made up of whole packets.
    pub open spec fn is_valid(self) -> bool {
        self.buf_len % PACKET_LENGTH == 0
    }

    /// The numbers that a caller gave, zero for the default, if the length is valid.
    pub fn new(buf_num: usize, buf_len: usize) -> (r: Result<StreamConfig, RtlsdrError>)
        ensures
            match r {
                Ok(config) => {
                    &&& config == StreamConfig::effective(buf_num, buf_len)
                    &&& config.is_valid()
                    &&& config.buf_num > 0
                    &&& config.buf_len > 0
                },
                Err(e) => {
                    &&& !StreamConfig::effective(buf_num, buf_len).is_valid()
                    &&& e@ == invalid_length(buf_len)
                },
            },
    {
        let buf_num: usize = if buf_num == 0 {
            DEFAULT_ASYNC_BUF_NUMBER
        } else {
            buf_num
        };
        let buf_len: usize = if buf_len == 0 {
            DEFAULT_BUF_LENGTH
        } else {
            buf_len
        };
        if buf_len % PACKET_LENGTH != 0 {
            return Err(
                RtlsdrError::RtlsdrErr(
                    crate::text::with_number(
                        "Invalid async buffer length ",
                        buf_len,
                        " (must be multiple of 512)",
                    ),
                ),
            );
        }
        Ok(StreamConfig { buf_num, buf_len })
    }
}

/// Zero buffers stand for 15, and a length of zero for 262144 bytes; any other number stands for
/// itself. A length is valid exactly if it is a multiple of 512, and the report of one that is not
/// gives it in decimal.
pub proof fn law_zero_stands_for_the_default(buf_num: usize, buf_len: usize)
    ensures
        ({
            let config = StreamConfig::effective(buf_num, buf_len);
            &&& config.buf_num == (if buf_num == 0 {
                15
            } else {
                buf_num
            })
            &&& config.buf_len == (if buf_len == 0 {
                262144
            } else {
                buf_len
            })
            &&& config.is_valid() <==> buf_len % 512 == 0
            &&& invalid_length(buf_len) == ErrorView::Message(
                "Invalid async buffer length "@ + crate::text::decimal(buf_len as nat)
                    + " (must be multiple of 512)"@,
            )
        }),
{
}

} // verus!
