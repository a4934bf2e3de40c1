//! Connection settings of the Kafka event stream, and reading the retry count
//! that a message carries in binary form.
use crate::event_stream::kafka::headers::KafkaHeaders;
use vstd::prelude::*;

verus! {

/// Where the event stream reads from: brokers and a topic.
#[derive(Debug, Clone)]
pub struct KafkaSettings {
    pub brokers: Vec<String>,
    pub topic: String,
}

/// The Kafka brokers of the processor, comma separated.
pub struct KafkaState {
    pub brokers: String,
}

/// The `i32` whose big-endian two's-complement bytes are `b0 b1 b2 b3`.
pub open spec fn be_i32(b0: u8, b1: u8, b2: u8, b3: u8) -> int {
    let u = b0 * 16777216 + b1 * 65536 + b2 * 256 + b3;
    if u < 0x8000_0000 {
        u
    } else {
        u - 0x1_0000_0000
    }
}

/// The retry count that the first header carries as a big-endian `i32`; 0
/// when there are no headers or no first header.
pub open spec fn retry_from_headers(hdrs: Option<Seq<(Seq<char>, Seq<u8>)>>) -> int {
    match hdrs {
        Some(h) => if h.len() > 0 {
            be_i32(h[0].1[0], h[0].1[1], h[0].1[2], h[0].1[3])
        } else {
            0
        },
        None => 0,
    }
}

impl KafkaState {
    /// Reads the retry count that the first header carries as a big-endian
    /// `i32`; 0 when there are no headers or no first header. The first
    /// header's value must be four bytes long.
    pub fn extract_retry_from_headers(hdrs: &Option<&KafkaHeaders>) -> (r: i32)
        requires
            match hdrs {
                Some(h) => h@.len() > 0 ==> h@[0].1.len() == 4,
                None => true,
            },
        ensures
            r as int == retry_from_headers(
                match hdrs {
                    Some(h) => Some(h@),
                    None => None,
                },
            ),
    {
        match hdrs {
            Some(hdrs) => {
                if let Some((_, val)) = hdrs.get(0) {
                    let u: u32 = (val[0] as u32) * 16777216 + (val[1] as u32) * 65536 + (val[2] as u32)
                        * 256 + (val[3] as u32);
                    if u < 0x8000_0000u32 {
                        u as i32
                    } else {
                        ((u - 0x8000_0000u32) as i32) + i32::MIN
                    }
                } else {
                    0
                }
            },
            None => 0,
        }
    }
}

} // verus!
