//! Streaming decoder and batch protocol for notification requests.
//!
//! Bytes of the line format `K,F1,F2,F3,F4\n` are decoded one at a time by a
//! [`parser::Parser`], which files each complete record into a bounded batch of
//! its kind. A flush turns every non-empty batch into one bulk-send
//! description ([`dispatch::BulkSend`]) and empties it; a failed send with a
//! raw HTTP response is turned into a diagnostic capture by [`capture`].

pub mod capture;
pub mod dispatch;
pub mod parser;
pub mod record;
