//! Verified core of a command-line tool that claims a Tokopedia reward
//! coupon at a chosen moment: input parsing, the request bodies and headers
//! it sends, the reading of the answers, the countdown to the start time and
//! the retry rules of the redeem workers.

pub mod text;
pub mod mode;
pub mod cookie;
pub mod headers;
pub mod request;
pub mod json;
pub mod redeem;
pub mod clock;
