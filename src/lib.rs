//! A typed client for the live-streaming platform's HTTP API: request
//! encoding, response decoding and the models the two live endpoints return.
use vstd::prelude::*;

mod error;
pub mod json;
pub mod live;
pub mod model;
pub mod request;

pub use error::Error;

verus! {

/// Host that every request of this library is sent to.
pub const CHZZK_API_URL: &'static str = "https://api.chzzk.naver.com";

} // verus!
