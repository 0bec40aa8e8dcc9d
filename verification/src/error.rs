//! The catalog of error codes, the failures that are classified by it, and
//! the response that a client receives.
//!
//! * [`code`] holds the catalog: every [`Code`] with its status, its class and
//!   its name. [`names`] proves what holds of all the names.
//! * [`classify`] holds [`ErrorCode`], the one thing an error must offer to be
//!   answered with. [`os`] and [`failure`] hold the failures of the parts
//!   around the catalog, each with its code.
//! * [`response`] builds the [`ResponseError`] that goes out, and [`json`]
//!   writes its strings as JSON.

pub mod classify;
pub mod code;
pub mod failure;
pub mod json;
pub mod names;
pub mod os;
pub mod response;

pub use classify::ErrorCode;
pub use code::{Code, ErrCode, ErrorType};
pub use response::ResponseError;
