//! Records of the X protocol, as the XCB library lays them out, and the
//! values of its enumerations.

pub mod enums;
pub mod events;
pub mod pthread;
pub mod records;
pub mod replies;
pub mod requests;
pub mod types;
