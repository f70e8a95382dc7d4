//! Verified core of the Millau side of the Millau <-> Rialto bridge: the SCALE
//! pieces of a signed transaction, the XCM locations and destinations of the
//! bridge routers, and the currency conversions of the runtime.

pub mod scale;
pub mod location;
pub mod bridge;
pub mod currency;
pub mod era;
pub mod hashing;
pub mod sr25519;
pub mod chain;
pub mod config;
pub mod messages_lane;
