//! theMQL: message, subject and query model with its transports' data
//! types, verified.
use vstd::prelude::*;

pub mod text;
pub mod subject;
pub mod model;
pub mod error;
pub mod digest;
pub mod query;
pub mod cache;
pub mod storage;
pub mod schema;
pub mod artifact;
pub mod embedded;
pub mod payload;
pub mod nmea;
pub mod bme280;
pub mod imu;
pub mod mqtt;
pub mod sse;
pub mod transport;
pub mod runtime;
pub mod telemetry;
pub mod inference;
pub mod message;
pub mod graphql;
pub mod training;
pub mod auth;

verus! {

} // verus!
