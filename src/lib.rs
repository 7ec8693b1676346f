pub mod convert;
pub mod error;
pub mod instant;
pub mod laws;
pub mod service;
pub mod store;
pub mod text;

pub use convert::{
    decode_timezone_name, parse_offset_timestamp, project, ParsedTimestamp, TimezoneName,
};
pub use error::ServiceError;
pub use instant::Instant;
pub use service::{append_timestamp, list_in_timezone, list_in_timezone_json, render_all};
pub use store::TimestampStore;
