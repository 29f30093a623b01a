//! Clip sharing service core: validated clip fields, the hit-aggregation
//! engine that coalesces view counts before they are persisted, and the
//! expiry sweeper's decisions.

pub mod api;
pub mod ask;
pub mod catcher;
pub mod clip;
pub mod commit;
pub mod ctx;
pub mod error;
pub mod field;
pub mod form;
pub mod hitcounter;
pub mod maintenance;
pub mod model;
pub mod service;
pub mod text;
pub mod time;

pub use field::ShortCode;
pub use error::ClipError;
pub use time::Time;
pub use clip::Clip;
