//! Client-side core of a billing API SDK: webhook signature parsing and
//! verification, and the cursor that walks paginated list endpoints.

pub mod codec;
pub mod entities;
pub mod enums;
pub mod error;
pub mod ids;
pub mod paginated;
pub mod response;
pub mod webhooks;

pub use error::Error;
