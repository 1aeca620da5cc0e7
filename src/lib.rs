//! Authentication, tenant authorization and tenant-scoped document access
//! for a multi-tenant backend.
pub mod credentials;
pub mod error;
pub mod identity;
pub mod ids;
pub mod projects;
pub mod proxy;
pub mod users;

pub use error::{SBError, StoreFault};
