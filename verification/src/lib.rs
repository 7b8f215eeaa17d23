//! Region-aware resolution of the addresses of peer services, with an
//! in-memory registry in front of a shared key-value store.

pub mod assoc;
pub mod env;
pub mod laws;
pub mod payload;
pub mod record;
pub mod region;
pub mod registry;
pub mod resolver;
pub mod seed;
pub mod text;

pub use crate::env::Env;
pub use crate::record::RegionEndpoint;
pub use crate::region::Regions;
pub use crate::registry::Endpoints;
pub use crate::resolver::{Resolution, Siblings};
