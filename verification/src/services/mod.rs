//! Services shared by the REST and socket surfaces.

pub mod message;
