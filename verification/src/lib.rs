pub mod backend;
pub mod handle;
pub mod mock;
pub mod store;
