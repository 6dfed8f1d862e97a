pub mod model;
pub mod store;
pub mod laws;
