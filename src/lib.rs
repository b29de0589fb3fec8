pub mod bookmark;
pub mod response;
pub mod store;
pub mod server;
