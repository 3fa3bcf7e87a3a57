pub mod cmd;
pub mod encrypt;
pub mod store;
