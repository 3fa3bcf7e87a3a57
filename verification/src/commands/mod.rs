pub mod general;
pub mod help;
pub mod logs;
pub mod played;
