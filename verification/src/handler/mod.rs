pub mod session;
pub mod public;
