pub mod login;
pub mod register;
pub mod logout;
pub mod getuser;
