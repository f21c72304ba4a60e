pub mod dns;
pub mod route;
