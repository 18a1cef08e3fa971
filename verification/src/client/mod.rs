pub mod connect;
pub mod errors;
pub mod handles;
pub mod kill;
pub mod launch;
pub mod launcher;
pub mod policies;
pub mod process;
pub mod session;
