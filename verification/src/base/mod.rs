pub mod consts;
pub mod errors;
pub mod number;
pub mod paths;
