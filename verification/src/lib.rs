//! Building blocks for driving a UR e-series cobot over its text-based
//! scripting protocol: typed connection parameters for the four controller
//! interfaces, and pre-processing hooks for the values sent over them.
//!
//! The port arithmetic and the address handling are verified; every public
//! operation carries a contract stating exactly what it returns.

pub mod connection;
pub mod motion;
pub mod preprocess;
