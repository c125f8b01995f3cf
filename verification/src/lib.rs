//! Single-entry ZIP archiving: the rules that turn three lines of user input
//! into an archiving request, and the step machine that carries one request
//! from reading the source to a sealed container on disk.
//!
//! The library opens no file and reads no line of input. A caller reads and writes;
//! the library decides what to do next and builds the container bytes.

pub mod container;
pub mod error;
pub mod line;
pub mod method;
pub mod request;
pub mod run;
pub mod stamp;
