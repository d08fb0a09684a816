//! Finds the active network interface, reads its DNS resolvers from the
//! system's diagnostic listings, and plans the commands that change them.

pub mod discover;
pub mod facade;
pub mod ipv4;
pub mod profiles;
pub mod reader;
pub mod runner;
pub mod text;
pub mod writer;
