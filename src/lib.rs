//! Computes and checks MD5 and SHA digests of byte contents, and decides
//! what a command line asks for: which algorithms, which files, which mode.
pub mod args;
pub mod checksum;
pub mod digest;
pub mod modes;
pub mod text;
