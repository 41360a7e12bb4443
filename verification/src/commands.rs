//! One module for each subcommand: what it runs, what it decides, and what
//! it reports.

pub mod building;
pub mod check;
pub mod deps;
pub mod doctor;
pub mod environment;
pub mod gpg;
pub mod info;
pub mod init;
pub mod toolchain;
pub mod tools;
