pub mod addrinfo;
pub mod bridge;
pub mod config;
pub mod detour;
pub mod file_ops;
pub mod hooks;
pub mod open_dirs;
pub mod open_files;
pub mod operator;
pub mod path;
pub mod placeholder;
pub mod socket;
pub mod statx;
