pub mod console;
pub mod deployment;
pub mod guarantees;
pub mod path;
pub mod policy;
pub mod preview;
pub mod registry;
pub mod session;
pub mod timeline;
pub mod voter;
