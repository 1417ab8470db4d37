//! A typed configuration for the nsjail sandbox launcher: mounts, symbolic
//! links, environment and identity, rendered into the launcher's arguments.

pub mod decimal;
pub mod jail;
pub mod lemmas;
pub mod mount;
pub mod symlink;

pub use jail::{Invocation, NSJail};
pub use mount::{NSMount, NSMountType};
pub use symlink::NSSymlink;
