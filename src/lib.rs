//! Target-triple model and install-run decisions for bootstrapping a toolchain
//! on a machine that has none.

pub mod triple;
pub mod text;
pub mod host;
pub mod install;
