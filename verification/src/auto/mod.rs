#[allow(clippy::module_inception)]
pub mod auto;
pub mod path;
