//! Build-lights monitor: resolves the build status of configured CI projects
//! from a TeamCity-style REST interface and relays each project's status to a
//! signal sink through a single-slot, latest-wins mailbox.

pub mod api_enquirer;
pub mod mailbox;
pub mod pipeline;
pub mod settings;
pub mod signal;
pub mod text;
