use vstd::prelude::*;

verus! {

/// One monitored project: the identifier of its build configuration on the
/// build server, and the output pin its status is reported on.
#[derive(Debug)]
pub struct ProjectSettings {
    pub build_type_id: String,
    pub pin_id: String,
}

/// The process-wide configuration: the build server's base address, the
/// monitored projects in their configured order, and the intervals of the
/// acquisition and dispatch loops, in seconds.  Loaded once at startup and
/// read-only afterwards.
#[derive(Debug)]
pub struct LightsSettings {
    pub teamcity_url: String,
    pub projects: Vec<ProjectSettings>,
    pub query_frequency_secs: u64,
    pub signal_frequency_secs: u64,
}

} // verus!
