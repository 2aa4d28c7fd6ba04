use vstd::prelude::*;

verus! {

/// Arguments every service takes: the path of its configuration file.
#[derive(Clone, Debug)]
pub struct CommonArgs {
    pub cfg: String,
}

/// Arguments of an HTTP endpoint.
#[derive(Clone, Debug)]
pub struct EndpointArgs {
    pub common: CommonArgs,
    pub port: u16,
}

/// Arguments of a background worker.
#[derive(Clone, Debug)]
pub struct WorkerArgs {
    pub common: CommonArgs,
    pub workers: u16,
}

} // verus!
