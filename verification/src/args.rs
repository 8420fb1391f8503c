use vstd::prelude::*;

verus! {

/// The validated configuration the process is started with.
pub struct Args {
    /// Where the aggregated snapshot is persisted.
    pub output_file: String,
    /// The servers to query, in polling order.
    pub servers: Vec<String>,
    /// Seconds between poll cycles.
    pub interval: u16,
    /// How many per-cycle failures are survivable.
    pub failure_tolerance: FailureTolerance,
    /// How many cycles a failed server is skipped before the next attempt.
    pub failure_retry_wait: u16,
}

impl Args {
    /// A configuration the orchestrator accepts: at least one server and a
    /// positive interval.
    pub open spec fn valid(self) -> bool {
        self.servers@.len() > 0 && self.interval >= 1
    }

    /// Checks the configuration against [`Args::valid`].
    pub fn validate(&self) -> (r: Result<(), ConfigError>)
        ensures
            r is Ok <==> self.valid(),
            r is Err ==> r == Err::<(), ConfigError>(ConfigError::NoServers) || r == Err::<
                (),
                ConfigError,
            >(ConfigError::ZeroInterval),
    {
        if self.servers.len() == 0 {
            Err(ConfigError::NoServers)
        } else if self.interval == 0 {
            Err(ConfigError::ZeroInterval)
        } else {
            Ok(())
        }
    }
}

/// The different failure tolerance levels.
#[derive(Clone, Copy, Debug, PartialEq, Eq, Structural)]
pub enum FailureTolerance {
    /// All servers must respond: zero failures are tolerated.
    Zero,
    /// One server failing to respond is tolerated.
    One,
    /// All servers failing to respond is tolerated.
    All,
}

/// A fault in the supplied configuration.
#[derive(Clone, Copy, Debug, PartialEq, Eq, Structural)]
pub enum ConfigError {
    /// The server list is empty.
    NoServers,
    /// The poll interval is not positive.
    ZeroInterval,
}

} // verus!
