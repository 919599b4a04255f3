//! Status values shared by the monitors, the API and the viewer.
use vstd::prelude::*;
use vstd::string::*;

verus! {

/// Result of one service check.
#[derive(Debug, Clone, Copy, PartialEq, Eq, Structural)]
pub enum ServiceStatus {
    Up,
    Down,
    Degraded,
}

impl ServiceStatus {
    pub open spec fn spec_as_str(self) -> Seq<char> {
        match self {
            ServiceStatus::Up => "up"@,
            ServiceStatus::Down => "down"@,
            ServiceStatus::Degraded => "degraded"@,
        }
    }

    /// The lowercase name of the status: `up`, `down` or `degraded`.
    pub fn as_str(&self) -> (s: &'static str)
        ensures
            s@ == self.spec_as_str(),
    {
        match self {
            ServiceStatus::Up => "up",
            ServiceStatus::Down => "down",
            ServiceStatus::Degraded => "degraded",
        }
    }

    pub open spec fn spec_parse(s: Seq<char>) -> ServiceStatus {
        if s == "up"@ {
            ServiceStatus::Up
        } else if s == "degraded"@ {
            ServiceStatus::Degraded
        } else {
            ServiceStatus::Down
        }
    }

    /// Reads a stored status name back; unknown names read as `Down`.
    pub fn parse(s: &str) -> (r: ServiceStatus)
        ensures
            r == Self::spec_parse(s@),
    {
        let up = String::from_str("up");
        let degraded = String::from_str("degraded");
        let t = String::from_str(s);
        if t == up {
            ServiceStatus::Up
        } else if t == degraded {
            ServiceStatus::Degraded
        } else {
            ServiceStatus::Down
        }
    }
}

/// Health of a monitored server as the API reports it.
#[derive(Debug, Clone, Copy, PartialEq, Eq, Structural)]
pub enum ServerHealthStatus {
    Up,
    Down,
    Stale,
    Unknown,
}

impl ServerHealthStatus {
    pub open spec fn spec_as_str(self) -> Seq<char> {
        match self {
            ServerHealthStatus::Up => "up"@,
            ServerHealthStatus::Down => "down"@,
            ServerHealthStatus::Stale => "stale"@,
            ServerHealthStatus::Unknown => "unknown"@,
        }
    }

    /// The lowercase name of the health status.
    pub fn as_str(&self) -> (s: &'static str)
        ensures
            s@ == self.spec_as_str(),
    {
        match self {
            ServerHealthStatus::Up => "up",
            ServerHealthStatus::Down => "down",
            ServerHealthStatus::Stale => "stale",
            ServerHealthStatus::Unknown => "unknown",
        }
    }
}

/// Health of a monitored service as the API reports it.
#[derive(Debug, Clone, Copy, PartialEq, Eq, Structural)]
pub enum ServiceHealthStatus {
    Up,
    Down,
    Degraded,
    Stale,
    Unknown,
}

impl ServiceHealthStatus {
    pub open spec fn spec_as_str(self) -> Seq<char> {
        match self {
            ServiceHealthStatus::Up => "up"@,
            ServiceHealthStatus::Down => "down"@,
            ServiceHealthStatus::Degraded => "degraded"@,
            ServiceHealthStatus::Stale => "stale"@,
            ServiceHealthStatus::Unknown => "unknown"@,
        }
    }

    /// The lowercase name of the health status.
    pub fn as_str(&self) -> (s: &'static str)
        ensures
            s@ == self.spec_as_str(),
    {
        match self {
            ServiceHealthStatus::Up => "up",
            ServiceHealthStatus::Down => "down",
            ServiceHealthStatus::Degraded => "degraded",
            ServiceHealthStatus::Stale => "stale",
            ServiceHealthStatus::Unknown => "unknown",
        }
    }
}

/// Whether a server or service is being monitored.
#[derive(Debug, Clone, Copy, PartialEq, Eq, Structural)]
pub enum MonitoringStatus {
    Active,
    Paused,
    Disabled,
}

impl MonitoringStatus {
    pub open spec fn spec_as_str(self) -> Seq<char> {
        match self {
            MonitoringStatus::Active => "active"@,
            MonitoringStatus::Paused => "paused"@,
            MonitoringStatus::Disabled => "disabled"@,
        }
    }

    /// The lowercase name of the monitoring status.
    pub fn as_str(&self) -> (s: &'static str)
        ensures
            s@ == self.spec_as_str(),
    {
        match self {
            MonitoringStatus::Active => "active",
            MonitoringStatus::Paused => "paused",
            MonitoringStatus::Disabled => "disabled",
        }
    }
}

} // verus!
