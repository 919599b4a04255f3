//! Per-server limit monitors: grace counters for temperature and CPU usage driven by the
//! readings of one server.
use vstd::prelude::*;
use crate::config::{Limit, Limits, ServerConfig};
use crate::evaluation::{next_grace_counter, track_reading, trailing_exceed_run, ResourceEvaluation};

verus! {

/// Consecutive readings at/above the temperature and CPU usage limits.
#[derive(Debug, Clone, Copy, PartialEq, Eq, Structural)]
pub struct Graces {
    pub temperature: usize,
    pub usage: usize,
}

pub open spec fn limit_grace(l: Limit) -> nat {
    match l.grace {
        Some(g) => g as nat,
        None => 0,
    }
}

pub open spec fn own_temperature(config: ServerConfig) -> Option<Limit> {
    match config.limits {
        Some(l) => l.temperature,
        None => None,
    }
}

pub open spec fn own_usage(config: ServerConfig) -> Option<Limit> {
    match config.limits {
        Some(l) => l.usage,
        None => None,
    }
}

/// A counter after a reading, with readings below the limit resetting it.
pub open spec fn reset_on_recovery(limit: Option<Limit>, reading: Option<bool>, counter: usize) -> nat {
    match (limit, reading) {
        (Some(l), Some(below)) => next_grace_counter(
            ResourceEvaluation::spec_evaluate(below, limit_grace(l), counter as nat),
            counter as nat,
        ),
        _ => counter as nat,
    }
}

/// Only consecutive violations count: when a monitor's counter equals the number of
/// readings at/above the limit since the last one below it, it still does after one more
/// reading.
pub proof fn lemma_monitor_counts_consecutive_violations(limit: Limit, readings: Seq<bool>, below: bool, counter: usize)
    requires
        counter as nat == trailing_exceed_run(readings),
    ensures
        reset_on_recovery(Some(limit), Some(below), counter) == trailing_exceed_run(readings.push(below)),
{
    assert(readings.push(below).drop_last() =~= readings);
}

fn grace_setting(l: &Limit) -> (g: usize)
    ensures
        g == limit_grace(*l),
{
    match l.grace {
        Some(g) => g,
        None => 0,
    }
}

/// Counts consecutive readings at/above a server's limits; a reading below a limit resets
/// its counter.
pub struct LimitMonitor {
    pub config: ServerConfig,
    pub graces: Graces,
}

impl LimitMonitor {
    /// A monitor with both counters at zero.
    pub fn new(config: ServerConfig) -> (m: LimitMonitor)
        ensures
            m.config == config,
            m.graces == (Graces { temperature: 0, usage: 0 }),
    {
        LimitMonitor { config, graces: Graces { temperature: 0, usage: 0 } }
    }

    /// Takes one reading of the server: whether the average temperature is below its limit
    /// (`None` without a temperature), and whether the average CPU usage is below its limit.
    pub fn update(&mut self, temperature_below_limit: Option<bool>, usage_below_limit: bool)
        requires
            (own_temperature(old(self).config) is Some && temperature_below_limit == Some(false))
                ==> old(self).graces.temperature < usize::MAX,
            (own_usage(old(self).config) is Some && !usage_below_limit) ==> old(self).graces.usage
                < usize::MAX,
        ensures
            final(self).config == old(self).config,
            final(self).graces.temperature == reset_on_recovery(
                own_temperature(old(self).config),
                temperature_below_limit,
                old(self).graces.temperature,
            ),
            final(self).graces.usage == reset_on_recovery(
                own_usage(old(self).config),
                Some(usage_below_limit),
                old(self).graces.usage,
            ),
    {
        let limits: &Limits = match &self.config.limits {
            None => {
                return ;
            },
            Some(l) => l,
        };
        let mut next = self.graces;
        match (&limits.temperature, temperature_below_limit) {
            (Some(l), Some(below)) => {
                if below {
                    next.temperature = 0;
                } else {
                    next.temperature = self.graces.temperature + 1;
                }
            },
            _ => {},
        }
        match &limits.usage {
            Some(l) => {
                if usage_below_limit {
                    next.usage = 0;
                } else {
                    next.usage = self.graces.usage + 1;
                }
            },
            None => {},
        }
        self.graces = next;
    }
}

/// Counts consecutive readings at/above a server's limits and evaluates each reading; a
/// reading below a limit resets its counter, so only consecutive violations count toward
/// the grace period.
pub struct ResourceMonitor {
    pub config: ServerConfig,
    pub graces: Graces,
}

impl ResourceMonitor {
    /// A monitor with both counters at zero.
    pub fn new(config: ServerConfig) -> (m: ResourceMonitor)
        ensures
            m.config == config,
            m.graces == (Graces { temperature: 0, usage: 0 }),
    {
        ResourceMonitor { config, graces: Graces { temperature: 0, usage: 0 } }
    }

    /// Takes one reading of the server and returns the evaluations made (temperature,
    /// usage), each absent when that resource was not evaluated.
    pub fn update(&mut self, temperature_below_limit: Option<bool>, usage_below_limit: bool) -> (r: (
        Option<ResourceEvaluation>,
        Option<ResourceEvaluation>,
    ))
        requires
            (own_temperature(old(self).config) is Some && temperature_below_limit == Some(false))
                ==> old(self).graces.temperature < usize::MAX,
            (own_usage(old(self).config) is Some && !usage_below_limit) ==> old(self).graces.usage
                < usize::MAX,
        ensures
            final(self).config == old(self).config,
            final(self).graces.temperature == reset_on_recovery(
                own_temperature(old(self).config),
                temperature_below_limit,
                old(self).graces.temperature,
            ),
            final(self).graces.usage == reset_on_recovery(
                own_usage(old(self).config),
                Some(usage_below_limit),
                old(self).graces.usage,
            ),
            r.0 == (match (own_temperature(old(self).config), temperature_below_limit) {
                (Some(l), Some(b)) => Some(
                    ResourceEvaluation::spec_evaluate(b, limit_grace(l), old(self).graces.temperature as nat),
                ),
                _ => None,
            }),
            r.1 == (match own_usage(old(self).config) {
                Some(l) => Some(
                    ResourceEvaluation::spec_evaluate(usage_below_limit, limit_grace(l), old(self).graces.usage as nat),
                ),
                None => None,
            }),
    {
        let limits: &Limits = match &self.config.limits {
            None => {
                return (None, None);
            },
            Some(l) => l,
        };
        let mut next = self.graces;
        let mut t_eval = None;
        let mut u_eval = None;
        match (&limits.temperature, temperature_below_limit) {
            (Some(l), Some(below)) => {
                let (e, counter) = track_reading(below, grace_setting(l), self.graces.temperature);
                next.temperature = counter;
                t_eval = Some(e);
            },
            _ => {},
        }
        match &limits.usage {
            Some(l) => {
                let (e, counter) = track_reading(usage_below_limit, grace_setting(l), self.graces.usage);
                next.usage = counter;
                u_eval = Some(e);
            },
            None => {},
        }
        self.graces = next;
        (t_eval, u_eval)
    }
}

} // verus!
