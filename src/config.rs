//! The run's configuration, checked once at startup.

use vstd::prelude::*;
use crate::pacer::{Pacer, NANOS_PER_SEC};

verus! {

/// Why a configuration was rejected.
#[derive(Clone, Copy, Debug, PartialEq, Eq)]
pub enum ConfigError {
    ZeroDuration,
    ZeroConcurrency,
    ZeroQps,
    EmptyUrl,
    /// The test would run past what the nanosecond clock can count, or
    /// schedule more ticks than a counter can hold.
    TooLarge,
}

/// Fewest slots of the tick channel.
pub const MIN_TICK_CHANNEL: u64 = 16;

/// Slots of the sample channel.
pub const SAMPLE_CHANNEL_CAPACITY: u64 = 100;

/// Immutable parameters of a run.
pub struct Config {
    pub duration_secs: u64,
    pub concurrency: u64,
    pub qps: u64,
    pub url: String,
}

/// Whether a run of these sizes stays within the clock's and counters' range.
pub open spec fn fits_machine(duration_secs: int, qps: int) -> bool {
    &&& (duration_secs + 1) * NANOS_PER_SEC <= u64::MAX
    &&& qps * (duration_secs + 1) < u64::MAX
}

impl Config {
    pub open spec fn wf(&self) -> bool {
        &&& self.duration_secs >= 1
        &&& self.concurrency >= 1
        &&& self.qps >= 1
        &&& self.url@.len() > 0
        &&& fits_machine(self.duration_secs as int, self.qps as int)
    }

    /// Checks the parameters of a run: duration, concurrency and rate must be
    /// at least one and the URL non-empty.
    pub fn new(duration_secs: u64, concurrency: u64, qps: u64, url: String) -> (r: Result<
        Config,
        ConfigError,
    >)
        ensures
            duration_secs == 0 ==> r == Err::<Config, ConfigError>(ConfigError::ZeroDuration),
            duration_secs > 0 && concurrency == 0 ==> r == Err::<Config, ConfigError>(
                ConfigError::ZeroConcurrency,
            ),
            duration_secs > 0 && concurrency > 0 && qps == 0 ==> r == Err::<Config, ConfigError>(
                ConfigError::ZeroQps,
            ),
            duration_secs > 0 && concurrency > 0 && qps > 0 && url@.len() == 0 ==> r == Err::<
                Config,
                ConfigError,
            >(ConfigError::EmptyUrl),
            duration_secs > 0 && concurrency > 0 && qps > 0 && url@.len() > 0 && !fits_machine(
                duration_secs as int,
                qps as int,
            ) ==> r == Err::<Config, ConfigError>(ConfigError::TooLarge),
            r is Ok <==> (duration_secs > 0 && concurrency > 0 && qps > 0 && url@.len() > 0
                && fits_machine(duration_secs as int, qps as int)),
            r matches Ok(c) ==> {
                &&& c.wf()
                &&& c.duration_secs == duration_secs
                &&& c.concurrency == concurrency
                &&& c.qps == qps
                &&& c.url@ == url@
            },
    {
        if duration_secs == 0 {
            return Err(ConfigError::ZeroDuration);
        }
        if concurrency == 0 {
            return Err(ConfigError::ZeroConcurrency);
        }
        if qps == 0 {
            return Err(ConfigError::ZeroQps);
        }
        if url.as_str().is_empty() {
            return Err(ConfigError::EmptyUrl);
        }
        let slots: u128 = duration_secs as u128 + 1;
        proof {
            assert(slots * NANOS_PER_SEC < 0x1_0000_0000_0000_0000 * 0x1_0000_0000) by (nonlinear_arith)
                requires
                    slots <= 0x1_0000_0000_0000_0000,
            ;
            assert(qps * slots <= 0xffff_ffff_ffff_ffff * 0x1_0000_0000_0000_0000) by (nonlinear_arith)
                requires
                    slots <= 0x1_0000_0000_0000_0000,
                    qps <= 0xffff_ffff_ffff_ffff,
            ;
        }
        if slots * (NANOS_PER_SEC as u128) > u64::MAX as u128 || (qps as u128) * slots
            >= u64::MAX as u128 {
            return Err(ConfigError::TooLarge);
        }
        Ok(Config { duration_secs, concurrency, qps, url })
    }

    /// The test length in nanoseconds.
    pub fn duration_nanos(&self) -> (r: u64)
        requires
            self.wf(),
        ensures
            r == self.duration_secs * NANOS_PER_SEC,
    {
        self.duration_secs * NANOS_PER_SEC
    }

    /// Slots of the tick channel: the concurrency, but at least sixteen.
    pub fn tick_channel_capacity(&self) -> (r: u64)
        ensures
            r == (if self.concurrency < MIN_TICK_CHANNEL {
                MIN_TICK_CHANNEL
            } else {
                self.concurrency
            }),
    {
        if self.concurrency < MIN_TICK_CHANNEL {
            MIN_TICK_CHANNEL
        } else {
            self.concurrency
        }
    }

    /// The pacer for this run.
    pub fn pacer(&self) -> (r: Pacer)
        requires
            self.wf(),
        ensures
            r.wf(),
            r.qps == self.qps,
            r.duration_secs == self.duration_secs,
            r.next_tick == 0,
    {
        Pacer::new(self.qps, self.duration_secs)
    }
}

} // verus!
