use vstd::prelude::*;
use crate::decimal::MAX_SCALE;

verus! {

/// Why a configuration was rejected at startup.
#[derive(Clone, Copy, Debug, PartialEq, Eq, Structural)]
pub enum ConfigError {
    /// The input trade size must be a positive amount of the input token.
    ZeroTradeSize,
    /// The polling interval must be a positive number of seconds.
    ZeroInterval,
    /// The quote token's decimal precision must leave 10^scale
    /// representable in a u128.
    ScaleTooLarge,
}

/// The values the core reads from the caller's configuration:
/// immutable for the process lifetime.
#[derive(Clone, Copy, Debug)]
pub struct EvalParams {
    /// Input trade size, in smallest units of the input token.
    pub trade_size: u64,
    /// Fixed cost estimate, in smallest units of the quote token.
    pub cost_units: u128,
    /// Minimum profit threshold, in smallest units of the quote token.
    pub min_profit_units: u128,
    /// Decimal places of the quote token.
    pub scale: u32,
    /// Polling interval, in seconds.
    pub interval_secs: u64,
}

impl EvalParams {
    pub open spec fn wf(self) -> bool {
        &&& self.trade_size > 0
        &&& self.interval_secs > 0
        &&& self.scale <= MAX_SCALE
    }

    /// Validate a configuration before the sampling loop may start:
    /// an invalid one is rejected, never run with.
    pub fn new(
        trade_size: u64,
        cost_units: u128,
        min_profit_units: u128,
        scale: u32,
        interval_secs: u64,
    ) -> (r: Result<EvalParams, ConfigError>)
        ensures
            r is Err <==> (trade_size == 0 || interval_secs == 0 || scale > MAX_SCALE),
            trade_size == 0 ==> r == Result::<EvalParams, ConfigError>::Err(
                ConfigError::ZeroTradeSize,
            ),
            trade_size > 0 && interval_secs == 0 ==> r == Result::<
                EvalParams,
                ConfigError,
            >::Err(ConfigError::ZeroInterval),
            trade_size > 0 && interval_secs > 0 && scale > MAX_SCALE ==> r == Result::<
                EvalParams,
                ConfigError,
            >::Err(ConfigError::ScaleTooLarge),
            r is Ok ==> {
                let p = r.unwrap();
                &&& p.trade_size == trade_size
                &&& p.cost_units == cost_units
                &&& p.min_profit_units == min_profit_units
                &&& p.scale == scale
                &&& p.interval_secs == interval_secs
                &&& p.wf()
            },
    {
        if trade_size == 0 {
            Err(ConfigError::ZeroTradeSize)
        } else if interval_secs == 0 {
            Err(ConfigError::ZeroInterval)
        } else if scale > MAX_SCALE {
            Err(ConfigError::ScaleTooLarge)
        } else {
            Ok(EvalParams { trade_size, cost_units, min_profit_units, scale, interval_secs })
        }
    }
}

} // verus!
