//! Per-invocation call context and gas accounting.
//!
//! Each invocation carries the authenticated caller address and a gas
//! budget. Every charge is drawn here and fails closed: when the budget
//! does not cover a cost, the charge is refused with an out-of-gas revert
//! and the context is left unchanged.

use vstd::prelude::*;

use crate::domain::EvmAddress;
use crate::revert::Revert;

verus! {

/// Base gas cost of one emitted log.
pub const GAS_LOG_BASE: u64 = 375;

/// Gas cost per indexed log topic.
pub const GAS_LOG_TOPIC: u64 = 375;

/// Gas cost per byte of log data.
pub const GAS_LOG_DATA_BYTE: u64 = 8;

/// The gas pre-charged for a ledger event with `topics` indexed topics and
/// `data_len` bytes of data.
pub open spec fn log_cost(topics: nat, data_len: nat) -> nat {
    (GAS_LOG_BASE + GAS_LOG_TOPIC * topics + GAS_LOG_DATA_BYTE * data_len) as nat
}

/// The context of one invocation: who calls, how much gas they provisioned,
/// and how much of it has been drawn so far.
///
/// The caller address is the authenticated calling principal of the current
/// invocation; every dispatch origin is derived from it and never from a
/// decoded argument.
pub struct CallContext {
    pub caller: EvmAddress,
    pub gas_limit: u64,
    pub gas_used: u64,
}

impl CallContext {
    /// The drawn gas never exceeds the budget.
    pub open spec fn wf(self) -> bool {
        self.gas_used <= self.gas_limit
    }

    /// Opens a context with a fresh budget.
    pub fn new(caller: EvmAddress, gas_limit: u64) -> (c: CallContext)
        ensures
            c.wf(),
            c.caller == caller,
            c.gas_limit == gas_limit,
            c.gas_used == 0,
    {
        CallContext { caller, gas_limit, gas_used: 0 }
    }

    /// Gas still available.
    pub fn remaining_gas(&self) -> (g: u64)
        requires
            self.wf(),
        ensures
            g == self.gas_limit - self.gas_used,
    {
        self.gas_limit - self.gas_used
    }

    /// Draws `cost` gas, refusing the charge when the budget does not
    /// cover it.
    pub fn record_cost(&mut self, cost: u64) -> (r: Result<(), Revert>)
        requires
            old(self).wf(),
        ensures
            final(self).wf(),
            final(self).caller == old(self).caller,
            final(self).gas_limit == old(self).gas_limit,
            old(self).gas_used + cost <= old(self).gas_limit ==> r == Ok::<(), Revert>(())
                && final(self).gas_used == old(self).gas_used + cost,
            old(self).gas_used + cost > old(self).gas_limit ==> r == Err::<(), Revert>(
                Revert::OutOfGas,
            ) && final(self).gas_used == old(self).gas_used,
    {
        if cost <= self.gas_limit - self.gas_used {
            self.gas_used = self.gas_used + cost;
            Ok(())
        } else {
            Err(Revert::OutOfGas)
        }
    }

    /// Pre-charges the fixed log footprint of the event a mutating
    /// operation is expected to make the ledger emit.
    pub fn record_log_costs_manual(&mut self, topics: u64, data_len: u64) -> (r: Result<
        (),
        Revert,
    >)
        requires
            old(self).wf(),
        ensures
            final(self).wf(),
            final(self).caller == old(self).caller,
            final(self).gas_limit == old(self).gas_limit,
            old(self).gas_used + log_cost(topics as nat, data_len as nat) <= old(self).gas_limit
                ==> r == Ok::<(), Revert>(()) && final(self).gas_used == old(self).gas_used
                + log_cost(topics as nat, data_len as nat),
            old(self).gas_used + log_cost(topics as nat, data_len as nat) > old(self).gas_limit
                ==> r == Err::<(), Revert>(Revert::OutOfGas) && final(self).gas_used == old(
                self,
            ).gas_used,
    {
        let cost: u128 = 375u128 + 375u128 * (topics as u128) + 8u128 * (data_len as u128);
        proof {
            assert(cost == log_cost(topics as nat, data_len as nat));
        }
        if cost <= ((self.gas_limit - self.gas_used) as u128) {
            self.gas_used = self.gas_used + (cost as u64);
            Ok(())
        } else {
            Err(Revert::OutOfGas)
        }
    }
}

} // verus!
