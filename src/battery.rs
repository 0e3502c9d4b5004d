use vstd::prelude::*;
use crate::error::BatteryError;

verus! {

/// Efficiency is given in parts per million: this value means no loss.
pub const EFFICIENCY_SCALE: u64 = 1_000_000;

/// Minutes in an hour, for turning power over a duration into energy.
pub const MINUTES_PER_HOUR: u64 = 60;

/// A single energy-storage unit.
///
/// Energy is in Wh, power in W, efficiency in parts per million. The same
/// efficiency is applied multiplicatively to energy entering storage and
/// divisively to energy leaving it. Every intermediate amount is truncated to
/// a whole watt-hour.
#[derive(Debug, Clone, Copy)]
pub struct Battery {
    /// Largest amount of energy the unit can hold (Wh).
    pub capacity: u64,
    /// Energy currently stored (Wh).
    pub charge: u64,
    /// Power ceiling for both charging and discharging (W).
    pub max_rate: u64,
    /// Round-trip efficiency, in parts per million.
    pub efficiency: u64,
}

impl Battery {
    /// The state every operation keeps: a positive capacity holding no more
    /// than it can, a positive rate ceiling, and an efficiency in (0, 1].
    pub open spec fn wf(&self) -> bool {
        &&& 0 < self.capacity
        &&& self.charge <= self.capacity
        &&& 0 < self.max_rate
        &&& 0 < self.efficiency <= EFFICIENCY_SCALE
    }

    /// The requested power limited by the rate ceiling.
    pub open spec fn effective_power(&self, power: int) -> int {
        if power < self.max_rate {
            power
        } else {
            self.max_rate as int
        }
    }

    /// Energy at the terminal for `power` W over `minutes`.
    pub open spec fn terminal_energy(&self, power: int, minutes: int) -> int {
        self.effective_power(power) * minutes / (MINUTES_PER_HOUR as int)
    }

    /// Energy that a charge of `power` W over `minutes` adds to storage: the
    /// terminal energy less the efficiency loss, limited by the free room.
    pub open spec fn stored_energy(&self, power: int, minutes: int) -> int {
        let after_loss = self.terminal_energy(power, minutes) * self.efficiency
            / (EFFICIENCY_SCALE as int);
        let room = self.capacity - self.charge;
        if after_loss < room {
            after_loss
        } else {
            room
        }
    }

    /// Energy that storage must give up to deliver `power` W over `minutes`.
    pub open spec fn required_energy(&self, power: int, minutes: int) -> int {
        self.terminal_energy(power, minutes) * (EFFICIENCY_SCALE as int) / (self.efficiency as int)
    }

    /// Energy that a discharge removes from storage: what is required, or all
    /// that is stored when that falls short.
    pub open spec fn removed_energy(&self, power: int, minutes: int) -> int {
        let required = self.required_energy(power, minutes);
        if self.charge < required {
            self.charge as int
        } else {
            required
        }
    }

    /// The state after a charge of `power` W over `minutes`.
    pub open spec fn charged(&self, power: int, minutes: int) -> Battery {
        Battery {
            capacity: self.capacity,
            charge: (self.charge + self.stored_energy(power, minutes)) as u64,
            max_rate: self.max_rate,
            efficiency: self.efficiency,
        }
    }

    /// The state after a discharge of `power` W over `minutes`.
    pub open spec fn discharged(&self, power: int, minutes: int) -> Battery {
        Battery {
            capacity: self.capacity,
            charge: (self.charge - self.removed_energy(power, minutes)) as u64,
            max_rate: self.max_rate,
            efficiency: self.efficiency,
        }
    }

    /// Creates a battery holding `initial_charge` Wh.
    pub fn new(capacity: u64, initial_charge: u64, max_rate: u64, efficiency: u64) -> (r: Battery)
        requires
            0 < capacity,
            initial_charge <= capacity,
            0 < max_rate,
            0 < efficiency <= EFFICIENCY_SCALE,
        ensures
            r.wf(),
            r.capacity == capacity,
            r.charge == initial_charge,
            r.max_rate == max_rate,
            r.efficiency == efficiency,
    {
        Battery { capacity, charge: initial_charge, max_rate, efficiency }
    }

    /// Energy at the terminal for `power` W over `minutes`, computed wide
    /// enough that no step overflows.
    fn terminal_energy_exec(&self, power: u64, minutes: u32) -> (r: u128)
        ensures
            r == self.terminal_energy(power as int, minutes as int),
            r < 0x1_0000_0000_0000_0000_0000_0000,
    {
        let effective: u64 = if power < self.max_rate {
            power
        } else {
            self.max_rate
        };
        let e = effective as u128;
        let m = minutes as u128;
        assert(e * m < 0x1_0000_0000_0000_0000_0000_0000) by (nonlinear_arith)
            requires
                e < 0x1_0000_0000_0000_0000,
                m < 0x1_0000_0000,
        ;
        e * m / (MINUTES_PER_HOUR as u128)
    }

    /// Charges with `amount_w` W for `duration_min` minutes and returns the
    /// energy (Wh) actually added to storage.
    ///
    /// A negative power is rejected and leaves the battery unchanged.
    pub fn charge_battery(&mut self, amount_w: i64, duration_min: u32) -> (r: Result<
        u64,
        BatteryError,
    >)
        requires
            old(self).wf(),
        ensures
            final(self).wf(),
            match r {
                Ok(stored) => {
                    &&& 0 <= amount_w
                    &&& stored == old(self).stored_energy(amount_w as int, duration_min as int)
                    &&& final(self).charge == old(self).charge + stored
                    &&& *final(self) == old(self).charged(amount_w as int, duration_min as int)
                },
                Err(e) => {
                    &&& amount_w < 0
                    &&& e == BatteryError::InvalidInput(amount_w)
                    &&& *final(self) == *old(self)
                },
            },
    {
        if amount_w < 0 {
            return Err(BatteryError::InvalidInput(amount_w));
        }
        let terminal = self.terminal_energy_exec(amount_w as u64, duration_min);
        let eff = self.efficiency as u128;
        assert(terminal * eff < 0x1_0000_0000_0000_0000_0000_0000_0000_0000) by (nonlinear_arith)
            requires
                terminal < 0x1_0000_0000_0000_0000_0000_0000,
                eff <= 1_000_000,
        ;
        let after_loss = terminal * eff / (EFFICIENCY_SCALE as u128);
        let room = self.capacity - self.charge;
        let stored: u64 = if after_loss < room as u128 {
            after_loss as u64
        } else {
            room
        };
        self.charge = self.charge + stored;
        Ok(stored)
    }

    /// Discharges with `amount_w` W for `duration_min` minutes and returns the
    /// energy (Wh) removed from storage; this is storage-side energy, which
    /// exceeds what reaches the terminal by the efficiency loss.
    ///
    /// When storage holds less than is required, it is drained to zero and
    /// the former charge is returned. A negative power is rejected and leaves
    /// the battery unchanged.
    pub fn discharge_battery(&mut self, amount_w: i64, duration_min: u32) -> (r: Result<
        u64,
        BatteryError,
    >)
        requires
            old(self).wf(),
        ensures
            final(self).wf(),
            match r {
                Ok(removed) => {
                    let required = old(self).required_energy(amount_w as int, duration_min as int);
                    &&& 0 <= amount_w
                    &&& removed == old(self).removed_energy(amount_w as int, duration_min as int)
                    &&& old(self).charge < required ==> removed == old(self).charge
                        && final(self).charge == 0
                    &&& required <= old(self).charge ==> removed == required
                        && final(self).charge == old(self).charge - required
                    &&& *final(self) == old(self).discharged(amount_w as int, duration_min as int)
                },
                Err(e) => {
                    &&& amount_w < 0
                    &&& e == BatteryError::InvalidInput(amount_w)
                    &&& *final(self) == *old(self)
                },
            },
    {
        if amount_w < 0 {
            return Err(BatteryError::InvalidInput(amount_w));
        }
        let terminal = self.terminal_energy_exec(amount_w as u64, duration_min);
        let scale = EFFICIENCY_SCALE as u128;
        assert(terminal * scale < 0x1_0000_0000_0000_0000_0000_0000_0000_0000) by (nonlinear_arith)
            requires
                terminal < 0x1_0000_0000_0000_0000_0000_0000,
                scale == 1_000_000,
        ;
        let required = terminal * scale / (self.efficiency as u128);
        if (self.charge as u128) < required {
            let removed = self.charge;
            self.charge = 0;
            Ok(removed)
        } else {
            let removed = required as u64;
            self.charge = self.charge - removed;
            Ok(removed)
        }
    }
}

/// A charge with a non-negative power over a non-negative duration stores a
/// non-negative amount and leaves the battery within its bounds.
pub proof fn lemma_charged_well_formed(b: Battery, power: int, minutes: int)
    requires
        b.wf(),
        0 <= power,
        0 <= minutes,
    ensures
        0 <= b.stored_energy(power, minutes) <= b.capacity - b.charge,
        b.charged(power, minutes).wf(),
        b.charged(power, minutes).charge == b.charge + b.stored_energy(power, minutes),
{
    lemma_terminal_energy_non_negative(b, power, minutes);
    let t = b.terminal_energy(power, minutes);
    let e = b.efficiency as int;
    assert(0 <= t * e) by (nonlinear_arith)
        requires
            0 <= t,
            0 <= e,
    ;
}

/// A discharge with a non-negative power over a non-negative duration removes
/// a non-negative amount, at most the charge, and leaves the battery within
/// its bounds.
pub proof fn lemma_discharged_well_formed(b: Battery, power: int, minutes: int)
    requires
        b.wf(),
        0 <= power,
        0 <= minutes,
    ensures
        0 <= b.removed_energy(power, minutes) <= b.charge,
        b.discharged(power, minutes).wf(),
        b.discharged(power, minutes).charge == b.charge - b.removed_energy(power, minutes),
{
    lemma_terminal_energy_non_negative(b, power, minutes);
    let t = b.terminal_energy(power, minutes);
    let e = b.efficiency as int;
    let s = EFFICIENCY_SCALE as int;
    assert(0 <= t * s / e) by (nonlinear_arith)
        requires
            0 <= t,
            0 < e,
            s == 1_000_000,
    ;
}

proof fn lemma_terminal_energy_non_negative(b: Battery, power: int, minutes: int)
    requires
        b.wf(),
        0 <= power,
        0 <= minutes,
    ensures
        0 <= b.terminal_energy(power, minutes),
{
    let p = b.effective_power(power);
    assert(0 <= p * minutes / 60) by (nonlinear_arith)
        requires
            0 <= p,
            0 <= minutes,
    ;
}

} // verus!
