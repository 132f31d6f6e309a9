//! Gas vessels: canisters, and the machine that holds four of them.

use vstd::prelude::*;
use vstd::std_specs::ops::DivSpec;
use crate::gas::{nothing, GasMixture, PressureModel};
use crate::number::{
    converts, count, exact, from_count, from_wide_count, greater, is_greater, total, wide_count,
    Number,
};

verus! {

/// Number of canisters in a machine.
pub const MACHINE_SLOTS: usize = 4;

/// A vessel with a gas mixture of its own.
#[derive(Debug)]
pub struct Canister<Q> {
    pub gases: GasMixture<Q>,
    pub volume: Q,
    /// The pressure at which the canister counts as full.
    pub max_pressure: Q,
}

impl<Q: Copy> Clone for Canister<Q> {
    fn clone(&self) -> (copy: Canister<Q>)
        ensures
            copy == *self,
    {
        *self
    }
}

impl<Q: Copy> Copy for Canister<Q> {

}

/// The canister that holds nothing and has no size.
pub open spec fn no_canister<Q: Number>() -> Canister<Q> {
    Canister { gases: nothing::<Q>(), volume: count::<Q>(0), max_pressure: count::<Q>(0) }
}

impl<Q: Number> Default for Canister<Q> {
    /// The canister that holds nothing and has no size.
    fn default() -> (canister: Canister<Q>)
        ensures
            converts::<Q>() ==> canister == no_canister::<Q>(),
    {
        Canister {
            gases: GasMixture::default(),
            volume: from_count(0),
            max_pressure: from_count(0),
        }
    }
}

/// A machine that holds four canisters.
#[derive(Debug)]
pub struct CanisterMachine<Q> {
    pub canisters: [Canister<Q>; MACHINE_SLOTS],
}

/// The gauge of a vessel: which canister of its owner it reads, and how many
/// levels it can show.
#[derive(Clone, Copy, Debug, PartialEq, Eq, Structural)]
pub struct Label {
    pub id: usize,
    pub states: usize,
}

/// The mark of level `level` on a gauge of `states` levels: level / states.
pub open spec fn mark<Q: Number>(level: usize, states: usize) -> Q {
    wide_count::<Q>(level as u64).div_spec(wide_count::<Q>(states as u64))
}

/// The gauge shows `level`: the fill is above the mark of `level` and above
/// no higher mark.
pub open spec fn shows<Q: Number>(percent_full: Q, states: usize, level: usize) -> bool {
    &&& level < states
    &&& greater(percent_full, mark::<Q>(level, states))
    &&& forall|higher: usize|
        level < higher < states ==> !greater(percent_full, #[trigger] mark::<Q>(higher, states))
}

/// The fill is above no mark of the gauge.
pub open spec fn shows_nothing<Q: Number>(percent_full: Q, states: usize) -> bool {
    forall|level: usize|
        level < states ==> !greater(percent_full, #[trigger] mark::<Q>(level, states))
}

impl<Q: Number> Canister<Q> {
    /// How full the canister is: its total pressure over its maximum pressure.
    pub open spec fn percent_full(self, model: PressureModel<Q>) -> Q {
        self.gases.total_pressure(model).div_spec(self.max_pressure)
    }

    /// How full the canister is: its total pressure over its maximum pressure.
    pub fn fill_ratio(&self, model: &PressureModel<Q>) -> (ratio: Q)
        requires
            total::<Q>(),
        ensures
            exact::<Q>() ==> ratio == self.percent_full(*model),
    {
        self.gases.get_total_pressure(model) / self.max_pressure
    }
}

impl<Q: Number> Default for CanisterMachine<Q> {
    /// A machine of four canisters that hold nothing.
    fn default() -> (machine: CanisterMachine<Q>)
        ensures
            converts::<Q>() ==> forall|slot: int|
                0 <= slot < MACHINE_SLOTS ==> #[trigger] machine.canisters[slot]
                    == no_canister::<Q>(),
    {
        let none: Canister<Q> = Canister::default();
        CanisterMachine { canisters: [none, none, none, none] }
    }
}

impl<Q: Number> CanisterMachine<Q> {
    /// How full the canister that the gauge `label` reads is. The machine
    /// has to have such a canister.
    pub fn fill_ratio(&self, label: &Label, model: &PressureModel<Q>) -> (ratio: Q)
        requires
            total::<Q>(),
            label.id < MACHINE_SLOTS,
        ensures
            exact::<Q>() ==> ratio == self.canisters[label.id as int].percent_full(*model),
    {
        self.canisters[label.id].fill_ratio(model)
    }
}

/// The level that a gauge of `states` levels shows for a vessel that is
/// `percent_full`: the highest level whose mark the fill is above. Where the
/// fill is above no mark, the gauge keeps what it shows and nothing is
/// returned.
pub fn update_small_label<Q: Number>(percent_full: Q, states: usize) -> (level: Option<usize>)
    requires
        total::<Q>(),
    ensures
        level matches Some(shown) ==> shown < states,
        exact::<Q>() ==> match level {
            Some(level) => shows(percent_full, states, level),
            None => shows_nothing(percent_full, states),
        },
{
    let levels: Q = from_wide_count(states as u64);
    let mut i: usize = states;
    while i > 0
        invariant
            i <= states,
            total::<Q>(),
            exact::<Q>() ==> levels == wide_count::<Q>(states as u64),
            exact::<Q>() ==> forall|higher: usize|
                i <= higher < states ==> !greater(
                    percent_full,
                    #[trigger] mark::<Q>(higher, states),
                ),
        decreases i,
    {
        i -= 1;
        let level: Q = from_wide_count(i as u64);
        if is_greater(percent_full, level / levels) {
            return Some(i);
        }
    }
    None
}

} // verus!
