//! The gas species that a tile of the station can hold, and the mixture of
//! them in one place.

use vstd::prelude::*;
use vstd::std_specs::ops::{AddSpec, DivSpec, MulSpec, SubSpec};
use crate::number::{
    at_least, at_most, bounds, clamp, clamped, comparable, converts, count, exact, from_count,
    greater,
    is_at_least, lemma_clamp_is_idempotent, lemma_clamp_lies_in_range, lemma_clamp_stays_in_range,
    less, ordered, ordered_bounds, total, Number,
};

verus! {

/// Number of gas species; every mixture holds one amount per species.
pub const GAS_COUNT: usize = 7;

/// A gas species. The position of a species in this list is its index into
/// the per-species amounts of a mixture.
#[derive(Clone, Copy, Debug, PartialEq, Eq, Hash, Structural)]
pub enum Gas {
    /// No gas at all; the species that stands first.
    Vacuum,
    Oxygen,
    Nitrogen,
    CarbonDioxide,
    Helium3,
    Hydrogen,
    WaterVapor,
}

impl Gas {
    /// The zero-based ordinal of the species.
    pub open spec fn ordinal(self) -> nat {
        match self {
            Gas::Vacuum => 0,
            Gas::Oxygen => 1,
            Gas::Nitrogen => 2,
            Gas::CarbonDioxide => 3,
            Gas::Helium3 => 4,
            Gas::Hydrogen => 5,
            Gas::WaterVapor => 6,
        }
    }

    /// The index of the species into a mixture's amounts.
    pub fn index(self) -> (i: usize)
        ensures
            i == self.ordinal(),
            i < GAS_COUNT,
    {
        match self {
            Gas::Vacuum => 0,
            Gas::Oxygen => 1,
            Gas::Nitrogen => 2,
            Gas::CarbonDioxide => 3,
            Gas::Helium3 => 4,
            Gas::Hydrogen => 5,
            Gas::WaterVapor => 6,
        }
    }
}

impl Gas {
    /// The species with the given index, if there is one.
    pub fn from_index(index: usize) -> (gas: Option<Gas>)
        ensures
            index < GAS_COUNT ==> gas is Some && gas->Some_0.ordinal() == index,
            index >= GAS_COUNT ==> gas is None,
    {
        match index {
            0 => Some(Gas::Vacuum),
            1 => Some(Gas::Oxygen),
            2 => Some(Gas::Nitrogen),
            3 => Some(Gas::CarbonDioxide),
            4 => Some(Gas::Helium3),
            5 => Some(Gas::Hydrogen),
            6 => Some(Gas::WaterVapor),
            _ => None,
        }
    }
}

impl Default for Gas {
    fn default() -> (gas: Gas)
        ensures
            gas == Gas::Vacuum,
    {
        Gas::Vacuum
    }
}

/// Two species with the same index are the same species.
pub proof fn lemma_ordinal_is_injective(a: Gas, b: Gas)
    requires
        a.ordinal() == b.ordinal(),
    ensures
        a == b,
{
}

/// The indices of the species are the numbers below `GAS_COUNT`, each taken once.
pub proof fn lemma_ordinals_are_contiguous(index: nat)
    ensures
        index < GAS_COUNT <==> exists|gas: Gas| #[trigger] gas.ordinal() == index,
{
    if index < GAS_COUNT {
        let gas = if index == 0 {
            Gas::Vacuum
        } else if index == 1 {
            Gas::Oxygen
        } else if index == 2 {
            Gas::Nitrogen
        } else if index == 3 {
            Gas::CarbonDioxide
        } else if index == 4 {
            Gas::Helium3
        } else if index == 5 {
            Gas::Hydrogen
        } else {
            Gas::WaterVapor
        };
        assert(gas.ordinal() == index);
    }
}

/// The gas in one place: an amount of each species, in moles, and a
/// temperature. `Q` is the kind of number in which both are kept.
#[derive(Debug)]
pub struct GasMixture<Q> {
    /// The amount of each species, at the index of the species.
    pub amount: [Q; GAS_COUNT],
    /// The temperature of the mixture.
    pub temperature: Q,
}

/// The two constants of the ideal gas relation.
#[derive(Debug)]
pub struct PressureModel<Q> {
    /// The gas constant.
    pub gas_constant: Q,
    /// The volume of one cell.
    pub cell_volume: Q,
}

impl<Q: Copy> Clone for GasMixture<Q> {
    fn clone(&self) -> (copy: GasMixture<Q>)
        ensures
            copy == *self,
    {
        GasMixture { amount: self.amount, temperature: self.temperature }
    }
}

impl<Q: Copy> Copy for GasMixture<Q> {

}

impl<Q: Copy> Clone for PressureModel<Q> {
    fn clone(&self) -> (copy: PressureModel<Q>)
        ensures
            copy == *self,
    {
        PressureModel { gas_constant: self.gas_constant, cell_volume: self.cell_volume }
    }
}

impl<Q: Copy> Copy for PressureModel<Q> {

}

/// The mixture that holds nothing: none of any species, at the temperature zero.
pub open spec fn nothing<Q: Number>() -> GasMixture<Q> {
    GasMixture {
        amount: [
            count::<Q>(0),
            count::<Q>(0),
            count::<Q>(0),
            count::<Q>(0),
            count::<Q>(0),
            count::<Q>(0),
            count::<Q>(0),
        ],
        temperature: count::<Q>(0),
    }
}

impl<Q: Number> Default for GasMixture<Q> {
    /// The mixture that holds nothing.
    fn default() -> (mixture: GasMixture<Q>)
        ensures
            converts::<Q>() ==> mixture == nothing::<Q>(),
    {
        let none: Q = from_count(0);
        let mixture = GasMixture {
            amount: [none, none, none, none, none, none, none],
            temperature: none,
        };
        proof {
            if converts::<Q>() {
                assert(mixture.amount@ =~= nothing::<Q>().amount@);
                assert(mixture.amount == nothing::<Q>().amount);
            }
        }
        mixture
    }
}

/// `amounts` with the amount at `index` replaced by `value`.
pub open spec fn replaced<Q>(amounts: [Q; GAS_COUNT], index: int, value: Q) -> [Q; GAS_COUNT] {
    [
        if index == 0 { value } else { amounts[0] },
        if index == 1 { value } else { amounts[1] },
        if index == 2 { value } else { amounts[2] },
        if index == 3 { value } else { amounts[3] },
        if index == 4 { value } else { amounts[4] },
        if index == 5 { value } else { amounts[5] },
        if index == 6 { value } else { amounts[6] },
    ]
}

/// The pressure that `amount` of a gas has at `temperature`:
/// amount * temperature * gas constant / cell volume, taken from left to right.
pub open spec fn pressure_of<Q: Number>(amount: Q, temperature: Q, model: PressureModel<Q>) -> Q {
    amount.mul_spec(temperature).mul_spec(model.gas_constant).div_spec(model.cell_volume)
}

impl<Q: Number> GasMixture<Q> {
    /// The mixture with the amount of one species replaced.
    pub open spec fn with_amount(self, gas: Gas, amount: Q) -> GasMixture<Q> {
        GasMixture {
            amount: replaced(self.amount, gas.ordinal() as int, amount),
            temperature: self.temperature,
        }
    }

    /// The partial pressure of one species.
    pub open spec fn pressure(self, gas: Gas, model: PressureModel<Q>) -> Q {
        pressure_of(self.amount[gas.ordinal() as int], self.temperature, model)
    }

    /// The partial pressures of the first `species` species, added up from
    /// zero in the order of their indices.
    pub open spec fn pressure_sum(self, model: PressureModel<Q>, species: nat) -> Q
        decreases species,
    {
        if species == 0 {
            count::<Q>(0)
        } else {
            self.pressure_sum(model, (species - 1) as nat).add_spec(
                pressure_of(self.amount[species - 1], self.temperature, model),
            )
        }
    }

    /// The sum of the partial pressures of all species.
    pub open spec fn total_pressure(self, model: PressureModel<Q>) -> Q {
        self.pressure_sum(model, GAS_COUNT as nat)
    }

    /// The mixture with every amount brought into the range from `low` to `high`.
    pub open spec fn clamped(self, low: Q, high: Q) -> GasMixture<Q> {
        GasMixture {
            amount: [
                clamped(self.amount[0], low, high),
                clamped(self.amount[1], low, high),
                clamped(self.amount[2], low, high),
                clamped(self.amount[3], low, high),
                clamped(self.amount[4], low, high),
                clamped(self.amount[5], low, high),
                clamped(self.amount[6], low, high),
            ],
            temperature: self.temperature,
        }
    }

    /// Whether a breath of `to_breath` moles finds too little oxygen: the
    /// oxygen that is there is not at least the breath. Just enough oxygen
    /// is enough.
    pub open spec fn suffocates(self, to_breath: Q) -> bool {
        !at_least(self.amount[Gas::Oxygen.ordinal() as int], to_breath)
    }

    /// The mixture after a breath of `to_breath` moles. Where there is at
    /// least that much oxygen, `to_breath` moles of oxygen become carbon
    /// dioxide; otherwise all the oxygen that is there does, and none is left.
    pub open spec fn breathed(self, to_breath: Q) -> GasMixture<Q> {
        let oxygen = self.amount[Gas::Oxygen.ordinal() as int];
        let carbon_dioxide = self.amount[Gas::CarbonDioxide.ordinal() as int];
        if self.suffocates(to_breath) {
            self.with_amount(Gas::CarbonDioxide, carbon_dioxide.add_spec(oxygen)).with_amount(
                Gas::Oxygen,
                count::<Q>(0),
            )
        } else {
            self.with_amount(Gas::Oxygen, oxygen.sub_spec(to_breath)).with_amount(
                Gas::CarbonDioxide,
                carbon_dioxide.add_spec(to_breath),
            )
        }
    }

    /// The mixture after a breach has vented `gas` at `rate` for the time
    /// `dt`: the amount of `gas` less `rate * dt`, brought into the range
    /// from `low` to `high`.
    pub open spec fn vented(self, gas: Gas, rate: Q, dt: Q, low: Q, high: Q) -> GasMixture<Q> {
        self.with_amount(
            gas,
            clamped(self.amount[gas.ordinal() as int].sub_spec(rate.mul_spec(dt)), low, high),
        )
    }

    /// The mixture after it has been heated at `rate` for the time `dt`: its
    /// temperature plus `rate * dt`.
    pub open spec fn heated(self, rate: Q, dt: Q) -> GasMixture<Q> {
        GasMixture {
            amount: self.amount,
            temperature: self.temperature.add_spec(rate.mul_spec(dt)),
        }
    }

    /// A mixture of `amount` of one species at `temperature`, with none of
    /// any other species.
    pub fn single_gas(gas: Gas, amount: Q, temperature: Q) -> (mixture: GasMixture<Q>)
        ensures
            mixture.temperature == temperature,
            mixture.amount[gas.ordinal() as int] == amount,
            converts::<Q>() ==> forall|i: int|
                0 <= i < GAS_COUNT && i != gas.ordinal() ==> #[trigger] mixture.amount[i]
                    == count::<Q>(0),
    {
        let mut mixture: GasMixture<Q> = GasMixture::default();
        mixture.amount[gas.index()] = amount;
        mixture.temperature = temperature;
        mixture
    }

    /// The amount of one species.
    pub fn amount_of(&self, gas: Gas) -> (amount: Q)
        ensures
            amount == self.amount[gas.ordinal() as int],
    {
        self.amount[gas.index()]
    }

    /// Replaces the amount of one species; the other amounts and the
    /// temperature stay.
    pub fn set_amount(&mut self, gas: Gas, amount: Q)
        ensures
            *final(self) == old(self).with_amount(gas, amount),
    {
        self.amount[gas.index()] = amount;
        assert(self.amount@ =~= old(self).with_amount(gas, amount).amount@);
        assert(self.amount == old(self).with_amount(gas, amount).amount);
    }

    /// The partial pressure of one species.
    pub fn get_pressure(&self, gas: Gas, model: &PressureModel<Q>) -> (pressure: Q)
        requires
            total::<Q>(),
        ensures
            exact::<Q>() ==> pressure == self.pressure(gas, *model),
    {
        self.amount[gas.index()] * self.temperature * model.gas_constant / model.cell_volume
    }

    /// The sum of the partial pressures of all species.
    pub fn get_total_pressure(&self, model: &PressureModel<Q>) -> (pressure: Q)
        requires
            total::<Q>(),
        ensures
            exact::<Q>() ==> pressure == self.total_pressure(*model),
    {
        let mut sum: Q = from_count(0);
        let mut i: usize = 0;
        while i < GAS_COUNT
            invariant
                i <= GAS_COUNT,
                total::<Q>(),
                exact::<Q>() ==> sum == self.pressure_sum(*model, i as nat),
            decreases GAS_COUNT - i,
        {
            sum = sum + self.amount[i] * self.temperature * model.gas_constant / model.cell_volume;
            i += 1;
        }
        sum
    }

    /// Brings every amount into the range from `low` to `high`. The
    /// temperature is left as it is.
    pub fn gas_clamp(&mut self, low: Q, high: Q)
        ensures
            final(self).temperature == old(self).temperature,
            ordered::<Q>() ==> *final(self) == old(self).clamped(low, high),
    {
        let mut i: usize = 0;
        while i < GAS_COUNT
            invariant
                i <= GAS_COUNT,
                self.temperature == old(self).temperature,
                forall|k: int|
                    i <= k < GAS_COUNT ==> #[trigger] self.amount[k] == old(self).amount[k],
                ordered::<Q>() ==> forall|k: int|
                    0 <= k < i ==> #[trigger] self.amount[k] == clamped(
                        old(self).amount[k],
                        low,
                        high,
                    ),
            decreases GAS_COUNT - i,
        {
            self.amount[i] = clamp(self.amount[i], low, high);
            i += 1;
        }
        proof {
            if ordered::<Q>() {
                assert(self.amount@ =~= old(self).clamped(low, high).amount@);
                assert(self.amount == old(self).clamped(low, high).amount);
            }
        }
    }

    /// A breath of `to_breath` moles. Where the mixture holds at least that
    /// much oxygen, `to_breath` moles of oxygen become carbon dioxide and
    /// `false` is returned. Otherwise all the oxygen that is there becomes
    /// carbon dioxide, none is left, and `true` is returned: the breather
    /// suffocates.
    pub fn breathe(&mut self, to_breath: Q) -> (suffocating: bool)
        requires
            total::<Q>(),
        ensures
            final(self).temperature == old(self).temperature,
            forall|species: int|
                0 <= species < GAS_COUNT && species != Gas::Oxygen.ordinal() && species
                    != Gas::CarbonDioxide.ordinal() ==> #[trigger] final(self).amount[species]
                    == old(self).amount[species],
            exact::<Q>() ==> suffocating == old(self).suffocates(to_breath),
            exact::<Q>() ==> *final(self) == old(self).breathed(to_breath),
    {
        let oxygen = self.amount_of(Gas::Oxygen);
        let carbon_dioxide = self.amount_of(Gas::CarbonDioxide);
        if is_at_least(oxygen, to_breath) {
            self.set_amount(Gas::Oxygen, oxygen - to_breath);
            self.set_amount(Gas::CarbonDioxide, carbon_dioxide + to_breath);
            false
        } else {
            self.set_amount(Gas::CarbonDioxide, carbon_dioxide + oxygen);
            self.set_amount(Gas::Oxygen, from_count(0));
            true
        }
    }

    /// Heats the mixture at `rate` for the time `dt`: the temperature gains
    /// `rate * dt`. The amounts stay.
    pub fn heat(&mut self, rate: Q, dt: Q)
        requires
            total::<Q>(),
        ensures
            exact::<Q>() ==> *final(self) == old(self).heated(rate, dt),
            final(self).amount == old(self).amount,
    {
        self.temperature = self.temperature + rate * dt;
    }

    /// Vents `gas` through a breach at `rate` for the time `dt`: the amount
    /// of `gas` loses `rate * dt` and is then brought into the range from
    /// `low` to `high`. Nothing else changes.
    pub fn breach(&mut self, gas: Gas, rate: Q, dt: Q, low: Q, high: Q)
        requires
            total::<Q>(),
        ensures
            final(self).temperature == old(self).temperature,
            forall|species: int|
                0 <= species < GAS_COUNT && species != gas.ordinal()
                    ==> #[trigger] final(self).amount[species] == old(self).amount[species],
            exact::<Q>() ==> *final(self) == old(self).vented(gas, rate, dt, low, high),
    {
        let left = self.amount_of(gas) - rate * dt;
        self.set_amount(gas, clamp(left, low, high));
    }
}

/// After a clamp no amount of the mixture is less than the lower bound or
/// greater than the upper one, and the temperature is as it was.
pub proof fn lemma_clamped_mixture_is_in_range<Q: Number>(
    mixture: GasMixture<Q>,
    low: Q,
    high: Q,
    species: int,
)
    requires
        bounds(low, high),
        0 <= species < GAS_COUNT,
    ensures
        !less(mixture.clamped(low, high).amount[species], low),
        !greater(mixture.clamped(low, high).amount[species], high),
        mixture.clamped(low, high).temperature == mixture.temperature,
{
    lemma_clamp_stays_in_range(mixture.amount[species], low, high);
}

/// After a clamp every amount that can be compared with the bounds lies in
/// the range from the lower bound to the upper one.
pub proof fn lemma_clamped_mixture_lies_in_range<Q: Number>(
    mixture: GasMixture<Q>,
    low: Q,
    high: Q,
    species: int,
)
    requires
        ordered_bounds(low, high),
        0 <= species < GAS_COUNT,
        comparable(mixture.amount[species], low),
        comparable(mixture.amount[species], high),
    ensures
        at_least(mixture.clamped(low, high).amount[species], low),
        at_most(mixture.clamped(low, high).amount[species], high),
{
    lemma_clamp_lies_in_range(mixture.amount[species], low, high);
}

/// Clamping a mixture twice gives what clamping it once gives.
pub proof fn lemma_clamped_mixture_stays<Q: Number>(mixture: GasMixture<Q>, low: Q, high: Q)
    requires
        bounds(low, high),
    ensures
        mixture.clamped(low, high).clamped(low, high) == mixture.clamped(low, high),
{
    let once = mixture.clamped(low, high);
    let twice = once.clamped(low, high);
    assert forall|species: int| 0 <= species < GAS_COUNT implies twice.amount[species]
        == once.amount[species] by {
        lemma_clamp_is_idempotent(mixture.amount[species], low, high);
    }
    assert(twice.amount@ =~= once.amount@);
    assert(twice.amount == once.amount);
}

/// After a breach has vented it, a species is neither less than the lower
/// bound nor greater than the upper one; the other species and the
/// temperature are as they were.
pub proof fn lemma_vented_stays_in_range<Q: Number>(
    mixture: GasMixture<Q>,
    gas: Gas,
    rate: Q,
    dt: Q,
    low: Q,
    high: Q,
)
    requires
        bounds(low, high),
    ensures
        !less(mixture.vented(gas, rate, dt, low, high).amount[gas.ordinal() as int], low),
        !greater(mixture.vented(gas, rate, dt, low, high).amount[gas.ordinal() as int], high),
        mixture.vented(gas, rate, dt, low, high).temperature == mixture.temperature,
        forall|species: int|
            0 <= species < GAS_COUNT && species != gas.ordinal() ==> #[trigger] mixture.vented(
                gas,
                rate,
                dt,
                low,
                high,
            ).amount[species] == mixture.amount[species],
{
    let left = mixture.amount[gas.ordinal() as int].sub_spec(rate.mul_spec(dt));
    lemma_clamp_stays_in_range(left, low, high);
}

/// After a breach has vented it, a species lies in the range from the lower
/// bound to the upper one, if what was left of it can be compared with the
/// bounds.
pub proof fn lemma_vented_lies_in_range<Q: Number>(
    mixture: GasMixture<Q>,
    gas: Gas,
    rate: Q,
    dt: Q,
    low: Q,
    high: Q,
)
    requires
        ordered_bounds(low, high),
        comparable(mixture.amount[gas.ordinal() as int].sub_spec(rate.mul_spec(dt)), low),
        comparable(mixture.amount[gas.ordinal() as int].sub_spec(rate.mul_spec(dt)), high),
    ensures
        at_least(mixture.vented(gas, rate, dt, low, high).amount[gas.ordinal() as int], low),
        at_most(mixture.vented(gas, rate, dt, low, high).amount[gas.ordinal() as int], high),
{
    let left = mixture.amount[gas.ordinal() as int].sub_spec(rate.mul_spec(dt));
    lemma_clamp_lies_in_range(left, low, high);
}

/// A breath moves oxygen to carbon dioxide and touches nothing else. With at
/// least as much oxygen as the breath, the breath is what moves and the
/// breather does not suffocate; with less, all the oxygen moves, none is
/// left, and the breather suffocates.
pub proof fn lemma_breath_moves_oxygen<Q: Number>(mixture: GasMixture<Q>, to_breath: Q)
    ensures
        mixture.suffocates(to_breath) <==> !at_least(
            mixture.amount[Gas::Oxygen.ordinal() as int],
            to_breath,
        ),
        mixture.breathed(to_breath).temperature == mixture.temperature,
        forall|species: int|
            0 <= species < GAS_COUNT && species != Gas::Oxygen.ordinal() && species
                != Gas::CarbonDioxide.ordinal() ==> #[trigger] mixture.breathed(
                to_breath,
            ).amount[species] == mixture.amount[species],
        mixture.suffocates(to_breath) ==> mixture.breathed(
            to_breath,
        ).amount[Gas::Oxygen.ordinal() as int] == count::<Q>(0) && mixture.breathed(
            to_breath,
        ).amount[Gas::CarbonDioxide.ordinal() as int]
            == mixture.amount[Gas::CarbonDioxide.ordinal() as int].add_spec(
            mixture.amount[Gas::Oxygen.ordinal() as int],
        ),
        !mixture.suffocates(to_breath) ==> mixture.breathed(
            to_breath,
        ).amount[Gas::Oxygen.ordinal() as int]
            == mixture.amount[Gas::Oxygen.ordinal() as int].sub_spec(to_breath)
            && mixture.breathed(to_breath).amount[Gas::CarbonDioxide.ordinal() as int]
            == mixture.amount[Gas::CarbonDioxide.ordinal() as int].add_spec(to_breath),
{
}

/// Multiplying `less` and `more` by `factor` keeps their order.
pub open spec fn keeps_order_times<Q: Number>(less: Q, more: Q, factor: Q) -> bool {
    at_most(less, more) ==> at_most(less.mul_spec(factor), more.mul_spec(factor))
}

/// Multiplying `factor` by `less` and by `more` keeps their order.
pub open spec fn keeps_order_of_factors<Q: Number>(factor: Q, less: Q, more: Q) -> bool {
    at_most(less, more) ==> at_most(factor.mul_spec(less), factor.mul_spec(more))
}

/// Dividing `less` and `more` by `divisor` keeps their order.
pub open spec fn keeps_order_over<Q: Number>(less: Q, more: Q, divisor: Q) -> bool {
    at_most(less, more) ==> at_most(less.div_spec(divisor), more.div_spec(divisor))
}

/// At one temperature, more gas has no less pressure, if each of the three
/// operations of the pressure keeps the order of the two numbers that it is
/// applied to: the multiplication of the amounts by the temperature, that of
/// the products by the gas constant, and the division by the cell volume.
pub proof fn lemma_pressure_grows_with_amount<Q: Number>(
    less_gas: Q,
    more_gas: Q,
    temperature: Q,
    model: PressureModel<Q>,
)
    requires
        at_most(less_gas, more_gas),
        keeps_order_times(less_gas, more_gas, temperature),
        keeps_order_times(
            less_gas.mul_spec(temperature),
            more_gas.mul_spec(temperature),
            model.gas_constant,
        ),
        keeps_order_over(
            less_gas.mul_spec(temperature).mul_spec(model.gas_constant),
            more_gas.mul_spec(temperature).mul_spec(model.gas_constant),
            model.cell_volume,
        ),
    ensures
        at_most(
            pressure_of(less_gas, temperature, model),
            pressure_of(more_gas, temperature, model),
        ),
{
}

/// In one amount of gas, a higher temperature gives no less pressure, if
/// each of the three operations of the pressure keeps the order of the two
/// numbers that it is applied to.
pub proof fn lemma_pressure_grows_with_temperature<Q: Number>(
    amount: Q,
    colder: Q,
    warmer: Q,
    model: PressureModel<Q>,
)
    requires
        at_most(colder, warmer),
        keeps_order_of_factors(amount, colder, warmer),
        keeps_order_times(amount.mul_spec(colder), amount.mul_spec(warmer), model.gas_constant),
        keeps_order_over(
            amount.mul_spec(colder).mul_spec(model.gas_constant),
            amount.mul_spec(warmer).mul_spec(model.gas_constant),
            model.cell_volume,
        ),
    ensures
        at_most(pressure_of(amount, colder, model), pressure_of(amount, warmer, model)),
{
}

} // verus!
