//! What a renderer is shown of each cell of the gas grid.

use vstd::prelude::*;
use vstd::std_specs::ops::{DivSpec, SubSpec};
use crate::gas::{Gas, GasMixture, PressureModel};
use crate::graphics::Color;
use crate::grid::{GasGrid, GridError};
use crate::lattice::Lattice;
use crate::number::{clamp, clamped, count, exact, from_count, total, Number};

verus! {

/// Which quantity of the gas a renderer shows.
#[derive(Clone, Copy, Debug, PartialEq, Eq, Structural)]
pub enum GasVisualizationSettings {
    /// Nothing is shown.
    Hidden,
    /// The amounts of oxygen, nitrogen and carbon dioxide.
    Moles,
    /// The partial pressures of oxygen, nitrogen and carbon dioxide.
    Pressure,
    /// The temperature.
    Temperature,
}

/// What a renderer is handed for one cell.
#[derive(Debug)]
pub enum CellSignal<Q> {
    /// The tile is blocked. A blocked tile is always shown as such.
    Blocked,
    /// Nothing is to be shown.
    Hidden,
    /// The amounts of three species.
    Moles { oxygen: Q, nitrogen: Q, carbon_dioxide: Q },
    /// The partial pressures of three species.
    Pressure { oxygen: Q, nitrogen: Q, carbon_dioxide: Q },
    /// The temperature.
    Temperature(Q),
}

/// The signal of a cell: `Blocked` for a blocked tile whatever the mode, and
/// otherwise the quantity that the mode asks for.
pub open spec fn signal_of<Q: Number>(
    settings: GasVisualizationSettings,
    cell: GasMixture<Q>,
    blocked: bool,
    model: PressureModel<Q>,
) -> CellSignal<Q> {
    if blocked {
        CellSignal::Blocked
    } else {
        match settings {
            GasVisualizationSettings::Hidden => CellSignal::Hidden,
            GasVisualizationSettings::Moles => CellSignal::Moles {
                oxygen: cell.amount[Gas::Oxygen.ordinal() as int],
                nitrogen: cell.amount[Gas::Nitrogen.ordinal() as int],
                carbon_dioxide: cell.amount[Gas::CarbonDioxide.ordinal() as int],
            },
            GasVisualizationSettings::Pressure => CellSignal::Pressure {
                oxygen: cell.pressure(Gas::Oxygen, model),
                nitrogen: cell.pressure(Gas::Nitrogen, model),
                carbon_dioxide: cell.pressure(Gas::CarbonDioxide, model),
            },
            GasVisualizationSettings::Temperature => CellSignal::Temperature(cell.temperature),
        }
    }
}

/// How strongly a channel of a colour is lit by `value`: (value - dark) /
/// span, brought into the range from 0 to 1.
pub open spec fn shade<Q: Number>(value: Q, dark: u16, span: Q) -> Q {
    clamped(value.sub_spec(count::<Q>(dark)).div_spec(span), count::<Q>(0), count::<Q>(1))
}

/// How strongly a channel of a colour is lit by `value`: value / span,
/// brought into the range from 0 to 1.
pub open spec fn shade_from_zero<Q: Number>(value: Q, span: Q) -> Q {
    clamped(value.div_spec(span), count::<Q>(0), count::<Q>(1))
}

/// The colour in which a signal is drawn. A blocked tile is a clear dark
/// grey and a hidden one is clear black. Everything else is a quarter
/// opaque: pressures light red, green and blue for oxygen, nitrogen and
/// carbon dioxide, in full at 1.5, 1.5 and 1; amounts light red for oxygen
/// from 75 to 90 and green and blue for nitrogen and carbon dioxide up to
/// 100; the temperature lights red from 250 to 500.
pub open spec fn color_of<Q: Number>(signal: CellSignal<Q>) -> Color<Q> {
    let zero = count::<Q>(0);
    let quarter = count::<Q>(1).div_spec(count::<Q>(4));
    match signal {
        CellSignal::Blocked => {
            let tenth = count::<Q>(1).div_spec(count::<Q>(10));
            Color { red: tenth, green: tenth, blue: tenth, alpha: zero }
        },
        CellSignal::Hidden => Color { red: zero, green: zero, blue: zero, alpha: zero },
        CellSignal::Pressure { oxygen, nitrogen, carbon_dioxide } => Color {
            red: shade_from_zero(oxygen, count::<Q>(3).div_spec(count::<Q>(2))),
            green: shade_from_zero(nitrogen, count::<Q>(3).div_spec(count::<Q>(2))),
            blue: shade_from_zero(carbon_dioxide, count::<Q>(1)),
            alpha: quarter,
        },
        CellSignal::Moles { oxygen, nitrogen, carbon_dioxide } => Color {
            red: shade(oxygen, 75, count::<Q>(15)),
            green: shade_from_zero(nitrogen, count::<Q>(100)),
            blue: shade_from_zero(carbon_dioxide, count::<Q>(100)),
            alpha: quarter,
        },
        CellSignal::Temperature(temperature) => Color {
            red: shade(temperature, 250, count::<Q>(250)),
            green: zero,
            blue: zero,
            alpha: quarter,
        },
    }
}

impl<Q: Number> CellSignal<Q> {
    /// The colour in which the signal is drawn.
    pub fn color(&self) -> (color: Color<Q>)
        requires
            total::<Q>(),
        ensures
            exact::<Q>() ==> color == color_of(*self),
    {
        let zero: Q = from_count(0);
        let one: Q = from_count(1);
        let four: Q = from_count(4);
        let quarter = one / four;
        match self {
            CellSignal::Blocked => {
                let ten: Q = from_count(10);
                let tenth = one / ten;
                Color { red: tenth, green: tenth, blue: tenth, alpha: zero }
            },
            CellSignal::Hidden => Color { red: zero, green: zero, blue: zero, alpha: zero },
            CellSignal::Pressure { oxygen, nitrogen, carbon_dioxide } => {
                let two: Q = from_count(2);
                let three: Q = from_count(3);
                Color {
                    red: clamp(*oxygen / (three / two), zero, one),
                    green: clamp(*nitrogen / (three / two), zero, one),
                    blue: clamp(*carbon_dioxide / one, zero, one),
                    alpha: quarter,
                }
            },
            CellSignal::Moles { oxygen, nitrogen, carbon_dioxide } => {
                let dark: Q = from_count(75);
                let span: Q = from_count(15);
                let full: Q = from_count(100);
                Color {
                    red: clamp((*oxygen - dark) / span, zero, one),
                    green: clamp(*nitrogen / full, zero, one),
                    blue: clamp(*carbon_dioxide / full, zero, one),
                    alpha: quarter,
                }
            },
            CellSignal::Temperature(temperature) => {
                let dark: Q = from_count(250);
                Color {
                    red: clamp((*temperature - dark) / dark, zero, one),
                    green: zero,
                    blue: zero,
                    alpha: quarter,
                }
            },
        }
    }
}

impl GasVisualizationSettings {
    /// The signal of one cell under this mode.
    pub fn signal<Q: Number>(
        self,
        cell: &GasMixture<Q>,
        blocked: bool,
        model: &PressureModel<Q>,
    ) -> (signal: CellSignal<Q>)
        requires
            total::<Q>(),
        ensures
            exact::<Q>() || blocked || self != GasVisualizationSettings::Pressure ==> signal
                == signal_of(self, *cell, blocked, *model),
    {
        if blocked {
            return CellSignal::Blocked;
        }
        match self {
            GasVisualizationSettings::Hidden => CellSignal::Hidden,
            GasVisualizationSettings::Moles => CellSignal::Moles {
                oxygen: cell.amount_of(Gas::Oxygen),
                nitrogen: cell.amount_of(Gas::Nitrogen),
                carbon_dioxide: cell.amount_of(Gas::CarbonDioxide),
            },
            GasVisualizationSettings::Pressure => CellSignal::Pressure {
                oxygen: cell.get_pressure(Gas::Oxygen, model),
                nitrogen: cell.get_pressure(Gas::Nitrogen, model),
                carbon_dioxide: cell.get_pressure(Gas::CarbonDioxide, model),
            },
            GasVisualizationSettings::Temperature => CellSignal::Temperature(cell.temperature),
        }
    }
}

impl<Q: Number> GasGrid<Q> {
    /// The signal of the cell `(x, y)` under the mode `settings`, or
    /// `CellOutOfBounds` when the grid has no such cell.
    pub fn signal(
        &self,
        x: usize,
        y: usize,
        settings: GasVisualizationSettings,
        model: &PressureModel<Q>,
    ) -> (signal: Result<CellSignal<Q>, GridError>)
        requires
            total::<Q>(),
        ensures
            self.wf(),
            match signal {
                Ok(signal) => self.contains(x as int, y as int) && (exact::<Q>()
                    || self@.wall_mask[x as int][y as int] || settings
                    != GasVisualizationSettings::Pressure ==> signal == signal_of(
                    settings,
                    self@.cells[x as int][y as int],
                    self@.wall_mask[x as int][y as int],
                    *model,
                )),
                Err(error) => !self.contains(x as int, y as int) && error
                    == GridError::CellOutOfBounds,
            },
    {
        match self.cell(x, y) {
            Err(error) => Err(error),
            Ok(cell) => {
                match self.is_wall(x, y) {
                    Err(error) => Err(error),
                    Ok(blocked) => Ok(settings.signal(&cell, blocked, model)),
                }
            },
        }
    }
}

impl<Q: Number> GasGrid<Q> {
    /// The colour of every cell under the mode `settings`.
    pub fn paint(&self, settings: GasVisualizationSettings, model: &PressureModel<Q>) -> (colors:
        Lattice<Color<Q>>)
        requires
            total::<Q>(),
        ensures
            self.wf(),
            colors.wf(),
            colors.spec_width() == self.spec_width(),
            colors.spec_height() == self.spec_height(),
            exact::<Q>() ==> forall|x: int, y: int|
                self.contains(x, y) ==> #[trigger] colors@[x][y] == color_of(
                    signal_of(settings, self@.cells[x][y], self@.wall_mask[x][y], *model),
                ),
    {
        let width = self.width();
        let height = self.height();
        let clear: Q = from_count(0);
        let mut colors: Lattice<Color<Q>> = Lattice::new(
            width,
            height,
            Color { red: clear, green: clear, blue: clear, alpha: clear },
        );
        let mut x: usize = 0;
        while x < width
            invariant
                x <= width,
                total::<Q>(),
                width == self.spec_width(),
                height == self.spec_height(),
                self.wf(),
                colors.wf(),
                colors.spec_width() == width,
                colors.spec_height() == height,
                exact::<Q>() ==> forall|i: int, j: int|
                    0 <= i < x && 0 <= j < height ==> #[trigger] colors@[i][j] == color_of(
                        signal_of(settings, self@.cells[i][j], self@.wall_mask[i][j], *model),
                    ),
            decreases width - x,
        {
            let mut y: usize = 0;
            while y < height
                invariant
                    x < width,
                    y <= height,
                    total::<Q>(),
                    width == self.spec_width(),
                    height == self.spec_height(),
                    self.wf(),
                    colors.wf(),
                    colors.spec_width() == width,
                    colors.spec_height() == height,
                    exact::<Q>() ==> forall|i: int, j: int|
                        0 <= i < x && 0 <= j < height ==> #[trigger] colors@[i][j] == color_of(
                            signal_of(settings, self@.cells[i][j], self@.wall_mask[i][j], *model),
                        ),
                    exact::<Q>() ==> forall|j: int|
                        0 <= j < y ==> #[trigger] colors@[x as int][j] == color_of(
                            signal_of(
                                settings,
                                self@.cells[x as int][j],
                                self@.wall_mask[x as int][j],
                                *model,
                            ),
                        ),
                decreases height - y,
            {
                match self.signal(x, y, settings, model) {
                    Ok(signal) => {
                        colors.set(x, y, signal.color());
                    },
                    Err(_) => {},
                }
                y += 1;
            }
            x += 1;
        }
        colors
    }
}

/// A blocked tile is shown as blocked under every mode and whatever it holds.
pub proof fn lemma_walls_are_always_shown<Q: Number>(
    settings: GasVisualizationSettings,
    cell: GasMixture<Q>,
    model: PressureModel<Q>,
)
    ensures
        signal_of(settings, cell, true, model) == CellSignal::<Q>::Blocked,
{
}

} // verus!
