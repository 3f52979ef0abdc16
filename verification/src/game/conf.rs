//! The configuration of a simulation.

use vstd::prelude::*;

use crate::entity::phero::Scent;
use crate::entity::Kind;
use crate::space::Dimension;
use crate::space::Location;

verus! {

/// A share of a quantity, counted in millionths.
#[derive(Clone, Copy, Debug, PartialEq, Eq, Structural)]
pub struct Ratio {
    pub per_million: u32,
}

/// The given share of `value`, rounded down.
pub open spec fn share(value: int, per_million: int) -> int {
    (value * per_million) / 1_000_000
}

/// The value once it is cut at the largest `u64`.
pub open spec fn capped(value: int) -> int {
    if value > u64::MAX {
        u64::MAX as int
    } else {
        value
    }
}

impl Ratio {
    /// Gets this share of the given value, rounded down, or the largest `u64`
    /// where the share exceeds it.
    pub fn of(&self, value: u64) -> (part: u64)
        ensures
            part == capped(share(value as int, self.per_million as int)),
    {
        assert(value * self.per_million <= u64::MAX * u32::MAX) by (nonlinear_arith)
            requires
                0 <= value <= u64::MAX,
                0 <= self.per_million <= u32::MAX,
        ;
        let product: u128 = (value as u128) * (self.per_million as u128);
        let part: u128 = product / 1_000_000;
        if part > u64::MAX as u128 {
            u64::MAX
        } else {
            part as u64
        }
    }
}

/// The game configuration.
#[derive(Clone, Copy, Debug)]
pub struct Conf {
    pub fps: Option<u32>,
    pub seed: Option<u64>,
    pub env: Environment,
    pub nest: Nest,
    pub ants: Ants,
    pub morsels: Morsels,
    pub pheromones: Pheromones,
}

/// The grid and how it is shown.
#[derive(Clone, Copy, Debug)]
pub struct Environment {
    pub dimension: (i32, i32),
    pub background: (u8, u8, u8),
    pub grid: Grid,
}

/// Where the nest stands.
#[derive(Clone, Copy, Debug)]
pub struct Nest {
    pub visible: bool,
    pub location: (i32, i32),
}

/// The agents and the parameters of their behaviour.
#[derive(Clone, Copy, Debug)]
pub struct Ants {
    pub visible: bool,
    pub count: usize,
    pub memory_span: usize,
    pub max_phero_concentration: u16,
    pub phero_decrease: u16,
    pub phero_increase_ratio: Ratio,
}

/// The food sources.
#[derive(Clone, Copy, Debug)]
pub struct Morsels {
    pub visible: bool,
    pub count: usize,
    pub storage: u64,
}

/// How the scent markers are shown.
#[derive(Clone, Copy, Debug)]
pub struct Pheromones {
    pub colony: ColonyPhero,
    pub food: FoodPhero,
}

#[derive(Clone, Copy, Debug)]
pub struct ColonyPhero {
    pub visible: bool,
}

#[derive(Clone, Copy, Debug)]
pub struct FoodPhero {
    pub visible: bool,
}

#[derive(Clone, Copy, Debug)]
pub struct Grid {
    pub visible: bool,
}

impl Default for Environment {
    fn default() -> (env: Environment)
        ensures
            env.dimension == (30i32, 30i32),
            env.background == (25u8, 75u8, 75u8),
            !env.grid.visible,
    {
        Environment { dimension: (30, 30), background: (25, 75, 75), grid: Grid { visible: false } }
    }
}

impl Default for Nest {
    fn default() -> (nest: Nest)
        ensures
            nest.visible,
            nest.location == (25i32, 25i32),
    {
        Nest { visible: true, location: (25, 25) }
    }
}

impl Default for Ants {
    fn default() -> (ants: Ants)
        ensures
            ants.visible,
            ants.count == 10,
            ants.memory_span == 30,
            ants.max_phero_concentration == 200,
            ants.phero_decrease == 2,
            ants.phero_increase_ratio.per_million == 100_000,
    {
        Ants {
            visible: true,
            count: 10,
            memory_span: 30,
            max_phero_concentration: 200,
            phero_decrease: 2,
            phero_increase_ratio: Ratio { per_million: 100_000 },
        }
    }
}

impl Default for Morsels {
    fn default() -> (morsels: Morsels)
        ensures
            morsels.visible,
            morsels.count == 20,
            morsels.storage == 30,
    {
        Morsels { visible: true, count: 20, storage: 30 }
    }
}

impl Default for Pheromones {
    fn default() -> (pheromones: Pheromones)
        ensures
            !pheromones.colony.visible,
            !pheromones.food.visible,
    {
        Pheromones { colony: ColonyPhero { visible: false }, food: FoodPhero { visible: false } }
    }
}

impl Default for Conf {
    fn default() -> (conf: Conf)
        ensures
            conf.fps == Some(24u32),
            conf.seed == Some(0u64),
            conf.env.dimension == (30i32, 30i32),
            conf.env.background == (25u8, 75u8, 75u8),
            !conf.env.grid.visible,
            conf.nest.visible,
            conf.nest.location == (25i32, 25i32),
            conf.ants.visible,
            conf.morsels.visible,
            !conf.pheromones.colony.visible,
            !conf.pheromones.food.visible,
            conf.ants.count == 10,
            conf.ants.memory_span == 30,
            conf.ants.max_phero_concentration == 200,
            conf.ants.phero_decrease == 2,
            conf.ants.phero_increase_ratio.per_million == 100_000,
            conf.morsels.count == 20,
            conf.morsels.storage == 30,
            conf.wf(),
    {
        Conf {
            fps: Some(24),
            seed: Some(0),
            env: Environment::default(),
            nest: Nest::default(),
            ants: Ants::default(),
            morsels: Morsels::default(),
            pheromones: Pheromones::default(),
        }
    }
}

impl Conf {
    /// The dimension of the grid.
    pub open spec fn spec_dimension(&self) -> Dimension {
        Dimension { x: self.env.dimension.0, y: self.env.dimension.1 }
    }

    /// The tile of the nest.
    pub open spec fn spec_nest_location(&self) -> Location {
        Location { x: self.nest.location.0, y: self.nest.location.1 }
    }

    /// The total food in the environment at the start: the supply of one
    /// morsel times the number of morsels.
    pub open spec fn total_supply(&self) -> int {
        self.morsels.storage * self.morsels.count
    }

    /// What visibility is configured for the given kind.
    pub open spec fn shows(&self, kind: Kind) -> bool {
        match kind {
            Kind::Grid => self.env.grid.visible,
            Kind::Ant => self.ants.visible,
            Kind::Morsel => self.morsels.visible,
            Kind::Nest => self.nest.visible,
            Kind::Phero { scent: Scent::Colony } => self.pheromones.colony.visible,
            Kind::Phero { scent: Scent::Food } => self.pheromones.food.visible,
        }
    }

    /// How many entities of the given kind the simulation starts with.
    pub open spec fn initial_count(&self, kind: Kind) -> usize {
        match kind {
            Kind::Ant => self.ants.count,
            Kind::Morsel => self.morsels.count,
            _ => 0,
        }
    }

    /// A simulation can run on this configuration: the grid is usable, the
    /// nest stands on it, and the total food fits in a `u64`.
    pub open spec fn wf(&self) -> bool {
        &&& self.spec_dimension().wf()
        &&& self.spec_dimension().holds(self.spec_nest_location())
        &&& self.total_supply() <= u64::MAX
    }

    /// Returns true only if a simulation can run on this configuration.
    pub fn is_valid(&self) -> (valid: bool)
        ensures
            valid == self.wf(),
    {
        let dimension = self.dimension();
        let fits = match self.morsels.storage.checked_mul(self.morsels.count as u64) {
            Some(_) => true,
            None => false,
        };
        dimension.is_valid() && dimension.contains(self.nest_location()) && fits
    }

    /// Gets the dimension of the grid.
    #[verifier::when_used_as_spec(spec_dimension)]
    pub fn dimension(&self) -> (dimension: Dimension)
        ensures
            dimension == self.spec_dimension(),
    {
        Dimension { x: self.env.dimension.0, y: self.env.dimension.1 }
    }

    /// Gets the tile of the nest.
    #[verifier::when_used_as_spec(spec_nest_location)]
    pub fn nest_location(&self) -> (location: Location)
        ensures
            location == self.spec_nest_location(),
    {
        Location { x: self.nest.location.0, y: self.nest.location.1 }
    }

    /// Returns true only if the given kind should be drawn.
    pub fn is_visible(&self, kind: &Kind) -> (visible: bool)
        ensures
            visible == self.shows(*kind),
    {
        match kind {
            Kind::Grid => self.env.grid.visible,
            Kind::Ant => self.ants.visible,
            Kind::Morsel => self.morsels.visible,
            Kind::Nest => self.nest.visible,
            Kind::Phero { scent } => match scent {
                Scent::Colony => self.pheromones.colony.visible,
                Scent::Food => self.pheromones.food.visible,
            },
        }
    }

    /// Gets the initial number of entities of the given kind.
    pub fn count(&self, kind: Kind) -> (count: usize)
        ensures
            count == self.initial_count(kind),
    {
        match kind {
            Kind::Ant => self.ants.count,
            Kind::Morsel => self.morsels.count,
            _ => 0,
        }
    }

    /// Gets the total food initially located in the environment.
    pub fn total_storage(&self) -> (total: u64)
        requires
            self.total_supply() <= u64::MAX,
        ensures
            total == self.total_supply(),
    {
        self.morsels.storage * (self.morsels.count as u64)
    }
}

} // verus!
