//! The fixed 10-by-10 grid and the tick that advances it one generation.

use crate::arith::{gt_bits, fgt, EXTINCTION_THRESHOLD_BITS, ZERO_BITS};
use crate::hunt::{hunt, hunt_units};
use crate::ids::IdGen;
use crate::model::{units_of, Cell, CellData, EvolutionConfig, HuntConfig, Kind, Unit, UNIT_SIZE_BITS};
use vstd::pervasive::VecAdditionalExecFns;
use vstd::prelude::*;

verus! {

/// The side length of the fixed square grid.
pub const GRID_SIDE: usize = 10;

/// The number of cells in the grid, row-major.
pub const GRID_CELLS: usize = 100;

/// The rate triple of the herbivore-eats-plant phase of a tick.
pub open spec fn veg_hunt(cfg: EvolutionConfig) -> HuntConfig {
    HuntConfig {
        hunter_death: cfg.vegeterian_death_rate,
        resource_growth: cfg.plant_growth_rate,
        consuming_rate: cfg.vegeterian_eating_rate,
    }
}

/// The rate triple of the predator-eats-herbivore phase of a tick: a top
/// predator has no resource-growth term.
pub open spec fn pred_hunt(cfg: EvolutionConfig) -> HuntConfig {
    HuntConfig {
        hunter_death: cfg.predator_death_rate,
        resource_growth: ZERO_BITS,
        consuming_rate: cfg.predator_eating_rate,
    }
}

/// The units that survive the end-of-tick cleanup: exactly those whose
/// quantity lies strictly above the extinction threshold, in cell order.
pub open spec fn surviving_units(units: Seq<Unit>) -> Seq<Unit>
    decreases units.len(),
{
    if units.len() == 0 {
        Seq::<Unit>::empty()
    } else {
        let rest = surviving_units(units.drop_last());
        if gt_bits(units.last().quantity, EXTINCTION_THRESHOLD_BITS) {
            rest.push(units.last())
        } else {
            rest
        }
    }
}

/// How one hunt phase rewrites one cell: the water/ground tag is kept, and
/// a ground cell's units are stepped simultaneously by `hunt_units` (water
/// holds no units, before or after).
pub open spec fn cell_hunted(
    before: Cell,
    after: Cell,
    hunter: Kind,
    target: Kind,
    hc: HuntConfig,
) -> bool {
    &&& (after is Ground <==> before is Ground)
    &&& units_of(after) == hunt_units(units_of(before), hunter, target, hc)
}

/// How the cleanup rewrites one cell: the tag is kept and only the units
/// strictly above the extinction threshold remain.
pub open spec fn cell_finalized(before: Cell, after: Cell) -> bool {
    &&& (after is Ground <==> before is Ground)
    &&& units_of(after) == surviving_units(units_of(before))
}

/// One whole tick for one cell's units: the herbivore-eats-plant phase,
/// then — reading the herbivore quantities that phase already wrote — the
/// predator-eats-herbivore phase, then the cleanup.
pub open spec fn ticked_units(units: Seq<Unit>, cfg: EvolutionConfig) -> Seq<Unit> {
    surviving_units(
        hunt_units(
            hunt_units(units, Kind::VegeterianAnimal, Kind::Plant, veg_hunt(cfg)),
            Kind::PredatorAnimal,
            Kind::VegeterianAnimal,
            pred_hunt(cfg),
        ),
    )
}

/// How one tick rewrites one cell: the tag is kept and the units are
/// rewritten by `ticked_units`. Water holds no units and so is a fixed
/// point.
pub open spec fn cell_ticked(before: Cell, after: Cell, cfg: EvolutionConfig) -> bool {
    &&& (after is Ground <==> before is Ground)
    &&& units_of(after) == ticked_units(units_of(before), cfg)
}

/// No two units anywhere in the cells share an identifier.
pub open spec fn unique_ids(cells: Seq<Cell>) -> bool {
    forall|i: int, k: int, j: int, l: int|
        0 <= i < cells.len() && 0 <= j < cells.len() && 0 <= k < units_of(cells[i]).len()
            && 0 <= l < units_of(cells[j]).len() && (i != j || k != l)
            ==> (#[trigger] units_of(cells[i])[k]).id != (#[trigger] units_of(cells[j])[l]).id
}

/// A ground cell holding exactly the units `from_data` builds for the
/// given counts when `start` identifiers were already issued.
pub open spec fn cell_is_made(c: Cell, start: u32, plants: u32, vegeterians: u32, predators: u32) -> bool {
    &&& c is Ground
    &&& units_of(c) == crate::model::made_units(
        start,
        CellData { plants, vegeterians, predators, unit_size: UNIT_SIZE_BITS },
    )
}

/// The units of a ground cell that survive the cleanup: those strictly
/// above the extinction threshold, in order.
fn retain_alive(units: &Vec<Unit>) -> (r: Vec<Unit>)
    ensures
        r@ == surviving_units(units@),
{
    let mut keep: Vec<Unit> = Vec::new();
    let mut i: usize = 0;
    while i < units.len()
        invariant
            i <= units.len(),
            keep@ == surviving_units(units@.take(i as int)),
        decreases units.len() - i,
    {
        let u = units[i];
        proof {
            assert(units@.take(i as int + 1).drop_last() =~= units@.take(i as int));
            assert(units@.take(i as int + 1).last() == units@[i as int]);
        }
        if fgt(u.quantity, EXTINCTION_THRESHOLD_BITS) {
            keep.push(u);
        }
        i = i + 1;
    }
    proof {
        assert(units@.take(units@.len() as int) =~= units@);
    }
    keep
}

/// The cleanup for one cell: water is untouched, and a ground cell keeps
/// exactly its units strictly above the extinction threshold.
fn finalize_cell(cell: &Cell) -> (r: Cell)
    ensures
        cell_finalized(*cell, r),
{
    match cell {
        Cell::Water => Cell::Water,
        Cell::Ground(units) => Cell::Ground(retain_alive(units)),
    }
}

/// A fixed 10-by-10 array of cells in row-major order, a generation
/// counter, and the rate parameters the dynamics run under.
#[derive(Debug)]
pub struct Grid {
    cells: Vec<Cell>,
    generation: u32,
    config: EvolutionConfig,
}

impl Grid {
    /// The cells, row-major.
    pub closed spec fn cells_view(self) -> Seq<Cell> {
        self.cells@
    }

    /// The generation counter.
    pub closed spec fn generation_view(self) -> u32 {
        self.generation
    }

    /// The rate parameters.
    pub closed spec fn config_view(self) -> EvolutionConfig {
        self.config
    }

    /// The structural invariant: exactly one hundred cells.
    pub open spec fn wf(self) -> bool {
        self.cells_view().len() == GRID_CELLS
    }

    /// A grid from an explicit cell layout, at generation zero.
    pub fn new(config: EvolutionConfig, initial_cells: Vec<Cell>) -> (r: Grid)
        requires
            initial_cells@.len() == GRID_CELLS,
        ensures
            r.wf(),
            r.cells_view() == initial_cells@,
            r.generation_view() == 0,
            r.config_view() == config,
    {
        Grid { cells: initial_cells, generation: 0, config }
    }

    /// Read-only access to the cell array, for rendering and
    /// serialization by surrounding code.
    pub fn cells(&self) -> (r: &Vec<Cell>)
        ensures
            r@ == self.cells_view(),
    {
        &self.cells
    }

    /// The current generation counter.
    pub fn generation(&self) -> (r: u32)
        ensures
            r == self.generation_view(),
    {
        self.generation
    }

    /// The herbivore-eats-plant phase over every cell.
    fn feed_vegeterians(&mut self)
        ensures
            final(self).cells_view().len() == old(self).cells_view().len(),
            final(self).generation_view() == old(self).generation_view(),
            final(self).config_view() == old(self).config_view(),
            forall|i: int|
                0 <= i < old(self).cells_view().len() ==> cell_hunted(
                    old(self).cells_view()[i],
                    final(self).cells_view()[i],
                    Kind::VegeterianAnimal,
                    Kind::Plant,
                    veg_hunt(old(self).config_view()),
                ),
    {
        let hc = HuntConfig {
            hunter_death: self.config.vegeterian_death_rate,
            resource_growth: self.config.plant_growth_rate,
            consuming_rate: self.config.vegeterian_eating_rate,
        };
        let mut i: usize = 0;
        while i < self.cells.len()
            invariant
                i <= self.cells.len(),
                hc == veg_hunt(old(self).config_view()),
                self.config == old(self).config,
                self.generation == old(self).generation,
                self.cells@.len() == old(self).cells@.len(),
                forall|j: int|
                    0 <= j < i ==> cell_hunted(
                        old(self).cells@[j],
                        self.cells@[j],
                        Kind::VegeterianAnimal,
                        Kind::Plant,
                        veg_hunt(old(self).config_view()),
                    ),
                forall|j: int| i <= j < self.cells@.len() ==> self.cells@[j] == old(self).cells@[j],
            decreases self.cells.len() - i,
        {
            let stepped = hunt(&self.cells[i], Kind::VegeterianAnimal, Kind::Plant, hc);
            self.cells.set(i, stepped);
            i = i + 1;
        }
    }

    /// The predator-eats-herbivore phase over every cell; predators have
    /// no resource-growth term.
    fn feed_predators(&mut self)
        ensures
            final(self).cells_view().len() == old(self).cells_view().len(),
            final(self).generation_view() == old(self).generation_view(),
            final(self).config_view() == old(self).config_view(),
            forall|i: int|
                0 <= i < old(self).cells_view().len() ==> cell_hunted(
                    old(self).cells_view()[i],
                    final(self).cells_view()[i],
                    Kind::PredatorAnimal,
                    Kind::VegeterianAnimal,
                    pred_hunt(old(self).config_view()),
                ),
    {
        let hc = HuntConfig {
            hunter_death: self.config.predator_death_rate,
            resource_growth: ZERO_BITS,
            consuming_rate: self.config.predator_eating_rate,
        };
        let mut i: usize = 0;
        while i < self.cells.len()
            invariant
                i <= self.cells.len(),
                hc == pred_hunt(old(self).config_view()),
                self.config == old(self).config,
                self.generation == old(self).generation,
                self.cells@.len() == old(self).cells@.len(),
                forall|j: int|
                    0 <= j < i ==> cell_hunted(
                        old(self).cells@[j],
                        self.cells@[j],
                        Kind::PredatorAnimal,
                        Kind::VegeterianAnimal,
                        pred_hunt(old(self).config_view()),
                    ),
                forall|j: int| i <= j < self.cells@.len() ==> self.cells@[j] == old(self).cells@[j],
            decreases self.cells.len() - i,
        {
            let stepped = hunt(&self.cells[i], Kind::PredatorAnimal, Kind::VegeterianAnimal, hc);
            self.cells.set(i, stepped);
            i = i + 1;
        }
    }

    /// The end-of-tick cleanup: every ground cell drops the units whose
    /// quantity does not exceed the extinction threshold; water cells are
    /// untouched.
    fn finalize(&mut self)
        ensures
            final(self).cells_view().len() == old(self).cells_view().len(),
            final(self).generation_view() == old(self).generation_view(),
            final(self).config_view() == old(self).config_view(),
            forall|i: int|
                0 <= i < old(self).cells_view().len() ==> cell_finalized(
                    old(self).cells_view()[i],
                    final(self).cells_view()[i],
                ),
    {
        let mut i: usize = 0;
        while i < self.cells.len()
            invariant
                i <= self.cells.len(),
                self.config == old(self).config,
                self.generation == old(self).generation,
                self.cells@.len() == old(self).cells@.len(),
                forall|j: int| 0 <= j < i ==> cell_finalized(old(self).cells@[j], self.cells@[j]),
                forall|j: int| i <= j < self.cells@.len() ==> self.cells@[j] == old(self).cells@[j],
            decreases self.cells.len() - i,
        {
            let cleaned = finalize_cell(&self.cells[i]);
            self.cells.set(i, cleaned);
            i = i + 1;
        }
    }

    /// Advances the grid by exactly one generation: the counter steps,
    /// then the herbivore-eats-plant phase runs over every cell, then the
    /// predator-eats-herbivore phase (reading the herbivore quantities the
    /// first phase already wrote), then the extinction cleanup.
    pub fn tick(&mut self)
        requires
            old(self).generation_view() < u32::MAX,
        ensures
            final(self).generation_view() == old(self).generation_view() + 1,
            final(self).config_view() == old(self).config_view(),
            final(self).cells_view().len() == old(self).cells_view().len(),
            forall|i: int|
                0 <= i < old(self).cells_view().len() ==> cell_ticked(
                    old(self).cells_view()[i],
                    final(self).cells_view()[i],
                    old(self).config_view(),
                ),
    {
        self.generation = self.generation + 1;
        let ghost g0 = *self;
        self.feed_vegeterians();
        let ghost g1 = *self;
        self.feed_predators();
        let ghost g2 = *self;
        self.finalize();
        proof {
            assert forall|i: int|
                0 <= i < g0.cells_view().len() implies cell_ticked(
                g0.cells_view()[i],
                self.cells_view()[i],
                g0.config_view(),
            ) by {
                assert(cell_hunted(
                    g0.cells_view()[i],
                    g1.cells_view()[i],
                    Kind::VegeterianAnimal,
                    Kind::Plant,
                    veg_hunt(g0.config_view()),
                ));
                assert(cell_hunted(
                    g1.cells_view()[i],
                    g2.cells_view()[i],
                    Kind::PredatorAnimal,
                    Kind::VegeterianAnimal,
                    pred_hunt(g0.config_view()),
                ));
                assert(cell_finalized(g2.cells_view()[i], self.cells_view()[i]));
            }
        }
    }

    /// The fixed starter layout: nine populated ground cells in the two
    /// top rows of an otherwise water grid, with identifiers issued in
    /// row-major order by a fresh allocator, so that no two units share
    /// one.
    pub fn experiment_flat(config: EvolutionConfig) -> (r: Grid)
        ensures
            r.wf(),
            r.generation_view() == 0,
            r.config_view() == config,
            cell_is_made(r.cells_view()[0], 0, 3, 0, 0),
            cell_is_made(r.cells_view()[1], 3, 3, 1, 0),
            cell_is_made(r.cells_view()[2], 7, 1, 4, 0),
            cell_is_made(r.cells_view()[3], 12, 1, 5, 0),
            cell_is_made(r.cells_view()[4], 18, 0, 1, 0),
            cell_is_made(r.cells_view()[10], 19, 1, 1, 1),
            cell_is_made(r.cells_view()[11], 22, 1, 1, 3),
            cell_is_made(r.cells_view()[12], 27, 1, 1, 5),
            cell_is_made(r.cells_view()[13], 34, 0, 0, 1),
            forall|i: int|
                0 <= i < GRID_CELLS && !(0 <= i <= 4 || 10 <= i <= 13)
                    ==> r.cells_view()[i] is Water,
            unique_ids(r.cells_view()),
    {
        let mut id_gen = IdGen::new();
        let mut cells: Vec<Cell> = Vec::new();
        let mut i: usize = 0;
        while i < GRID_CELLS
            invariant
                i <= GRID_CELLS,
                cells@.len() == i,
                forall|j: int| 0 <= j < i ==> cells@[j] is Water,
            decreases GRID_CELLS - i,
        {
            cells.push(Cell::Water);
            i = i + 1;
        }
        let made = Cell::from_data(
            &mut id_gen,
            CellData { plants: 3, vegeterians: 0, predators: 0, unit_size: UNIT_SIZE_BITS },
        );
        cells.set(0, made);
        let made = Cell::from_data(
            &mut id_gen,
            CellData { plants: 3, vegeterians: 1, predators: 0, unit_size: UNIT_SIZE_BITS },
        );
        cells.set(1, made);
        let made = Cell::from_data(
            &mut id_gen,
            CellData { plants: 1, vegeterians: 4, predators: 0, unit_size: UNIT_SIZE_BITS },
        );
        cells.set(2, made);
        let made = Cell::from_data(
            &mut id_gen,
            CellData { plants: 1, vegeterians: 5, predators: 0, unit_size: UNIT_SIZE_BITS },
        );
        cells.set(3, made);
        let made = Cell::from_data(
            &mut id_gen,
            CellData { plants: 0, vegeterians: 1, predators: 0, unit_size: UNIT_SIZE_BITS },
        );
        cells.set(4, made);
        let made = Cell::from_data(
            &mut id_gen,
            CellData { plants: 1, vegeterians: 1, predators: 1, unit_size: UNIT_SIZE_BITS },
        );
        cells.set(10, made);
        let made = Cell::from_data(
            &mut id_gen,
            CellData { plants: 1, vegeterians: 1, predators: 3, unit_size: UNIT_SIZE_BITS },
        );
        cells.set(11, made);
        let made = Cell::from_data(
            &mut id_gen,
            CellData { plants: 1, vegeterians: 1, predators: 5, unit_size: UNIT_SIZE_BITS },
        );
        cells.set(12, made);
        let made = Cell::from_data(
            &mut id_gen,
            CellData { plants: 0, vegeterians: 0, predators: 1, unit_size: UNIT_SIZE_BITS },
        );
        cells.set(13, made);
        proof {
            assert forall|i: int, k: int, j: int, l: int|
                0 <= i < cells@.len() && 0 <= j < cells@.len() && 0 <= k < units_of(
                    cells@[i],
                ).len() && 0 <= l < units_of(cells@[j]).len() && (i != j || k != l) implies (
            #[trigger] units_of(cells@[i])[k]).id != (#[trigger] units_of(cells@[j])[l]).id by {
                assert(units_of(cells@[i]).len() > 0 ==> (0 <= i <= 4 || 10 <= i <= 13));
                assert(units_of(cells@[j]).len() > 0 ==> (0 <= j <= 4 || 10 <= j <= 13));
            }
        }
        Grid { cells, generation: 0, config }
    }
}

} // verus!
