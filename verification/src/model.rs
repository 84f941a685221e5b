//! The entity model: trophic kinds, units, cells, and the rate parameters.

use crate::ids::IdGen;
use crate::rng;
use vstd::prelude::*;

verus! {

/// Bit pattern of the default quantity a scenario gives a fresh unit
/// (fifty, as an IEEE-754 binary64 number).
pub const UNIT_SIZE_BITS: u64 = 0x4049_0000_0000_0000;

/// The trophic role of a unit. The three roles are fixed: plants are
/// consumed by herbivorous animals, which are consumed by predators.
#[derive(Clone, Copy, Debug, PartialEq, Eq, Structural)]
pub enum Kind {
    Plant,
    VegeterianAnimal,
    PredatorAnimal,
}

/// One population record: a trophic kind, a unique identifier, and a
/// continuous quantity carried as the bit pattern of an IEEE-754 binary64
/// number.
#[derive(Clone, Copy, Debug, PartialEq, Eq, Structural)]
pub struct Unit {
    pub kind: Kind,
    pub id: u32,
    pub quantity: u64,
}

/// How many units of each kind a scenario places in one cell, and the
/// quantity (an IEEE-754 binary64 bit pattern) each starts with.
#[derive(Clone, Copy, Debug, PartialEq, Eq, Structural)]
pub struct CellData {
    pub plants: u32,
    pub vegeterians: u32,
    pub predators: u32,
    pub unit_size: u64,
}

impl Default for CellData {
    /// No units of any kind, at the default unit size.
    fn default() -> (r: Self)
        ensures
            r.plants == 0,
            r.vegeterians == 0,
            r.predators == 0,
            r.unit_size == UNIT_SIZE_BITS,
    {
        Self { plants: 0, vegeterians: 0, predators: 0, unit_size: UNIT_SIZE_BITS }
    }
}

/// A grid location: uninhabitable water, or ground holding a sequence of
/// units (duplicates of a kind allowed, order stable within a tick).
#[derive(Clone, Debug, PartialEq)]
pub enum Cell {
    Water,
    Ground(Vec<Unit>),
}

/// The five rate parameters of the dynamics, each the bit pattern of an
/// IEEE-754 binary64 number. Immutable for the lifetime of a grid.
#[derive(Clone, Copy, Debug, PartialEq, Eq, Structural)]
pub struct EvolutionConfig {
    pub predator_death_rate: u64,
    pub predator_eating_rate: u64,
    pub vegeterian_death_rate: u64,
    pub vegeterian_eating_rate: u64,
    pub plant_growth_rate: u64,
}

/// The rate triple one trophic interaction runs under.
#[derive(Clone, Copy, Debug, PartialEq, Eq, Structural)]
pub struct HuntConfig {
    pub hunter_death: u64,
    pub resource_growth: u64,
    pub consuming_rate: u64,
}

/// The units a cell holds: none for water.
pub open spec fn units_of(c: Cell) -> Seq<Unit> {
    match c {
        Cell::Water => Seq::<Unit>::empty(),
        Cell::Ground(units) => units@,
    }
}

/// The unit sequence a scenario request builds when the allocator has
/// already issued `start` identifiers: first the plants, then the
/// herbivores, then the predators, with consecutive identifiers starting
/// at `start + 1` and every quantity equal to the requested unit size.
pub open spec fn made_units(start: u32, d: CellData) -> Seq<Unit> {
    Seq::new(
        (d.plants + d.vegeterians + d.predators) as nat,
        |i: int|
            Unit {
                kind: if i < d.plants {
                    Kind::Plant
                } else if i < d.plants + d.vegeterians {
                    Kind::VegeterianAnimal
                } else {
                    Kind::PredatorAnimal
                },
                id: (start + 1 + i) as u32,
                quantity: d.unit_size,
            },
    )
}

/// The cell layouts `random_cell` may produce: one or two plants, at most
/// one herbivore, at most one predator, all at the default unit size.
pub open spec fn random_layout(d: CellData) -> bool {
    &&& 1 <= d.plants < 3
    &&& d.vegeterians < 2
    &&& d.predators < 2
    &&& d.unit_size == UNIT_SIZE_BITS
}

impl Cell {
    /// Builds a ground cell holding the requested units, drawing each
    /// identifier from the allocator in order: plants first, then
    /// herbivores, then predators.
    pub fn from_data(id_gen: &mut IdGen, request: CellData) -> (r: Cell)
        requires
            old(id_gen).count() + request.plants + request.vegeterians + request.predators
                <= u32::MAX,
        ensures
            final(id_gen).count() == old(id_gen).count() + request.plants + request.vegeterians
                + request.predators,
            r is Ground,
            units_of(r) =~= made_units(old(id_gen).count(), request),
    {
        let ghost start = id_gen.count();
        let ghost all = made_units(start, request);
        let mut units: Vec<Unit> = Vec::new();

        let mut k: u32 = 0;
        while k < request.plants
            invariant
                start + request.plants + request.vegeterians + request.predators <= u32::MAX,
                k <= request.plants,
                id_gen.count() == start + k,
                units@.len() == k,
                all == made_units(start, request),
                forall|j: int| 0 <= j < k ==> units@[j] == all[j],
            decreases request.plants - k,
        {
            let id = id_gen.next();
            units.push(Unit { kind: Kind::Plant, id, quantity: request.unit_size });
            k = k + 1;
        }

        let mut k: u32 = 0;
        while k < request.vegeterians
            invariant
                start + request.plants + request.vegeterians + request.predators <= u32::MAX,
                k <= request.vegeterians,
                id_gen.count() == start + request.plants + k,
                units@.len() == request.plants + k,
                all == made_units(start, request),
                forall|j: int| 0 <= j < request.plants + k ==> units@[j] == all[j],
            decreases request.vegeterians - k,
        {
            let id = id_gen.next();
            units.push(Unit { kind: Kind::VegeterianAnimal, id, quantity: request.unit_size });
            k = k + 1;
        }

        let mut k: u32 = 0;
        while k < request.predators
            invariant
                start + request.plants + request.vegeterians + request.predators <= u32::MAX,
                k <= request.predators,
                id_gen.count() == start + request.plants + request.vegeterians + k,
                units@.len() == request.plants + request.vegeterians + k,
                all == made_units(start, request),
                forall|j: int|
                    0 <= j < request.plants + request.vegeterians + k ==> units@[j] == all[j],
            decreases request.predators - k,
        {
            let id = id_gen.next();
            units.push(Unit { kind: Kind::PredatorAnimal, id, quantity: request.unit_size });
            k = k + 1;
        }

        Cell::Ground(units)
    }

    /// Builds a ground cell with a randomly drawn small population: one or
    /// two plants, at most one herbivore, at most one predator. Whatever
    /// the draw, the units are laid out exactly as `from_data` lays them
    /// out for that draw.
    pub fn random_cell(id_gen: &mut IdGen) -> (r: Cell)
        requires
            old(id_gen).count() + 4 <= u32::MAX,
        ensures
            r is Ground,
            old(id_gen).count() <= final(id_gen).count() <= old(id_gen).count() + 4,
            exists|d: CellData|
                {
                    &&& #[trigger] random_layout(d)
                    &&& units_of(r) =~= made_units(old(id_gen).count(), d)
                    &&& final(id_gen).count() == old(id_gen).count() + d.plants + d.vegeterians
                        + d.predators
                },
    {
        let mut gen = rng::fresh_rng();
        let plants = rng::gen_range_u32(&mut gen, 1, 3);
        let vegeterians = rng::gen_range_u32(&mut gen, 0, 2);
        let predators = rng::gen_range_u32(&mut gen, 0, 2);
        let request = CellData { plants, vegeterians, predators, unit_size: UNIT_SIZE_BITS };
        let r = Cell::from_data(id_gen, request);
        proof {
            assert(random_layout(request));
        }
        r
    }
}

} // verus!
