//! The general laws of the model, stated once and proved for all inputs.

use crate::arith::{gt_bits, EXTINCTION_THRESHOLD_BITS};
use crate::grid::{
    cell_ticked, pred_hunt, surviving_units, unique_ids, veg_hunt,
};
use crate::hunt::hunt_units;
use crate::model::{units_of, Cell, EvolutionConfig, HuntConfig, Kind, Unit};
use vstd::prelude::*;

verus! {

/// Every unit that survives the cleanup lies strictly above the
/// extinction threshold: no unit at or below it remains.
pub proof fn lemma_survivors_above_threshold(units: Seq<Unit>)
    ensures
        forall|i: int|
            0 <= i < surviving_units(units).len() ==> gt_bits(
                (#[trigger] surviving_units(units)[i]).quantity,
                EXTINCTION_THRESHOLD_BITS,
            ),
    decreases units.len(),
{
    if units.len() > 0 {
        lemma_survivors_above_threshold(units.drop_last());
    }
}

/// Every unit that survives the cleanup already stood among the units
/// before it, at some position: the cleanup invents nothing.
pub proof fn lemma_survivor_is_original(units: Seq<Unit>, i: int)
    requires
        0 <= i < surviving_units(units).len(),
    ensures
        exists|j: int| 0 <= j < units.len() && units[j] == surviving_units(units)[i],
    decreases units.len(),
{
    if units.len() > 0 {
        let rest = surviving_units(units.drop_last());
        if i < rest.len() {
            lemma_survivor_is_original(units.drop_last(), i);
            let j = choose|j: int|
                0 <= j < units.drop_last().len() && units.drop_last()[j] == rest[i];
            assert(units[j] == surviving_units(units)[i]);
        } else {
            assert(units[units.len() - 1] == surviving_units(units)[i]);
        }
    }
}

/// The cleanup never duplicates an identifier: if a cell's units carry
/// pairwise distinct identifiers, so do its survivors.
pub proof fn lemma_cleanup_keeps_ids_distinct(units: Seq<Unit>)
    requires
        forall|a: int, b: int| 0 <= a < b < units.len() ==> units[a].id != units[b].id,
    ensures
        forall|a: int, b: int|
            0 <= a < b < surviving_units(units).len() ==> surviving_units(units)[a].id
                != surviving_units(units)[b].id,
    decreases units.len(),
{
    if units.len() > 0 {
        lemma_cleanup_keeps_ids_distinct(units.drop_last());
        let s = surviving_units(units);
        let rest = surviving_units(units.drop_last());
        assert forall|a: int, b: int| 0 <= a < b < s.len() implies s[a].id != s[b].id by {
            if b >= rest.len() {
                lemma_survivor_is_original(units.drop_last(), a);
                let j = choose|j: int|
                    0 <= j < units.drop_last().len() && units.drop_last()[j] == rest[a];
                assert(units[j].id != units[units.len() - 1].id);
            }
        }
    }
}

/// A hunt rewrites quantities only: the unit count and every unit's kind
/// and identifier are unchanged by it.
pub proof fn lemma_hunt_keeps_ids(units: Seq<Unit>, hunter: Kind, target: Kind, hc: HuntConfig)
    ensures
        hunt_units(units, hunter, target, hc).len() == units.len(),
        forall|i: int|
            0 <= i < units.len() ==> (#[trigger] hunt_units(units, hunter, target, hc)[i]).id
                == units[i].id && hunt_units(units, hunter, target, hc)[i].kind == units[i].kind,
{
}

/// Water cells are fixed points of the tick: a tick never turns water
/// into ground or ground into water, and never puts a unit into a water
/// cell.
pub proof fn lemma_water_fixed(before: Cell, after: Cell, cfg: EvolutionConfig)
    requires
        cell_ticked(before, after, cfg),
    ensures
        before is Water <==> after is Water,
        before is Water ==> units_of(after) =~= Seq::<Unit>::empty(),
{
    if before is Water {
        let h1 = hunt_units(units_of(before), Kind::VegeterianAnimal, Kind::Plant, veg_hunt(cfg));
        let h2 = hunt_units(h1, Kind::PredatorAnimal, Kind::VegeterianAnimal, pred_hunt(cfg));
        assert(h1.len() == 0);
        assert(h2.len() == 0);
        assert(surviving_units(h2).len() == 0);
    }
}

/// After a tick, every unit anywhere in the grid lies strictly above the
/// extinction threshold: no unit at or below it survives a tick.
pub proof fn lemma_tick_prunes_extinct(before: Seq<Cell>, after: Seq<Cell>, cfg: EvolutionConfig)
    requires
        after.len() == before.len(),
        forall|i: int| 0 <= i < before.len() ==> cell_ticked(#[trigger] before[i], after[i], cfg),
    ensures
        forall|i: int, k: int|
            0 <= i < after.len() && 0 <= k < units_of(after[i]).len() ==> gt_bits(
                (#[trigger] units_of(after[i])[k]).quantity,
                EXTINCTION_THRESHOLD_BITS,
            ),
{
    assert forall|i: int, k: int|
        0 <= i < after.len() && 0 <= k < units_of(after[i]).len() implies gt_bits(
        (#[trigger] units_of(after[i])[k]).quantity,
        EXTINCTION_THRESHOLD_BITS,
    ) by {
        let h1 = hunt_units(units_of(before[i]), Kind::VegeterianAnimal, Kind::Plant, veg_hunt(cfg));
        let h2 = hunt_units(h1, Kind::PredatorAnimal, Kind::VegeterianAnimal, pred_hunt(cfg));
        lemma_survivors_above_threshold(h2);
    }
}

/// Identifier uniqueness survives a tick: if no two units anywhere in the
/// grid share an identifier before a tick, none do after it, extinctions
/// included.
pub proof fn lemma_tick_keeps_ids_unique(before: Seq<Cell>, after: Seq<Cell>, cfg: EvolutionConfig)
    requires
        after.len() == before.len(),
        forall|i: int| 0 <= i < before.len() ==> cell_ticked(#[trigger] before[i], after[i], cfg),
        unique_ids(before),
    ensures
        unique_ids(after),
{
    assert forall|i: int, k: int, j: int, l: int|
        0 <= i < after.len() && 0 <= j < after.len() && 0 <= k < units_of(after[i]).len() && 0 <= l
            < units_of(after[j]).len() && (i != j || k != l) implies (#[trigger] units_of(
        after[i],
    )[k]).id != (#[trigger] units_of(after[j])[l]).id by {
        let bi = units_of(before[i]);
        let hi1 = hunt_units(bi, Kind::VegeterianAnimal, Kind::Plant, veg_hunt(cfg));
        let hi2 = hunt_units(hi1, Kind::PredatorAnimal, Kind::VegeterianAnimal, pred_hunt(cfg));
        lemma_hunt_keeps_ids(bi, Kind::VegeterianAnimal, Kind::Plant, veg_hunt(cfg));
        lemma_hunt_keeps_ids(hi1, Kind::PredatorAnimal, Kind::VegeterianAnimal, pred_hunt(cfg));
        assert(units_of(after[i]) == surviving_units(hi2));
        if i == j {
            assert forall|a: int, b: int| 0 <= a < b < hi2.len() implies hi2[a].id != hi2[b].id by {
                assert(units_of(before[i])[a].id != units_of(before[i])[b].id);
            }
            lemma_cleanup_keeps_ids_distinct(hi2);
        } else {
            let bj = units_of(before[j]);
            let hj1 = hunt_units(bj, Kind::VegeterianAnimal, Kind::Plant, veg_hunt(cfg));
            let hj2 = hunt_units(hj1, Kind::PredatorAnimal, Kind::VegeterianAnimal, pred_hunt(cfg));
            lemma_hunt_keeps_ids(bj, Kind::VegeterianAnimal, Kind::Plant, veg_hunt(cfg));
            lemma_hunt_keeps_ids(hj1, Kind::PredatorAnimal, Kind::VegeterianAnimal, pred_hunt(cfg));
            assert(units_of(after[j]) == surviving_units(hj2));
            lemma_survivor_is_original(hi2, k);
            let m = choose|m: int| 0 <= m < hi2.len() && hi2[m] == units_of(after[i])[k];
            lemma_survivor_is_original(hj2, l);
            let n = choose|n: int| 0 <= n < hj2.len() && hj2[n] == units_of(after[j])[l];
            assert(units_of(before[i])[m].id != units_of(before[j])[n].id);
        }
    }
}

/// The tick is deterministic: from equal cell contents and an equal
/// configuration, a tick can only produce equal cell contents — there is
/// no hidden randomness anywhere in the update.
pub proof fn lemma_tick_deterministic(
    before: Seq<Cell>,
    after1: Seq<Cell>,
    after2: Seq<Cell>,
    cfg: EvolutionConfig,
)
    requires
        after1.len() == before.len(),
        after2.len() == before.len(),
        forall|i: int| 0 <= i < before.len() ==> cell_ticked(#[trigger] before[i], after1[i], cfg),
        forall|i: int| 0 <= i < before.len() ==> cell_ticked(#[trigger] before[i], after2[i], cfg),
    ensures
        forall|i: int|
            0 <= i < before.len() ==> ((#[trigger] after1[i]) is Ground <==> after2[i] is Ground)
                && units_of(after1[i]) == units_of(after2[i]),
{
    assert forall|i: int|
        0 <= i < before.len() implies ((#[trigger] after1[i]) is Ground <==> after2[i] is Ground)
        && units_of(after1[i]) == units_of(after2[i]) by {
        assert(cell_ticked(before[i], after1[i], cfg));
        assert(cell_ticked(before[i], after2[i], cfg));
    }
}

/// Two runs that agree cell by cell stay in lockstep through a tick: with
/// equal cell contents and an equal configuration before the tick, the
/// cell contents after it are equal too. Applied once per tick, this
/// carries bit-identical trajectories through any number of generations.
pub proof fn lemma_runs_stay_in_lockstep(
    before1: Seq<Cell>,
    before2: Seq<Cell>,
    after1: Seq<Cell>,
    after2: Seq<Cell>,
    cfg: EvolutionConfig,
)
    requires
        before2.len() == before1.len(),
        after1.len() == before1.len(),
        after2.len() == before1.len(),
        forall|i: int|
            0 <= i < before1.len() ==> ((#[trigger] before1[i]) is Ground <==> before2[i] is Ground)
                && units_of(before1[i]) == units_of(before2[i]),
        forall|i: int| 0 <= i < before1.len() ==> cell_ticked(#[trigger] before1[i], after1[i], cfg),
        forall|i: int| 0 <= i < before1.len() ==> cell_ticked(#[trigger] before2[i], after2[i], cfg),
    ensures
        forall|i: int|
            0 <= i < before1.len() ==> ((#[trigger] after1[i]) is Ground <==> after2[i] is Ground)
                && units_of(after1[i]) == units_of(after2[i]),
{
    assert forall|i: int|
        0 <= i < before1.len() implies ((#[trigger] after1[i]) is Ground <==> after2[i] is Ground)
        && units_of(after1[i]) == units_of(after2[i]) by {
        assert(cell_ticked(before1[i], after1[i], cfg));
        assert(cell_ticked(before2[i], after2[i], cfg));
        lemma_cell_isolated(before1[i], before2[i], after1[i], after2[i], cfg);
    }
}

/// Cells are isolated: what a tick makes of one cell depends only on that
/// cell's own prior content and the configuration, never on any other
/// cell — so the order cells are visited in cannot matter.
pub proof fn lemma_cell_isolated(b1: Cell, b2: Cell, a1: Cell, a2: Cell, cfg: EvolutionConfig)
    requires
        b1 is Ground <==> b2 is Ground,
        units_of(b1) == units_of(b2),
        cell_ticked(b1, a1, cfg),
        cell_ticked(b2, a2, cfg),
    ensures
        a1 is Ground <==> a2 is Ground,
        units_of(a1) == units_of(a2),
{
}

} // verus!
