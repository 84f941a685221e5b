//! The trophic-interaction algorithm for one cell.
//!
//! For one cell, one hunter kind, one target kind and a rate triple, the
//! algorithm recomputes the quantities of all units of both kinds for one
//! tick. It is a two-pass scheme: first a snapshot of the matching
//! quantities, then an update of every unit against that snapshot, so the
//! update is simultaneous across the cell — no unit's update reads another
//! unit's new value. Quantities may go negative within a tick: nothing is
//! clamped here, and only the end-of-tick cleanup removes extinct units.

use crate::arith::{
    add_bits, fadd, fmul, fsub, mul_bits, sub_bits, TICK_RATE_BITS, ZERO_BITS,
};
use crate::model::{units_of, Cell, HuntConfig, Kind, Unit};
use vstd::prelude::*;

verus! {

/// The quantities, in cell order, of the units of the target kind.
pub open spec fn target_quantities(units: Seq<Unit>, target: Kind) -> Seq<u64>
    decreases units.len(),
{
    if units.len() == 0 {
        Seq::<u64>::empty()
    } else {
        let rest = target_quantities(units.drop_last(), target);
        if units.last().kind == target {
            rest.push(units.last().quantity)
        } else {
            rest
        }
    }
}

/// The quantities, in cell order, of the units of the hunter kind. A unit
/// of the target kind never counts as a hunter, so if ever the two kinds
/// coincided, every matching unit would count as a target.
pub open spec fn hunter_quantities(units: Seq<Unit>, hunter: Kind, target: Kind) -> Seq<u64>
    decreases units.len(),
{
    if units.len() == 0 {
        Seq::<u64>::empty()
    } else {
        let rest = hunter_quantities(units.drop_last(), hunter, target);
        if units.last().kind != target && units.last().kind == hunter {
            rest.push(units.last().quantity)
        } else {
            rest
        }
    }
}

/// The total quantity the whole hunter population consumes from one target
/// unit of quantity `resource` in one tick: the left-to-right IEEE sum of
/// `resource * rate * hunter` over the hunter quantities, starting at zero.
pub open spec fn consumed_from_hunters(resource: u64, rate: u64, hunters: Seq<u64>) -> u64
    decreases hunters.len(),
{
    if hunters.len() == 0 {
        ZERO_BITS
    } else {
        add_bits(
            consumed_from_hunters(resource, rate, hunters.drop_last()),
            mul_bits(mul_bits(resource, rate), hunters.last()),
        )
    }
}

/// The per-capita intake of one hunter: the left-to-right IEEE sum of
/// `target * rate` over the target quantities, starting at zero. The sum
/// does not multiply by the hunter's own quantity — per-capita intake is
/// the same for every hunter unit in the cell.
pub open spec fn intake_from_targets(rate: u64, targets: Seq<u64>) -> u64
    decreases targets.len(),
{
    if targets.len() == 0 {
        ZERO_BITS
    } else {
        add_bits(intake_from_targets(rate, targets.drop_last()), mul_bits(targets.last(), rate))
    }
}

/// One tick's new quantity for a target unit: the old quantity plus
/// `(growth - consumed) * tick rate`, where `consumed` is what the whole
/// hunter population takes from this one unit.
pub open spec fn target_step(q: u64, growth: u64, rate: u64, hunters: Seq<u64>) -> u64 {
    add_bits(
        q,
        mul_bits(sub_bits(growth, consumed_from_hunters(q, rate, hunters)), TICK_RATE_BITS),
    )
}

/// One tick's new quantity for a hunter unit: the old quantity plus
/// `q * (intake - death) * tick rate`.
pub open spec fn hunter_step(q: u64, death: u64, rate: u64, targets: Seq<u64>) -> u64 {
    add_bits(
        q,
        mul_bits(
            mul_bits(q, sub_bits(intake_from_targets(rate, targets), death)),
            TICK_RATE_BITS,
        ),
    )
}

/// The unit `u` after one hunt, against snapshots `targets` and `hunters`
/// of the cell's matching quantities: a target steps by `target_step`, a
/// hunter by `hunter_step`, any other unit is untouched; kind and
/// identifier never change.
pub open spec fn hunted_unit(
    u: Unit,
    hunter: Kind,
    target: Kind,
    hc: HuntConfig,
    targets: Seq<u64>,
    hunters: Seq<u64>,
) -> Unit {
    if u.kind == target {
        Unit {
            kind: u.kind,
            id: u.id,
            quantity: target_step(u.quantity, hc.resource_growth, hc.consuming_rate, hunters),
        }
    } else if u.kind == hunter {
        Unit {
            kind: u.kind,
            id: u.id,
            quantity: hunter_step(u.quantity, hc.hunter_death, hc.consuming_rate, targets),
        }
    } else {
        u
    }
}

/// A whole cell's unit sequence after one hunt: every unit stepped against
/// the snapshot of the old quantities, simultaneously.
pub open spec fn hunt_units(units: Seq<Unit>, hunter: Kind, target: Kind, hc: HuntConfig) -> Seq<
    Unit,
> {
    Seq::new(
        units.len(),
        |i: int|
            hunted_unit(
                units[i],
                hunter,
                target,
                hc,
                target_quantities(units, target),
                hunter_quantities(units, hunter, target),
            ),
    )
}

/// The total consumption from one target unit by the snapshotted hunter
/// population, summed left to right as the algorithm sums it.
fn consumed_exec(resource: u64, rate: u64, hunters: &Vec<u64>) -> (r: u64)
    ensures
        r == consumed_from_hunters(resource, rate, hunters@),
{
    let mut acc: u64 = ZERO_BITS;
    let mut i: usize = 0;
    while i < hunters.len()
        invariant
            i <= hunters.len(),
            acc == consumed_from_hunters(resource, rate, hunters@.take(i as int)),
        decreases hunters.len() - i,
    {
        acc = fadd(acc, fmul(fmul(resource, rate), hunters[i]));
        proof {
            assert(hunters@.take(i as int + 1).drop_last() =~= hunters@.take(i as int));
            assert(hunters@.take(i as int + 1).last() == hunters@[i as int]);
        }
        i = i + 1;
    }
    proof {
        assert(hunters@.take(hunters@.len() as int) =~= hunters@);
    }
    acc
}

/// The per-capita intake over the snapshotted target quantities, summed
/// left to right as the algorithm sums it.
fn intake_exec(rate: u64, targets: &Vec<u64>) -> (r: u64)
    ensures
        r == intake_from_targets(rate, targets@),
{
    let mut acc: u64 = ZERO_BITS;
    let mut i: usize = 0;
    while i < targets.len()
        invariant
            i <= targets.len(),
            acc == intake_from_targets(rate, targets@.take(i as int)),
        decreases targets.len() - i,
    {
        acc = fadd(acc, fmul(targets[i], rate));
        proof {
            assert(targets@.take(i as int + 1).drop_last() =~= targets@.take(i as int));
            assert(targets@.take(i as int + 1).last() == targets@[i as int]);
        }
        i = i + 1;
    }
    proof {
        assert(targets@.take(targets@.len() as int) =~= targets@);
    }
    acc
}

/// One trophic interaction over one cell: water is left as water, and a
/// ground cell's units are all stepped simultaneously against a snapshot
/// of the old quantities.
pub fn hunt(cell: &Cell, hunter_kind: Kind, target_kind: Kind, evolution: HuntConfig) -> (r: Cell)
    ensures
        r is Ground <==> cell is Ground,
        units_of(r) =~= hunt_units(units_of(*cell), hunter_kind, target_kind, evolution),
{
    match cell {
        Cell::Water => Cell::Water,
        Cell::Ground(units) => {
            let mut targets: Vec<u64> = Vec::new();
            let mut hunters: Vec<u64> = Vec::new();
            let mut i: usize = 0;
            while i < units.len()
                invariant
                    i <= units.len(),
                    targets@ == target_quantities(units@.take(i as int), target_kind),
                    hunters@ == hunter_quantities(units@.take(i as int), hunter_kind, target_kind),
                decreases units.len() - i,
            {
                let u = units[i];
                proof {
                    assert(units@.take(i as int + 1).drop_last() =~= units@.take(i as int));
                    assert(units@.take(i as int + 1).last() == units@[i as int]);
                }
                if u.kind == target_kind {
                    targets.push(u.quantity);
                } else if u.kind == hunter_kind {
                    hunters.push(u.quantity);
                }
                i = i + 1;
            }
            proof {
                assert(units@.take(units@.len() as int) =~= units@);
            }

            let ghost tq = target_quantities(units@, target_kind);
            let ghost hq = hunter_quantities(units@, hunter_kind, target_kind);
            let mut next_units: Vec<Unit> = Vec::new();
            let mut i: usize = 0;
            while i < units.len()
                invariant
                    i <= units.len(),
                    targets@ == tq,
                    hunters@ == hq,
                    tq == target_quantities(units@, target_kind),
                    hq == hunter_quantities(units@, hunter_kind, target_kind),
                    next_units@.len() == i,
                    forall|j: int|
                        0 <= j < i ==> next_units@[j] == hunted_unit(
                            units@[j],
                            hunter_kind,
                            target_kind,
                            evolution,
                            tq,
                            hq,
                        ),
                decreases units.len() - i,
            {
                let u = units[i];
                if u.kind == target_kind {
                    let consumed = consumed_exec(u.quantity, evolution.consuming_rate, &hunters);
                    let dr = fsub(evolution.resource_growth, consumed);
                    let q2 = fadd(u.quantity, fmul(dr, TICK_RATE_BITS));
                    next_units.push(Unit { kind: u.kind, id: u.id, quantity: q2 });
                } else if u.kind == hunter_kind {
                    let intake = intake_exec(evolution.consuming_rate, &targets);
                    let dn = fmul(u.quantity, fsub(intake, evolution.hunter_death));
                    let q2 = fadd(u.quantity, fmul(dn, TICK_RATE_BITS));
                    next_units.push(Unit { kind: u.kind, id: u.id, quantity: q2 });
                } else {
                    next_units.push(u);
                }
                i = i + 1;
            }
            proof {
                assert(next_units@ =~= hunt_units(units@, hunter_kind, target_kind, evolution));
            }
            Cell::Ground(next_units)
        },
    }
}

} // verus!
