//! End-to-end tests of the ecosystem model: allocator, scenario layout,
//! the closed-form single-tick results, and the grid-level invariants.

use ecosystem_model::grid::Grid;
use ecosystem_model::ids::IdGen;
use ecosystem_model::model::{Cell, CellData, EvolutionConfig, Kind, Unit};

/// The fixed integration step of the scheme.
const TICK_RATE: f64 = 0.075;

/// The configuration the flat experiment runs under.
fn experiment_config() -> EvolutionConfig {
    EvolutionConfig {
        predator_death_rate: (2.8f64).to_bits(),
        predator_eating_rate: (0.075f64).to_bits(),
        vegeterian_death_rate: (2.8f64).to_bits(),
        vegeterian_eating_rate: (0.075f64).to_bits(),
        plant_growth_rate: (100.0f64).to_bits(),
    }
}

fn water_grid_cells() -> Vec<Cell> {
    (0..100).map(|_| Cell::Water).collect()
}

fn ground(units: Vec<Unit>) -> Cell {
    Cell::Ground(units)
}

fn unit(kind: Kind, id: u32, quantity: f64) -> Unit {
    Unit { kind, id, quantity: quantity.to_bits() }
}

fn cell_units(cell: &Cell) -> &[Unit] {
    match cell {
        Cell::Water => &[],
        Cell::Ground(units) => units,
    }
}

#[test]
fn idgen_issues_consecutive_ids() {
    let mut id_gen = IdGen::new();
    assert_eq!(id_gen.total(), 0);
    assert_eq!(id_gen.next(), 1);
    assert_eq!(id_gen.next(), 2);
    assert_eq!(id_gen.next(), 3);
    assert_eq!(id_gen.total(), 3);
}

#[test]
fn cell_data_default_is_empty_at_size_fifty() {
    let d = CellData::default();
    assert_eq!(d.plants, 0);
    assert_eq!(d.vegeterians, 0);
    assert_eq!(d.predators, 0);
    assert_eq!(f64::from_bits(d.unit_size), 50.0);
}

#[test]
fn from_data_lays_units_out_in_order() {
    let mut id_gen = IdGen::new();
    id_gen.next();
    let cell = Cell::from_data(
        &mut id_gen,
        CellData { plants: 2, vegeterians: 1, predators: 1, unit_size: (7.5f64).to_bits() },
    );
    let units = cell_units(&cell);
    assert_eq!(units.len(), 4);
    assert_eq!(units[0], unit(Kind::Plant, 2, 7.5));
    assert_eq!(units[1], unit(Kind::Plant, 3, 7.5));
    assert_eq!(units[2], unit(Kind::VegeterianAnimal, 4, 7.5));
    assert_eq!(units[3], unit(Kind::PredatorAnimal, 5, 7.5));
    assert_eq!(id_gen.total(), 5);
}

#[test]
fn random_cell_stays_in_its_ranges() {
    let mut id_gen = IdGen::new();
    for _ in 0..20 {
        let before = id_gen.total();
        let cell = Cell::random_cell(&mut id_gen);
        let units = cell_units(&cell);
        let plants = units.iter().filter(|u| u.kind == Kind::Plant).count();
        let vegeterians = units.iter().filter(|u| u.kind == Kind::VegeterianAnimal).count();
        let predators = units.iter().filter(|u| u.kind == Kind::PredatorAnimal).count();
        assert!((1..=2).contains(&plants));
        assert!(vegeterians <= 1);
        assert!(predators <= 1);
        assert_eq!(id_gen.total() - before, units.len() as u32);
        for (k, u) in units.iter().enumerate() {
            assert_eq!(u.id, before + 1 + k as u32);
            assert_eq!(f64::from_bits(u.quantity), 50.0);
        }
    }
}

#[test]
fn experiment_flat_layout_and_unique_ids() {
    let grid = Grid::experiment_flat(experiment_config());
    assert_eq!(grid.generation(), 0);
    let cells = grid.cells();
    assert_eq!(cells.len(), 100);
    let expected: [(usize, usize, usize, usize); 9] = [
        (0, 3, 0, 0),
        (1, 3, 1, 0),
        (2, 1, 4, 0),
        (3, 1, 5, 0),
        (4, 0, 1, 0),
        (10, 1, 1, 1),
        (11, 1, 1, 3),
        (12, 1, 1, 5),
        (13, 0, 0, 1),
    ];
    let populated: Vec<usize> = expected.iter().map(|e| e.0).collect();
    let mut all_ids = Vec::new();
    for (idx, plants, vegeterians, predators) in expected {
        let units = cell_units(&cells[idx]);
        assert_eq!(units.len(), plants + vegeterians + predators);
        let p = units.iter().filter(|u| u.kind == Kind::Plant).count();
        let v = units.iter().filter(|u| u.kind == Kind::VegeterianAnimal).count();
        let pr = units.iter().filter(|u| u.kind == Kind::PredatorAnimal).count();
        assert_eq!((p, v, pr), (plants, vegeterians, predators));
        for u in units {
            assert_eq!(f64::from_bits(u.quantity), 50.0);
            all_ids.push(u.id);
        }
    }
    for (idx, cell) in cells.iter().enumerate() {
        if !populated.contains(&idx) {
            assert_eq!(*cell, Cell::Water);
        }
    }
    let mut sorted = all_ids.clone();
    sorted.sort();
    sorted.dedup();
    assert_eq!(sorted.len(), all_ids.len());
    assert_eq!(all_ids.len(), 35);
    assert!(all_ids.iter().all(|id| (1..=35).contains(id)));
}

#[test]
fn single_plant_grows_by_the_closed_form() {
    let mut cells = water_grid_cells();
    cells[0] = ground(vec![unit(Kind::Plant, 1, 50.0)]);
    let mut grid = Grid::new(experiment_config(), cells);
    grid.tick();
    let units = cell_units(&grid.cells()[0]);
    assert_eq!(units.len(), 1);
    let expected = 50.0 + (100.0 - 0.0) * TICK_RATE;
    assert_eq!(units[0].quantity, expected.to_bits());
    assert_eq!(f64::from_bits(units[0].quantity), 57.5);
    assert_eq!(units[0].id, 1);
    assert_eq!(units[0].kind, Kind::Plant);
}

#[test]
fn plant_and_herbivore_follow_the_closed_form() {
    let mut cells = water_grid_cells();
    cells[7] = ground(vec![
        unit(Kind::Plant, 1, 50.0),
        unit(Kind::VegeterianAnimal, 2, 50.0),
    ]);
    let mut grid = Grid::new(experiment_config(), cells);
    grid.tick();
    let units = cell_units(&grid.cells()[7]);
    assert_eq!(units.len(), 2);
    let consumed = 0.0 + 50.0 * 0.075 * 50.0;
    let expected_plant = 50.0 + (100.0 - consumed) * TICK_RATE;
    let intake = 0.0 + 50.0 * 0.075;
    let expected_herbivore = 50.0 + (50.0 * (intake - 2.8)) * TICK_RATE;
    // The predator phase then adds (0.0 - 0.0) * TICK_RATE times nothing:
    // the herbivore is its target with no hunters present.
    let expected_herbivore = expected_herbivore + (0.0 - 0.0) * TICK_RATE;
    assert_eq!(units[0].quantity, expected_plant.to_bits());
    assert_eq!(units[1].quantity, expected_herbivore.to_bits());
    assert_eq!(f64::from_bits(units[0].quantity), 43.4375);
    assert_eq!(f64::from_bits(units[1].quantity), 53.5625);
}

#[test]
fn hunt_runs_one_phase_only() {
    let cell = ground(vec![
        unit(Kind::Plant, 1, 50.0),
        unit(Kind::VegeterianAnimal, 2, 50.0),
    ]);
    let hc = ecosystem_model::model::HuntConfig {
        hunter_death: (2.8f64).to_bits(),
        resource_growth: (100.0f64).to_bits(),
        consuming_rate: (0.075f64).to_bits(),
    };
    let stepped = ecosystem_model::hunt::hunt(
        &cell,
        Kind::VegeterianAnimal,
        Kind::Plant,
        hc,
    );
    let units = cell_units(&stepped);
    let consumed = 0.0 + 50.0 * 0.075 * 50.0;
    assert_eq!(units[0].quantity, (50.0 + (100.0 - consumed) * TICK_RATE).to_bits());
    let intake = 0.0 + 50.0 * 0.075;
    assert_eq!(units[1].quantity, (50.0 + (50.0 * (intake - 2.8)) * TICK_RATE).to_bits());
    // An untouched water cell is a fixed point of a single phase too.
    let water = ecosystem_model::hunt::hunt(&Cell::Water, Kind::VegeterianAnimal, Kind::Plant, hc);
    assert_eq!(water, Cell::Water);
}

#[test]
fn water_cells_stay_water() {
    let mut cells = water_grid_cells();
    cells[55] = ground(vec![unit(Kind::Plant, 1, 50.0)]);
    let mut grid = Grid::new(experiment_config(), cells);
    for _ in 0..5 {
        grid.tick();
    }
    for (idx, cell) in grid.cells().iter().enumerate() {
        if idx == 55 {
            assert!(matches!(cell, Cell::Ground(_)));
        } else {
            assert_eq!(*cell, Cell::Water);
        }
    }
}

#[test]
fn units_at_or_below_the_threshold_are_pruned() {
    let mut cells = water_grid_cells();
    // With no hunters and zero growth a plant keeps its quantity exactly,
    // so one lies at 0.005 after the tick and must be pruned; the other
    // stays at 50 and must survive.
    cells[0] = ground(vec![
        unit(Kind::Plant, 1, 0.005),
        unit(Kind::Plant, 2, 50.0),
    ]);
    let config = EvolutionConfig {
        predator_death_rate: (2.8f64).to_bits(),
        predator_eating_rate: (0.075f64).to_bits(),
        vegeterian_death_rate: (2.8f64).to_bits(),
        vegeterian_eating_rate: (0.075f64).to_bits(),
        plant_growth_rate: (0.0f64).to_bits(),
    };
    let mut grid = Grid::new(config, cells);
    grid.tick();
    let units = cell_units(&grid.cells()[0]);
    assert_eq!(units.len(), 1);
    assert_eq!(units[0].id, 2);
    assert_eq!(f64::from_bits(units[0].quantity), 50.0);
}

#[test]
fn overshooting_negative_is_pruned_only_at_the_end() {
    let mut cells = water_grid_cells();
    cells[0] = ground(vec![
        unit(Kind::Plant, 1, 50.0),
        unit(Kind::VegeterianAnimal, 2, 50.0),
    ]);
    // A huge death rate drives the herbivore far below zero within the
    // tick; it is removed by the cleanup, while the plant still sees the
    // full consumption term the herbivore exerted before its removal.
    let config = EvolutionConfig {
        predator_death_rate: (2.8f64).to_bits(),
        predator_eating_rate: (0.075f64).to_bits(),
        vegeterian_death_rate: (100.0f64).to_bits(),
        vegeterian_eating_rate: (0.075f64).to_bits(),
        plant_growth_rate: (100.0f64).to_bits(),
    };
    let mut grid = Grid::new(config, cells);
    grid.tick();
    let units = cell_units(&grid.cells()[0]);
    assert_eq!(units.len(), 1);
    assert_eq!(units[0].kind, Kind::Plant);
    let consumed = 0.0 + 50.0 * 0.075 * 50.0;
    assert_eq!(units[0].quantity, (50.0 + (100.0 - consumed) * TICK_RATE).to_bits());
}

#[test]
fn generation_counts_ticks() {
    let mut grid = Grid::experiment_flat(experiment_config());
    assert_eq!(grid.generation(), 0);
    grid.tick();
    assert_eq!(grid.generation(), 1);
    grid.tick();
    assert_eq!(grid.generation(), 2);
}

#[test]
fn repeated_runs_are_bit_identical() {
    let mut first = Grid::experiment_flat(experiment_config());
    let mut second = Grid::experiment_flat(experiment_config());
    for _ in 0..50 {
        first.tick();
        second.tick();
    }
    assert_eq!(first.generation(), second.generation());
    assert_eq!(first.cells(), second.cells());
}

#[test]
fn cells_evolve_in_isolation() {
    let content = vec![
        unit(Kind::Plant, 1, 50.0),
        unit(Kind::VegeterianAnimal, 2, 50.0),
        unit(Kind::PredatorAnimal, 3, 50.0),
    ];
    let mut alone_cells = water_grid_cells();
    alone_cells[42] = ground(content.clone());
    let mut crowded_cells = water_grid_cells();
    crowded_cells[42] = ground(content);
    crowded_cells[0] = ground(vec![unit(Kind::Plant, 4, 12.5)]);
    crowded_cells[99] = ground(vec![unit(Kind::VegeterianAnimal, 5, 3.25)]);
    let mut alone = Grid::new(experiment_config(), alone_cells);
    let mut crowded = Grid::new(experiment_config(), crowded_cells);
    for _ in 0..10 {
        alone.tick();
        crowded.tick();
        assert_eq!(alone.cells()[42], crowded.cells()[42]);
    }
}

#[test]
fn ids_stay_unique_across_extinctions() {
    let mut grid = Grid::experiment_flat(experiment_config());
    for _ in 0..20 {
        grid.tick();
        let mut ids = Vec::new();
        for cell in grid.cells() {
            for u in cell_units(cell) {
                ids.push(u.id);
            }
        }
        let mut sorted = ids.clone();
        sorted.sort();
        sorted.dedup();
        assert_eq!(sorted.len(), ids.len());
        assert!(ids.iter().all(|id| (1..=35).contains(id)));
    }
}
