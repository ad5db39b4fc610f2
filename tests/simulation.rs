use pipes::direction::{decide_steer, Direction, Steer};
use pipes::grid::{Cell, Grid};
use pipes::pipe::Pipe;
use pipes::simulation::Simulation;

fn blank(g: &Grid) -> bool {
    g.cells.iter().all(|c| *c == Cell::Empty)
}

#[test]
fn fresh_simulation_layout() {
    let sim = Simulation::new(10, 13, 3, 1000);
    assert_eq!(sim.grid.width, 10);
    assert_eq!(sim.grid.rows, 10);
    assert_eq!(sim.grid.cells.len(), 100);
    assert!(blank(&sim.grid));
    assert_eq!(sim.cycles, 0);
    assert_eq!(sim.pipes.len(), 3);
    for p in &sim.pipes {
        assert_eq!(*p, Pipe::new(5, 0, Direction::Down));
    }
}

#[test]
fn straight_pipe_walks_column_and_wraps() {
    let mut sim = Simulation::new(10, 13, 1, 1000);
    let steers = vec![Steer::Straight];
    for t in 1..10u16 {
        assert!(!sim.tick_with(&steers));
        assert_eq!(sim.pipes[0], Pipe::new(5, t, Direction::Down));
        assert_eq!(sim.grid.get(5, t), Cell::Vertical);
    }
    assert!(!sim.tick_with(&steers));
    assert_eq!(sim.pipes[0], Pipe::new(5, 0, Direction::Down));
    for y in 0..10u16 {
        assert_eq!(sim.grid.get(5, y), Cell::Vertical);
    }
    for x in 0..10u16 {
        for y in 0..10u16 {
            if x != 5 {
                assert_eq!(sim.grid.get(x, y), Cell::Empty);
            }
        }
    }
    assert_eq!(sim.cycles, 10);
}

#[test]
fn no_pipes_leave_grid_untouched() {
    let mut sim = Simulation::new(10, 13, 0, 1000);
    assert!(!sim.tick_with(&Vec::new()));
    assert!(!sim.tick());
    assert!(blank(&sim.grid));
    assert_eq!(sim.cycles, 2);
    let draws = sim.frame();
    assert_eq!(draws.len(), 10);
    for (i, d) in draws.iter().enumerate() {
        assert_eq!(d.col as usize, i);
        assert_eq!(d.row, 1);
        assert_eq!(d.glyph, '_');
    }
    assert_eq!(sim.header(false), "Pipes");
}

#[test]
fn reset_once_count_exceeds_threshold() {
    let mut sim = Simulation::new(10, 13, 2, 1);
    let steers = vec![Steer::Straight, Steer::Clockwise];
    assert!(!sim.tick_with(&steers));
    assert_eq!(sim.cycles, 1);
    assert!(!blank(&sim.grid));
    assert!(sim.tick_with(&steers));
    assert_eq!(sim.cycles, 0);
    assert!(blank(&sim.grid));
    assert_eq!(sim.pipes.len(), 2);
    for p in &sim.pipes {
        assert_eq!(*p, Pipe::new(5, 0, Direction::Down));
    }
}

#[test]
fn reset_with_zero_threshold_every_tick() {
    let mut sim = Simulation::new(4, 8, 1, 0);
    assert!(sim.tick_with(&vec![Steer::Straight]));
    assert_eq!(sim.cycles, 0);
    assert!(blank(&sim.grid));
}

#[test]
fn turn_marks_cell_left_behind() {
    let mut sim = Simulation::new(10, 13, 1, 1000);
    let straight = vec![Steer::Straight];
    for _ in 0..3 {
        sim.tick_with(&straight);
    }
    assert_eq!(sim.pipes[0], Pipe::new(5, 3, Direction::Down));
    assert_eq!(sim.grid.get(5, 3), Cell::Vertical);
    // Down turned clockwise is Left.
    sim.tick_with(&vec![Steer::Clockwise]);
    assert_eq!(sim.pipes[0], Pipe::new(4, 3, Direction::Left));
    assert_eq!(sim.grid.get(5, 3), Cell::Turn);
    assert_eq!(sim.grid.get(4, 3), Cell::Horizontal);
    // Keeping the heading marks no turn.
    sim.tick_with(&straight);
    assert_eq!(sim.pipes[0], Pipe::new(3, 3, Direction::Left));
    assert_eq!(sim.grid.get(4, 3), Cell::Horizontal);
    assert_eq!(sim.grid.get(3, 3), Cell::Horizontal);
    // Left turned counter-clockwise is Down.
    sim.tick_with(&vec![Steer::CounterClockwise]);
    assert_eq!(sim.pipes[0], Pipe::new(3, 4, Direction::Down));
    assert_eq!(sim.grid.get(3, 3), Cell::Turn);
    assert_eq!(sim.grid.get(3, 4), Cell::Vertical);
}

#[test]
fn turn_overwritten_when_move_returns_to_same_cell() {
    // One column only: moving sideways wraps back onto the same cell.
    let mut sim = Simulation::new(1, 6, 1, 1000);
    assert_eq!(sim.pipes[0], Pipe::new(0, 0, Direction::Down));
    sim.tick_with(&vec![Steer::CounterClockwise]);
    assert_eq!(sim.pipes[0], Pipe::new(0, 0, Direction::Right));
    assert_eq!(sim.grid.get(0, 0), Cell::Horizontal);
}

#[test]
fn later_pipe_overwrites_earlier_mark() {
    let mut sim = Simulation::new(10, 13, 2, 1000);
    sim.tick_with(&vec![Steer::Clockwise, Steer::Straight]);
    // The first pipe turned Left at (5,0) and moved to (4,0); the second
    // moved down from (5,0) to (5,1).
    assert_eq!(sim.pipes[0], Pipe::new(4, 0, Direction::Left));
    assert_eq!(sim.pipes[1], Pipe::new(5, 1, Direction::Down));
    assert_eq!(sim.grid.get(5, 0), Cell::Turn);
    assert_eq!(sim.grid.get(4, 0), Cell::Horizontal);
    assert_eq!(sim.grid.get(5, 1), Cell::Vertical);
}

#[test]
fn random_ticks_keep_pipes_on_grid() {
    let mut sim = Simulation::new(7, 9, 5, 50);
    for _ in 0..500 {
        sim.tick();
        assert!(sim.cycles <= 50);
        for p in &sim.pipes {
            assert!(p.x_pos < 7);
            assert!(p.y_pos < 6);
        }
    }
}

#[test]
fn steer_policy_table() {
    for bits in 0..16u8 {
        let a = bits & 1 != 0;
        let b = bits & 2 != 0;
        let c = bits & 4 != 0;
        let d = bits & 8 != 0;
        let expected = if a && b && c {
            if d { Steer::Clockwise } else { Steer::CounterClockwise }
        } else {
            Steer::Straight
        };
        assert_eq!(decide_steer(a, b, c, d), expected);
    }
}
