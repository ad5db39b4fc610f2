use pipes::direction::Steer;
use pipes::driver::{after_wait, Action, Input};
use pipes::grid::Cell;
use pipes::render::{glyph, header_text, Draw};
use pipes::simulation::Simulation;

#[test]
fn header_with_and_without_cycles() {
    assert_eq!(header_text(false, 42), "Pipes");
    assert_eq!(header_text(true, 42), "Pipes | Cycle: 42");
    assert_eq!(header_text(true, 0), "Pipes | Cycle: 0");
    assert_eq!(header_text(true, 1000), "Pipes | Cycle: 1000");
    assert_eq!(
        header_text(true, u64::MAX),
        "Pipes | Cycle: 18446744073709551615"
    );
}

#[test]
fn header_follows_cycle_count() {
    let mut sim = Simulation::new(5, 6, 1, 1000);
    sim.tick_with(&vec![Steer::Straight]);
    sim.tick_with(&vec![Steer::Straight]);
    assert_eq!(sim.header(true), "Pipes | Cycle: 2");
    assert_eq!(sim.header(false), "Pipes");
}

#[test]
fn glyph_mapping() {
    assert_eq!(glyph(Cell::Empty), None);
    assert_eq!(glyph(Cell::Horizontal), Some('-'));
    assert_eq!(glyph(Cell::Vertical), Some('|'));
    assert_eq!(glyph(Cell::Turn), Some('+'));
}

#[test]
fn frame_draws_rule_then_marked_cells() {
    let mut sim = Simulation::new(4, 8, 1, 1000);
    // Pipe starts at (2,0) heading down; turn clockwise to Left, then go on.
    sim.tick_with(&vec![Steer::Clockwise]);
    let draws = sim.frame();
    let rule: Vec<Draw> = (0..4u16).map(|c| Draw { col: c, row: 1, glyph: '_' }).collect();
    assert_eq!(draws[..4].to_vec(), rule);
    assert_eq!(
        draws[4..].to_vec(),
        vec![
            Draw { col: 1, row: 2, glyph: '-' },
            Draw { col: 2, row: 2, glyph: '+' },
        ]
    );
}

#[test]
fn only_enter_exits() {
    assert_eq!(after_wait(Input::Enter), Action::Exit);
    assert_eq!(after_wait(Input::Timeout), Action::Continue);
    assert_eq!(after_wait(Input::Other), Action::Continue);
}
