use pathfinding_playground::api::{TimelineAction, WasmRunner};

const GREEN: (u8, u8, u8) = (0, 200, 0);

#[test]
fn output_of_three_positions_records_two_lines() {
    let mut runner = WasmRunner::default();
    runner.clear();
    assert!(runner.output(vec![(0, 0), (1, 1), (2, 2)]));
    let drained = runner.drain();
    assert_eq!(
        drained,
        vec![
            TimelineAction::Line { start: (0, 0), end: (1, 1), color: GREEN },
            TimelineAction::Line { start: (1, 1), end: (2, 2), color: GREEN },
        ]
    );
    assert!(runner.timeline.is_empty());
}

#[test]
fn output_records_one_line_fewer_than_positions() {
    let mut runner = WasmRunner::default();
    let path = vec![(4, 0), (3, 0), (3, 1), (3, 2), (2, 2)];
    assert!(runner.output(path.clone()));
    assert_eq!(runner.timeline.len(), 4);
    for i in 0..4 {
        assert_eq!(
            runner.timeline[i],
            TimelineAction::Line { start: path[i], end: path[i + 1], color: GREEN }
        );
    }
}

#[test]
fn output_of_empty_or_single_path_records_nothing() {
    let mut runner = WasmRunner::default();
    assert!(runner.output(vec![]));
    assert!(runner.output(vec![(7, 7)]));
    assert!(runner.timeline.is_empty());
}

#[test]
fn output_appends_after_earlier_actions() {
    let mut runner = WasmRunner::default();
    runner.tile((1, 2), (9, 8, 7));
    assert!(runner.output(vec![(0, 0), (0, 1)]));
    assert_eq!(
        runner.timeline,
        vec![
            TimelineAction::Tile { pos: (1, 2), color: (9, 8, 7) },
            TimelineAction::Line { start: (0, 0), end: (0, 1), color: GREEN },
        ]
    );
}

#[test]
fn callbacks_are_recorded_in_call_order() {
    let mut runner = WasmRunner::default();
    runner.arrow((0, 0), (1, 0), (1, 2, 3));
    runner.tile((2, 2), (4, 5, 6));
    runner.line((1, 0), (1, 1), (7, 8, 9));
    runner.tile((2, 2), (10, 11, 12));
    assert_eq!(
        runner.drain(),
        vec![
            TimelineAction::Arrow { start: (0, 0), end: (1, 0), color: (1, 2, 3) },
            TimelineAction::Tile { pos: (2, 2), color: (4, 5, 6) },
            TimelineAction::Line { start: (1, 0), end: (1, 1), color: (7, 8, 9) },
            TimelineAction::Tile { pos: (2, 2), color: (10, 11, 12) },
        ]
    );
    assert!(runner.drain().is_empty());
}

#[test]
fn a_new_run_never_sees_the_previous_runs_actions() {
    let mut runner = WasmRunner::default();
    runner.tile((0, 0), (1, 1, 1));
    runner.line((0, 0), (1, 1), (2, 2, 2));
    runner.clear();
    runner.arrow((1, 1), (0, 0), (3, 3, 3));
    assert_eq!(
        runner.drain(),
        vec![TimelineAction::Arrow { start: (1, 1), end: (0, 0), color: (3, 3, 3) }]
    );
}
