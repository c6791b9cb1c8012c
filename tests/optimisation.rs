use packing::optimisation::{clamp_inner_steps, RunState, Step};

#[test]
fn inner_steps_are_clamped() {
    assert_eq!(clamp_inner_steps(1000, 100), 100);
    assert_eq!(clamp_inner_steps(10, 100), 10);
}

#[test]
fn run_without_convergence_makes_every_move() {
    let mut run = RunState::new(10, 4);
    assert_eq!(run.stages, 2);
    let mut moves = 0;
    let mut stages = 0;
    loop {
        match run.next_step() {
            Step::Move => {
                moves += 1;
                run.record_move(moves % 2 == 0);
            }
            Step::EndStage => {
                assert_eq!(run.stage_rejections, 2);
                stages += 1;
                assert!(!run.end_stage(None));
            }
            Step::Finish => break,
        }
    }
    assert_eq!(moves, 8);
    assert_eq!(stages, 2);
}

#[test]
fn run_stops_after_six_stalled_stages() {
    let mut run = RunState::new(100, 10);
    let mut ended = 0;
    loop {
        match run.next_step() {
            Step::Move => run.record_move(false),
            Step::EndStage => {
                ended += 1;
                let stop = run.end_stage(Some(true));
                assert_eq!(stop, ended == 6);
            }
            Step::Finish => break,
        }
    }
    assert_eq!(ended, 6);
    assert!(run.converged);
}

#[test]
fn stalled_stages_must_be_consecutive() {
    let mut run = RunState::new(100, 10);
    let pattern = [true, true, true, true, true, false, true, true, true, true];
    let mut k = 0;
    loop {
        match run.next_step() {
            Step::Move => run.record_move(true),
            Step::EndStage => {
                assert!(!run.end_stage(Some(pattern[k])));
                k += 1;
            }
            Step::Finish => break,
        }
    }
    assert_eq!(k, 10);
    assert!(!run.converged);
    assert_eq!(run.stalled, 4);
}
