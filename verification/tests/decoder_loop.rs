use poing::decoder::{run_decoder, GenerationSession, StepEvent, StepSource};
use poing::GenError;

const PAD: i64 = 2048;
const BOS: i64 = 2048;

/// A stub sequence model: every step yields the same token for every
/// codebook, and cancellation can be armed for a given step.
struct StubSource {
    token: i64,
    num_codebooks: usize,
    cancel_at: Option<usize>,
    fail_at: Option<usize>,
    calls: Vec<usize>,
    progress: Vec<(usize, usize)>,
}

impl StubSource {
    fn returning(token: i64, num_codebooks: usize) -> StubSource {
        StubSource {
            token,
            num_codebooks,
            cancel_at: None,
            fail_at: None,
            calls: Vec::new(),
            progress: Vec::new(),
        }
    }
}

impl StepSource for StubSource {
    fn next_step(&mut self, step: usize, _num_steps: usize, _input: &Vec<i64>) -> StepEvent {
        self.calls.push(step);
        if self.cancel_at == Some(step) {
            return StepEvent::Cancelled;
        }
        if self.fail_at == Some(step) {
            return StepEvent::Failed(String::from("model run failed"));
        }
        StepEvent::Tokens(vec![self.token; self.num_codebooks])
    }

    fn report_progress(&mut self, completed: usize, num_steps: usize) {
        self.progress.push((completed, num_steps));
    }
}

#[test]
fn end_to_end_stub_generation() {
    // prompt "test" stands behind an encoder length of 4; the stub model
    // always favours vocabulary index 5.
    let mut source = StubSource::returning(5, 2);
    let grid = run_decoder(&mut source, 2, 10, PAD, BOS, 24, 4).unwrap();
    let aligned = grid.undelay();
    assert_eq!(aligned.len(), 2);
    for row in &aligned {
        assert_eq!(row.len(), 10 - 1 - (2 - 1));
        assert!(row.iter().all(|&v| v == 5));
    }
}

#[test]
fn cancellation_before_step_three() {
    let mut source = StubSource::returning(5, 2);
    source.cancel_at = Some(2);
    let result = run_decoder(&mut source, 2, 20, PAD, BOS, 24, 4);
    assert_eq!(result.err(), Some(GenError::Cancelled));
    // Two steps completed before the signal was observed; every progress
    // value seen stays under 3/19.
    assert!(!source.progress.is_empty());
    for &(completed, num_steps) in &source.progress {
        assert_eq!(num_steps, 19);
        assert!((completed as f32) / (num_steps as f32) < 3.0 / 19.0);
    }
}

#[test]
fn model_failure_aborts_with_its_cause() {
    let mut source = StubSource::returning(5, 2);
    source.fail_at = Some(1);
    let result = run_decoder(&mut source, 2, 10, PAD, BOS, 24, 4);
    assert_eq!(
        result.err(),
        Some(GenError::ModelInvocation(String::from("model run failed")))
    );
    assert_eq!(source.calls, vec![0, 1]);
}

#[test]
fn wrong_token_width_is_a_shape_fault() {
    // The stub claims three codebooks where the session expects two.
    let mut source = StubSource::returning(5, 3);
    let result = run_decoder(&mut source, 2, 10, PAD, BOS, 24, 4);
    match result {
        Err(GenError::Shape(_)) => {}
        other => panic!("expected a shape fault, got {:?}", other),
    }
}

#[test]
fn progress_is_monotonic_and_completes() {
    let mut source = StubSource::returning(7, 3);
    run_decoder(&mut source, 3, 8, PAD, BOS, 24, 2).unwrap();
    let mut last = 0usize;
    for &(completed, num_steps) in &source.progress {
        assert_eq!(num_steps, 7);
        assert!(completed >= last);
        last = completed;
    }
    assert_eq!(source.progress.last(), Some(&(7, 7)));
    // the model was invoked once per step, in order
    assert_eq!(source.calls, (0..7).collect::<Vec<usize>>());
}

#[test]
fn cache_grows_one_per_step_and_cross_is_set_once() {
    let mut session = GenerationSession::new(2, 6, PAD, BOS, 24, 3);
    assert_eq!(session.cache().self_len(), 0);
    assert_eq!(session.cache().cross_len(), 0);
    assert_eq!(session.cache().num_layers(), 24);
    let mut previous = 0usize;
    while !session.is_done() {
        session.apply_event(StepEvent::Tokens(vec![1, 2])).unwrap();
        assert_eq!(session.cache().self_len(), previous + 1);
        assert_eq!(session.cache().cross_len(), 3);
        previous += 1;
    }
    assert_eq!(session.cache().self_len(), 5);
}

#[test]
fn session_feeds_back_the_written_column() {
    let mut session = GenerationSession::new(2, 10, PAD, BOS, 24, 4);
    assert_eq!(session.next_input(), &vec![BOS, BOS, BOS, BOS]);
    session.apply_event(StepEvent::Tokens(vec![7, 9])).unwrap();
    // codebook 1 is not yet active at column 1, so its rows stay padding
    assert_eq!(session.next_input(), &vec![7, PAD, 7, PAD]);
    session.apply_event(StepEvent::Tokens(vec![11, 13])).unwrap();
    assert_eq!(session.next_input(), &vec![11, 13, 11, 13]);
    assert_eq!(session.step(), 2);
}

#[test]
fn mirror_holds_after_every_step() {
    let mut source = StubSource::returning(9, 4);
    let grid = run_decoder(&mut source, 4, 12, PAD, BOS, 24, 5).unwrap();
    for t in 0..12usize {
        let col = grid.column(t);
        for r in 0..4usize {
            assert_eq!(col[r], col[r + 4]);
        }
    }
}

#[test]
fn error_event_leaves_session_untouched() {
    let mut session = GenerationSession::new(2, 10, PAD, BOS, 24, 4);
    session.apply_event(StepEvent::Tokens(vec![7, 9])).unwrap();
    let result = session.apply_event(StepEvent::Cancelled);
    assert_eq!(result, Err(GenError::Cancelled));
    assert_eq!(session.step(), 1);
    assert_eq!(session.next_input(), &vec![7, PAD, 7, PAD]);
}
