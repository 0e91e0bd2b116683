use hooktracer::resolution::{CellState, ResolutionCell, Step};

#[test]
fn a_new_cell_is_empty() {
    assert_eq!(ResolutionCell::new().state(), CellState::Empty);
}

#[test]
fn first_call_looks_up_and_later_calls_do_not() {
    let mut cell = ResolutionCell::new();
    assert_eq!(cell.enter(), Step::Lookup);
    assert_eq!(cell.state(), CellState::Resolving);
    assert_eq!(cell.found(0x7f00_1000), Step::Invoke(0x7f00_1000));
    assert_eq!(cell.state(), CellState::Resolved(0x7f00_1000));
    for _ in 0..100 {
        assert_eq!(cell.enter(), Step::Invoke(0x7f00_1000));
        assert_eq!(cell.state(), CellState::Resolved(0x7f00_1000));
    }
}

#[test]
fn n_calls_make_one_lookup_and_n_invocations() {
    for n in 1..20usize {
        let mut cell = ResolutionCell::new();
        let mut lookups = 0;
        let mut invocations = 0;
        for _ in 0..n {
            let mut step = cell.enter();
            if step == Step::Lookup {
                lookups += 1;
                step = cell.found(42);
            }
            assert_eq!(step, Step::Invoke(42));
            invocations += 1;
        }
        assert_eq!(lookups, 1);
        assert_eq!(invocations, n);
    }
}

#[test]
fn callers_that_enter_during_the_lookup_wait() {
    let mut cell = ResolutionCell::new();
    assert_eq!(cell.enter(), Step::Lookup);
    assert_eq!(cell.enter(), Step::Wait);
    assert_eq!(cell.enter(), Step::Wait);
    assert_eq!(cell.state(), CellState::Resolving);
    assert_eq!(cell.found(7), Step::Invoke(7));
    assert_eq!(cell.enter(), Step::Invoke(7));
    assert_eq!(cell.enter(), Step::Invoke(7));
}

#[test]
fn lookup_that_finds_nothing_is_fatal() {
    let mut cell = ResolutionCell::new();
    assert_eq!(cell.enter(), Step::Lookup);
    assert_eq!(cell.found(0), Step::Abort);
    assert_eq!(cell.state(), CellState::Failed);
    assert_eq!(cell.enter(), Step::Abort);
    assert_eq!(cell.state(), CellState::Failed);
}

#[test]
fn a_hook_that_ignores_the_original_still_resolves_it_once() {
    let mut cell = ResolutionCell::new();
    let mut lookups = 0;
    let mut handed = Vec::new();
    for call in 0..4 {
        let mut step = cell.enter();
        if step == Step::Lookup {
            assert_eq!(call, 0);
            lookups += 1;
            step = cell.found(0xbeef);
        }
        match step {
            Step::Invoke(address) => handed.push(address),
            other => panic!("{:?}", other),
        }
    }
    assert_eq!(lookups, 1);
    assert_eq!(handed, vec![0xbeef; 4]);
}

#[test]
fn however_callers_interleave_one_lookup_is_made() {
    for during in 0..6 {
        for after in 0..6 {
            let mut cell = ResolutionCell::new();
            let mut steps = vec![cell.enter()];
            for _ in 0..during {
                steps.push(cell.enter());
            }
            steps.push(cell.found(0x1000));
            for _ in 0..after {
                steps.push(cell.enter());
            }
            assert_eq!(steps.iter().filter(|step| **step == Step::Lookup).count(), 1);
            assert_eq!(steps.iter().filter(|step| **step == Step::Wait).count(), during);
            assert_eq!(
                steps.iter().filter(|step| **step == Step::Invoke(0x1000)).count(),
                after + 1
            );
            assert_eq!(steps.len(), during + after + 2);
        }
    }
}
