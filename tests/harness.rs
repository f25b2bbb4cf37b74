use rustos::{test_runner, QemuExitCode, Testable};
use std::cell::Cell;

struct Counting<'a> {
    runs: &'a Cell<u32>,
}

impl Testable for Counting<'_> {
    fn run(&self) {
        self.runs.set(self.runs.get() + 1);
    }
}

#[test]
fn exit_codes() {
    assert_eq!(QemuExitCode::Success.code(), 0x10);
    assert_eq!(QemuExitCode::Failed.code(), 0x11);
}

#[test]
fn runner_runs_each_test_once() {
    let runs = Cell::new(0);
    let tests = [Counting { runs: &runs }, Counting { runs: &runs }, Counting { runs: &runs }];
    assert_eq!(test_runner(&tests), QemuExitCode::Success);
    assert_eq!(runs.get(), 3);
}

#[test]
fn runner_with_no_tests() {
    let tests: [Counting; 0] = [];
    assert_eq!(test_runner(&tests), QemuExitCode::Success);
}
