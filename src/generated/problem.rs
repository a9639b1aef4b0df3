//! Generated test data: each case with the files that hold its input and answer,
//! grouped into bundles and scored tasks.

use crate::generated::program::{leading_args, Invocation, Program};
use crate::text::texts;
use vstd::prelude::*;

verus! {

/// A generated case: the generator's arguments and where its files lie.
#[derive(Debug, Clone)]
pub struct TestCase {
    pub args: Vec<String>,
    pub input_path: String,
    pub answer_path: String,
}

#[derive(Debug, Clone)]
pub struct TestBundle {
    pub cases: Vec<TestCase>,
}

/// How a grader combines the outcomes of a task's cases.
#[derive(Debug, Clone, Copy, PartialEq, Eq)]
pub enum TestTaskType {
    Sum,
    Min,
}

/// A scored task; the score is counted in hundredths of a point.
#[derive(Debug, Clone)]
pub struct TestTask {
    pub name: String,
    pub score: u64,
    pub task_type: TestTaskType,
    pub bundles: Vec<String>,
    pub dependencies: Vec<String>,
}

/// The bundles, each under its name, and the tasks.
#[derive(Debug, Clone)]
pub struct Test {
    pub bundles: Vec<(String, TestBundle)>,
    pub tasks: Vec<TestTask>,
}

#[derive(Debug, Clone)]
pub struct Problem {
    pub name: String,
    pub test: Test,
    pub checker: Option<Program>,
}

impl TestCase {
    /// The run of `checker` that judges the output at `output_path` for this
    /// case: its arguments are the input, that output and the answer, in this
    /// order, after the checker's own.
    pub fn check(&self, output_path: &str, checker: &Program) -> (r: Invocation)
        ensures
            texts(r.args@) == texts(leading_args(checker.info)) + seq![
                self.input_path@,
                output_path@,
                self.answer_path@,
            ],
            r.path@ == crate::generated::program::executable(checker.info),
            r.time_limit_ms == checker.time_limit_ms,
            r.memory_limit_bytes == checker.memory_limit_bytes,
    {
        let mut args: Vec<String> = Vec::new();
        args.push(self.input_path.clone());
        args.push(String::from_str(output_path));
        args.push(self.answer_path.clone());
        let r = checker.invocation(&args);
        assert(texts(r.args@) =~= texts(leading_args(checker.info)) + seq![
            self.input_path@,
            output_path@,
            self.answer_path@,
        ]);
        r
    }
}

} // verus!
