use cptool::error::Error;
use cptool::export::syzoj::{ProgramType, SubtaskType, SyzojExporter};
use cptool::export::Exporter;
use cptool::generated::problem::{Problem, Test, TestBundle, TestCase, TestTask, TestTaskType};
use cptool::generated::program::{CommandProgram, CppProgram, Program, ProgramInfo};

fn strings(words: &[&str]) -> Vec<String> {
    words.iter().map(|w| w.to_string()).collect()
}

fn cases(bundle: &str, n: usize) -> TestBundle {
    TestBundle {
        cases: (0..n)
            .map(|i| TestCase {
                args: vec![],
                input_path: format!("out/{}-{}.in", bundle, i),
                answer_path: format!("out/{}-{}.ans", bundle, i),
            })
            .collect(),
    }
}

fn task(name: &str, score: u64, t: TestTaskType, bundles: &[&str], deps: &[&str]) -> TestTask {
    TestTask {
        name: name.to_string(),
        score,
        task_type: t,
        bundles: strings(bundles),
        dependencies: strings(deps),
    }
}

fn problem(checker: Option<Program>) -> Problem {
    Problem {
        name: "p".to_string(),
        test: Test {
            bundles: vec![("small".to_string(), cases("small", 2)), ("big".to_string(), cases("big", 1))],
            tasks: vec![
                task("s", 3000, TestTaskType::Min, &["small"], &[]),
                task("all", 7000, TestTaskType::Sum, &["small", "big"], &["s"]),
            ],
        },
        checker,
    }
}

fn cpp_checker() -> Program {
    Program {
        info: ProgramInfo::Cpp(CppProgram {
            path: "cache/chk".to_string(),
            source_path: "chk.cpp".to_string(),
            compile_args: strings(&["-O2"]),
        }),
        time_limit_ms: 1000,
        memory_limit_bytes: 1 << 28,
    }
}

#[test]
fn syzoj_numbers_cases_across_subtasks() {
    let ex = SyzojExporter::export(&problem(None)).expect("an export");
    let m = &ex.manifest;
    assert_eq!(m.input_file.as_deref(), Some("#.in"));
    assert_eq!(m.output_file.as_deref(), Some("#.ans"));
    assert_eq!(m.answer_file, None);
    assert!(m.special_judge.is_none());
    assert_eq!(m.subtasks.len(), 2);
    assert_eq!(m.subtasks[0].subtask_type, SubtaskType::Min);
    assert_eq!(m.subtasks[0].score, 3000);
    assert_eq!(m.subtasks[0].cases, strings(&["0", "1"]));
    assert_eq!(m.subtasks[0].dependencies, Some(vec![]));
    assert_eq!(m.subtasks[1].subtask_type, SubtaskType::Sum);
    assert_eq!(m.subtasks[1].cases, strings(&["2", "3", "4"]));
    assert_eq!(m.subtasks[1].dependencies, Some(vec![1]));
    assert_eq!(ex.copies.len(), 10);
    assert_eq!(ex.copies[0].from, "out/small-0.in");
    assert_eq!(ex.copies[0].to, "0.in");
    assert_eq!(ex.copies[1].from, "out/small-0.ans");
    assert_eq!(ex.copies[1].to, "0.ans");
    assert_eq!(ex.copies[8].from, "out/big-0.in");
    assert_eq!(ex.copies[8].to, "4.in");
    assert_eq!(ex.copies[9].to, "4.ans");
}

#[test]
fn syzoj_copies_cpp_checker_as_special_judge() {
    let ex = SyzojExporter::export(&problem(Some(cpp_checker()))).expect("an export");
    let judge = ex.manifest.special_judge.as_ref().expect("a special judge");
    assert_eq!(judge.language, ProgramType::Cpp);
    assert_eq!(judge.file_name, "spj.cpp");
    let last = ex.copies.last().unwrap();
    assert_eq!(last.from, "chk.cpp");
    assert_eq!(last.to, "spj.cpp");
    assert_eq!(ex.copies.len(), 11);
}

#[test]
fn syzoj_refuses_command_checker() {
    let checker = Program {
        info: ProgramInfo::Command(CommandProgram { path: "diff".to_string(), extra_args: vec![] }),
        time_limit_ms: 1000,
        memory_limit_bytes: 1 << 28,
    };
    assert!(matches!(
        SyzojExporter::export(&problem(Some(checker))),
        Err(Error::ExportError(_))
    ));
}

#[test]
fn syzoj_refuses_missing_dependency() {
    let mut p = problem(None);
    p.test.tasks[1].dependencies = strings(&["nope"]);
    assert_eq!(
        SyzojExporter::export(&p).err(),
        Some(Error::ExportError("task `nope` not found".to_string()))
    );
}

#[test]
fn syzoj_refuses_missing_bundle() {
    let mut p = problem(None);
    p.test.tasks[0].bundles = strings(&["gone"]);
    assert_eq!(
        SyzojExporter::export(&p).err(),
        Some(Error::ExportError("bundle `gone` not found".to_string()))
    );
}

#[test]
fn subtask_type_follows_task_type() {
    assert_eq!(SubtaskType::from(TestTaskType::Sum), SubtaskType::Sum);
    assert_eq!(SubtaskType::from(TestTaskType::Min), SubtaskType::Min);
}
