use cptool::config::program::{default_compile_args, CommandProgram, CppProgram, Program, ProgramInfo};
use cptool::error::Error;
use cptool::generated::program as prepared;
use cptool::generated::program::RunOutcome;

fn strings(words: &[&str]) -> Vec<String> {
    words.iter().map(|w| w.to_string()).collect()
}

fn cpp(path: &str, args: &[&str]) -> Program {
    Program {
        info: ProgramInfo::Cpp(CppProgram { path: path.to_string(), compile_args: strings(args) }),
        time_limit_ms: 1000,
        memory_limit_bytes: 256 << 20,
    }
}

fn command(path: &str, args: &[&str]) -> Program {
    Program {
        info: ProgramInfo::Command(CommandProgram {
            path: path.to_string(),
            extra_args: strings(args),
        }),
        time_limit_ms: 2000,
        memory_limit_bytes: 64 << 20,
    }
}

#[test]
fn default_compile_args_is_o2() {
    assert_eq!(default_compile_args(), vec!["-O2".to_string()]);
}

#[test]
fn cpp_program_is_compiled_into_the_cache() {
    let prep = cpp("sol.cpp", &["-O2", "-std=c++17"]).generate("sol", "/tmp/cache", "");
    let job = prep.compile.expect("a compilation");
    assert_eq!(job.compiler, "g++");
    assert_eq!(job.exe_path, "/tmp/cache/sol");
    assert_eq!(job.args, strings(&["-o", "/tmp/cache/sol", "-O2", "-std=c++17", "sol.cpp"]));
    match &prep.program.info {
        prepared::ProgramInfo::Cpp(p) => {
            assert_eq!(p.path, "/tmp/cache/sol");
            assert_eq!(p.source_path, "sol.cpp");
            assert_eq!(p.compile_args, strings(&["-O2", "-std=c++17"]));
        }
        _ => panic!("expected a compiled program"),
    }
    assert_eq!(prep.program.time_limit_ms, 1000);
    assert_eq!(prep.program.memory_limit_bytes, 256 << 20);
}

#[test]
fn exe_suffix_is_appended() {
    let prep = cpp("gen.cpp", &[]).generate("gen", "cache", ".exe");
    assert_eq!(prep.compile.unwrap().exe_path, "cache/gen.exe");
}

#[test]
fn command_program_needs_no_compilation() {
    let prep = command("python3", &["gen.py"]).generate("gen", "/tmp/cache", "");
    assert!(prep.compile.is_none());
    match &prep.program.info {
        prepared::ProgramInfo::Command(p) => {
            assert_eq!(p.path, "python3");
            assert_eq!(p.extra_args, strings(&["gen.py"]));
        }
        _ => panic!("expected a command"),
    }
}

#[test]
fn command_invocation_puts_fixed_args_first() {
    let prep = command("python3", &["gen.py"]).generate("gen", "c", "");
    let run = prep.program.invocation(&strings(&["5", "7"]));
    assert_eq!(run.path, "python3");
    assert_eq!(run.args, strings(&["gen.py", "5", "7"]));
    assert_eq!(run.time_limit_ms, 2000);
    assert_eq!(run.memory_limit_bytes, 64 << 20);
}

#[test]
fn compiled_invocation_runs_the_executable() {
    let prep = cpp("sol.cpp", &["-O2"]).generate("sol", "c", "");
    let run = prep.program.invocation(&strings(&["x"]));
    assert_eq!(run.path, "c/sol");
    assert_eq!(run.args, strings(&["x"]));
}

#[test]
fn limit_breach_is_time_limit_exceeded() {
    let p = command("loop", &[]).generate("loop", "c", "").program;
    assert_eq!(
        p.classify(RunOutcome::LimitExceeded),
        Err(Error::TimeLimitExceeded(p.to_text()))
    );
}

#[test]
fn nonzero_exit_is_runtime_error() {
    let p = command("false", &[]).generate("f", "c", "").program;
    assert_eq!(
        p.classify(RunOutcome::Exited(Some(1))),
        Err(Error::RuntimeError(p.to_text(), Some(1)))
    );
    assert_eq!(
        p.classify(RunOutcome::Exited(None)),
        Err(Error::RuntimeError(p.to_text(), None))
    );
    assert!(!matches!(
        p.classify(RunOutcome::Exited(Some(2))),
        Err(Error::TimeLimitExceeded(_))
    ));
}

#[test]
fn zero_exit_succeeds() {
    let p = command("true", &[]).generate("t", "c", "").program;
    assert_eq!(p.classify(RunOutcome::Exited(Some(0))), Ok(()));
}

#[test]
fn failed_compilation_is_compile_error() {
    let p = cpp("bad.cpp", &["-O2"]).generate("bad", "c", "").program;
    let text = p.info.to_text();
    assert_eq!(text, "Cpp bad.cpp (compile args: `-O2`)");
    match p.compiled(false, "error: expected ';'") {
        Err(e) => assert_eq!(e, Error::CompileError(text, "error: expected ';'".to_string())),
        Ok(_) => panic!("expected a compile error"),
    }
    let q = cpp("ok.cpp", &[]).generate("ok", "c", "").program;
    assert!(q.compiled(true, "").is_ok());
}

#[test]
fn program_texts() {
    let p = command("echo", &["-n"]).generate("e", "c", "").program;
    assert_eq!(
        p.to_text(),
        "Command echo (extra args: `-n`) (time limit: 2000ms, memory limit: 67108864 bytes)"
    );
}
