//! Prepared programs: how each one is invoked, under which limits, and how the
//! outcome of a run is classified.

use crate::error::Error;
use crate::text::{copy_strings, decimal, decimal_digits, join_words, joined, texts};
use vstd::prelude::*;

verus! {

/// A program run through a command line that exists already.
#[derive(Debug, Clone)]
pub struct CommandProgram {
    pub path: String,
    pub extra_args: Vec<String>,
}

/// A C++ program, compiled to the executable at `path`.
#[derive(Debug, Clone)]
pub struct CppProgram {
    pub path: String,
    pub source_path: String,
    pub compile_args: Vec<String>,
}

#[derive(Debug, Clone)]
pub enum ProgramInfo {
    Command(CommandProgram),
    Cpp(CppProgram),
}

/// A prepared program with its limits: wall-clock time in milliseconds and
/// resident memory in bytes.
#[derive(Debug, Clone)]
pub struct Program {
    pub info: ProgramInfo,
    pub time_limit_ms: u64,
    pub memory_limit_bytes: u64,
}

/// One run of an executable: what to start, with which arguments, under which
/// limits.
#[derive(Debug, Clone)]
pub struct Invocation {
    pub path: String,
    pub args: Vec<String>,
    pub time_limit_ms: u64,
    pub memory_limit_bytes: u64,
}

/// How a run ended.
#[derive(Debug, Clone, Copy, PartialEq, Eq)]
pub enum RunOutcome {
    /// The process hit its time or memory limit and was stopped.
    LimitExceeded,
    /// The process exited by itself, with this exit status if it had one.
    Exited(Option<i64>),
}

pub open spec fn command_text(p: CommandProgram) -> Seq<char> {
    p.path@ + " (extra args: `"@ + joined(texts(p.extra_args@)) + "`)"@
}

pub open spec fn cpp_text(p: CppProgram) -> Seq<char> {
    p.source_path@ + " (compile args: `"@ + joined(texts(p.compile_args@)) + "`)"@
}

pub open spec fn info_text(info: ProgramInfo) -> Seq<char> {
    match info {
        ProgramInfo::Command(p) => "Command "@ + command_text(p),
        ProgramInfo::Cpp(p) => "Cpp "@ + cpp_text(p),
    }
}

pub open spec fn program_text(p: Program) -> Seq<char> {
    info_text(p.info) + " (time limit: "@ + decimal_digits(p.time_limit_ms as nat)
        + "ms, memory limit: "@ + decimal_digits(p.memory_limit_bytes as nat) + " bytes)"@
}

/// The executable that a run of `info` starts.
pub open spec fn executable(info: ProgramInfo) -> Seq<char> {
    match info {
        ProgramInfo::Command(p) => p.path@,
        ProgramInfo::Cpp(p) => p.path@,
    }
}

/// The arguments that come before those of a run: a command's fixed ones.
pub open spec fn leading_args(info: ProgramInfo) -> Seq<String> {
    match info {
        ProgramInfo::Command(p) => p.extra_args@,
        ProgramInfo::Cpp(_) => Seq::empty(),
    }
}

/// Whether a run that ended with `outcome` succeeded.
pub open spec fn succeeded(outcome: RunOutcome) -> bool {
    outcome == RunOutcome::Exited(Some(0i64))
}

impl CommandProgram {
    pub fn to_text(&self) -> (r: String)
        ensures
            r@ == command_text(*self),
    {
        let mut r = self.path.clone();
        r.append(" (extra args: `");
        let args = join_words(&self.extra_args);
        r.append(args.as_str());
        r.append("`)");
        r
    }
}

impl CppProgram {
    pub fn to_text(&self) -> (r: String)
        ensures
            r@ == cpp_text(*self),
    {
        let mut r = self.source_path.clone();
        r.append(" (compile args: `");
        let args = join_words(&self.compile_args);
        r.append(args.as_str());
        r.append("`)");
        r
    }
}

impl ProgramInfo {
    pub fn to_text(&self) -> (r: String)
        ensures
            r@ == info_text(*self),
    {
        match self {
            ProgramInfo::Command(p) => {
                let mut r = String::from_str("Command ");
                let t = p.to_text();
                r.append(t.as_str());
                r
            },
            ProgramInfo::Cpp(p) => {
                let mut r = String::from_str("Cpp ");
                let t = p.to_text();
                r.append(t.as_str());
                r
            },
        }
    }
}

impl Program {
    /// Both limits are positive.
    pub open spec fn wf(&self) -> bool {
        self.time_limit_ms > 0 && self.memory_limit_bytes > 0
    }

    pub fn to_text(&self) -> (r: String)
        ensures
            r@ == program_text(*self),
    {
        let mut r = self.info.to_text();
        r.append(" (time limit: ");
        let t = decimal(self.time_limit_ms as u128);
        r.append(t.as_str());
        r.append("ms, memory limit: ");
        let m = decimal(self.memory_limit_bytes as u128);
        r.append(m.as_str());
        r.append(" bytes)");
        r
    }

    /// The run of this program with `args` after its own fixed arguments: a
    /// command starts its path, a compiled program its executable, which was
    /// built when the program was prepared; no run compiles.
    pub fn invocation(&self, args: &Vec<String>) -> (r: Invocation)
        ensures
            r.path@ == executable(self.info),
            r.args@ == leading_args(self.info) + args@,
            r.time_limit_ms == self.time_limit_ms,
            r.memory_limit_bytes == self.memory_limit_bytes,
    {
        let (path, mut all) = match &self.info {
            ProgramInfo::Command(p) => (p.path.clone(), copy_strings(&p.extra_args)),
            ProgramInfo::Cpp(p) => (p.path.clone(), Vec::new()),
        };
        let ghost lead = all@;
        let mut i: usize = 0;
        while i < args.len()
            invariant
                i <= args@.len(),
                all@ == lead + args@.take(i as int),
            decreases args@.len() - i,
        {
            all.push(args[i].clone());
            assert(args@.take(i + 1) =~= args@.take(i as int).push(args@[i as int]));
            i = i + 1;
        }
        assert(args@.take(args@.len() as int) =~= args@);
        Invocation {
            path,
            args: all,
            time_limit_ms: self.time_limit_ms,
            memory_limit_bytes: self.memory_limit_bytes,
        }
    }

    /// The classified result of a run of this program that ended with `outcome`:
    /// success only on exit status zero; a run stopped at a limit is a time-limit
    /// failure; any other exit is a runtime error with its status, never a
    /// time-limit failure.
    pub fn classify(&self, outcome: RunOutcome) -> (r: Result<(), Error>)
        ensures
            succeeded(outcome) <==> r is Ok,
            outcome is LimitExceeded ==> (r matches Err(Error::TimeLimitExceeded(i)) && i@
                == program_text(*self)),
            (outcome is Exited && !succeeded(outcome)) ==> (r matches Err(
                Error::RuntimeError(i, d),
            ) && i@ == program_text(*self) && d == outcome->Exited_0),
    {
        match outcome {
            RunOutcome::LimitExceeded => Err(Error::TimeLimitExceeded(self.to_text())),
            RunOutcome::Exited(Some(0i64)) => Ok(()),
            RunOutcome::Exited(code) => Err(Error::RuntimeError(self.to_text(), code)),
        }
    }

    /// What a compiler run that built this program's executable gives: the
    /// program when the compiler succeeded, else a compile error with the
    /// compiler's diagnostics.
    pub fn compiled(self, compiler_succeeded: bool, diagnostics: &str) -> (r: Result<Program, Error>)
        ensures
            compiler_succeeded ==> r == Ok::<Program, Error>(self),
            !compiler_succeeded ==> (r matches Err(Error::CompileError(i, m)) && i@ == info_text(
                self.info,
            ) && m@ == diagnostics@),
    {
        if compiler_succeeded {
            Ok(self)
        } else {
            Err(Error::CompileError(self.info.to_text(), String::from_str(diagnostics)))
        }
    }
}

} // verus!
