//! Declared programs, and how each is prepared for a run.

use crate::generated::program as prepared;
use crate::text::{copy_strings, texts};
use vstd::prelude::*;

verus! {

/// A program run through a command line that exists already, with fixed
/// arguments before those of each run.
#[derive(Debug, Clone)]
pub struct CommandProgram {
    pub path: String,
    pub extra_args: Vec<String>,
}

/// A C++ source file and the arguments to compile it with.
#[derive(Debug, Clone)]
pub struct CppProgram {
    pub path: String,
    pub compile_args: Vec<String>,
}

#[derive(Debug, Clone)]
pub enum ProgramInfo {
    Command(CommandProgram),
    Cpp(CppProgram),
}

/// A declared program with its limits: wall-clock time in milliseconds and
/// resident memory in bytes.
#[derive(Debug, Clone)]
pub struct Program {
    pub info: ProgramInfo,
    pub time_limit_ms: u64,
    pub memory_limit_bytes: u64,
}

/// A run of the compiler that builds an executable.
#[derive(Debug, Clone)]
pub struct CompileJob {
    pub compiler: String,
    pub args: Vec<String>,
    pub exe_path: String,
}

/// A prepared program, and the compilation that must succeed before it runs, if
/// any.
#[derive(Debug, Clone)]
pub struct Preparation {
    pub program: prepared::Program,
    pub compile: Option<CompileJob>,
}

/// The compile arguments of a C++ program that names none.
pub open spec fn default_args() -> Seq<Seq<char>> {
    seq!["-O2"@]
}

/// Where the executable of the program `name` is kept: in `cache_dir`, named
/// after the program, with the host's executable suffix.
pub open spec fn exe_path(cache_dir: Seq<char>, name: Seq<char>, exe_suffix: Seq<char>) -> Seq<char> {
    cache_dir + seq!['/'] + name + exe_suffix
}

/// The compiler's arguments that build `exe` from `source` with `args`.
pub open spec fn compile_line(exe: Seq<char>, args: Seq<Seq<char>>, source: Seq<char>) -> Seq<
    Seq<char>,
> {
    seq!["-o"@, exe] + args + seq![source]
}

/// `out` is `info` prepared with its executable at `exe`: a command is kept as it
/// is, a C++ program runs from `exe` and remembers its source.
pub open spec fn prepares(info: ProgramInfo, out: prepared::ProgramInfo, exe: Seq<char>) -> bool {
    match info {
        ProgramInfo::Command(p) => out matches prepared::ProgramInfo::Command(q) && q.path@
            == p.path@ && q.extra_args@ == p.extra_args@,
        ProgramInfo::Cpp(p) => out matches prepared::ProgramInfo::Cpp(q) && q.path@ == exe
            && q.source_path@ == p.path@ && q.compile_args@ == p.compile_args@,
    }
}

/// `job` compiles `info`, a C++ program, to `exe`.
pub open spec fn compiles(info: ProgramInfo, job: CompileJob, exe: Seq<char>) -> bool {
    &&& info is Cpp
    &&& job.compiler@ == "g++"@
    &&& job.exe_path@ == exe
    &&& texts(job.args@) == compile_line(exe, texts(info->Cpp_0.compile_args@), info->Cpp_0.path@)
}

pub fn default_compile_args() -> (r: Vec<String>)
    ensures
        texts(r@) == default_args(),
{
    let mut r: Vec<String> = Vec::new();
    r.push(String::from_str("-O2"));
    assert(texts(r@) =~= default_args());
    r
}

/// The path of the executable that `exe_path` describes.
pub fn write_exe_path(cache_dir: &str, name: &str, exe_suffix: &str) -> (r: String)
    ensures
        r@ == exe_path(cache_dir@, name@, exe_suffix@),
{
    let mut r = String::from_str(cache_dir);
    r.append("/");
    r.append(name);
    r.append(exe_suffix);
    proof {
        reveal_strlit("/");
    }
    r
}

impl ProgramInfo {
    /// This program prepared under the name `name`, and its compilation: none for
    /// a command; for a C++ program always one, to a fresh executable in
    /// `cache_dir`, so that an executable left from an earlier run is never
    /// trusted.
    pub fn generate(&self, name: &str, cache_dir: &str, exe_suffix: &str) -> (r: (
        prepared::ProgramInfo,
        Option<CompileJob>,
    ))
        ensures
            prepares(*self, r.0, exe_path(cache_dir@, name@, exe_suffix@)),
            self is Command ==> r.1 is None,
            self is Cpp ==> (r.1 matches Some(job) && compiles(
                *self,
                job,
                exe_path(cache_dir@, name@, exe_suffix@),
            )),
    {
        match self {
            ProgramInfo::Command(p) => (
                prepared::ProgramInfo::Command(
                    prepared::CommandProgram {
                        path: p.path.clone(),
                        extra_args: copy_strings(&p.extra_args),
                    },
                ),
                None,
            ),
            ProgramInfo::Cpp(p) => {
                let exe = write_exe_path(cache_dir, name, exe_suffix);
                let mut args: Vec<String> = Vec::new();
                args.push(String::from_str("-o"));
                args.push(exe.clone());
                let mut i: usize = 0;
                while i < p.compile_args.len()
                    invariant
                        i <= p.compile_args@.len(),
                        texts(args@) == seq!["-o"@, exe@] + texts(p.compile_args@).take(i as int),
                    decreases p.compile_args@.len() - i,
                {
                    let ghost before = args@;
                    args.push(p.compile_args[i].clone());
                    assert(texts(args@) =~= texts(before).push(p.compile_args@[i as int]@));
                    assert(texts(p.compile_args@).take(i + 1) =~= texts(p.compile_args@).take(
                        i as int,
                    ).push(p.compile_args@[i as int]@));
                    assert(texts(args@) =~= seq!["-o"@, exe@] + texts(p.compile_args@).take(
                        i + 1,
                    ));
                    i = i + 1;
                }
                args.push(p.path.clone());
                assert(texts(p.compile_args@).take(p.compile_args@.len() as int) =~= texts(
                    p.compile_args@,
                ));
                assert(texts(args@) =~= compile_line(exe@, texts(p.compile_args@), p.path@));
                let job = CompileJob { compiler: String::from_str("g++"), args, exe_path: exe.clone() };
                (
                    prepared::ProgramInfo::Cpp(
                        prepared::CppProgram {
                            path: exe,
                            source_path: p.path.clone(),
                            compile_args: copy_strings(&p.compile_args),
                        },
                    ),
                    Some(job),
                )
            },
        }
    }
}

impl Program {
    /// Both limits are positive.
    pub open spec fn wf(&self) -> bool {
        self.time_limit_ms > 0 && self.memory_limit_bytes > 0
    }

    /// This program prepared under the name `name`, with the same limits, and the
    /// compilation it needs, as `ProgramInfo::generate` gives them.
    pub fn generate(&self, name: &str, cache_dir: &str, exe_suffix: &str) -> (r: Preparation)
        ensures
            prepares(self.info, r.program.info, exe_path(cache_dir@, name@, exe_suffix@)),
            self.info is Command ==> r.compile is None,
            self.info is Cpp ==> (r.compile matches Some(job) && compiles(
                self.info,
                job,
                exe_path(cache_dir@, name@, exe_suffix@),
            )),
            r.program.time_limit_ms == self.time_limit_ms,
            r.program.memory_limit_bytes == self.memory_limit_bytes,
            self.wf() ==> r.program.wf(),
    {
        let (info, compile) = self.info.generate(name, cache_dir, exe_suffix);
        Preparation {
            program: prepared::Program {
                info,
                time_limit_ms: self.time_limit_ms,
                memory_limit_bytes: self.memory_limit_bytes,
            },
            compile,
        }
    }
}

} // verus!
