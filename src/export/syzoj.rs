//! Export to SYZOJ: subtasks numbered from one, cases numbered in order across
//! all subtasks, and a C++ checker as the special judge.

use crate::config::problem::test::{
    first_at, first_index, keys, lemma_first_at_unique, opt_text, position,
};
use crate::error::Error;
use crate::export::{Export, Exporter, FileCopy};
use crate::generated::problem::{Problem as GeneratedProblem, Test, TestBundle, TestCase, TestTask, TestTaskType};
use crate::generated::program::ProgramInfo;
use crate::text::{copy_strings, decimal, decimal_digits, texts};
use vstd::prelude::*;

verus! {

/// The languages of a special judge.
#[derive(Debug, Clone, Copy, PartialEq, Eq)]
pub enum ProgramType {
    Cpp,
}

/// A special judge: its language and its file in the export.
#[derive(Debug, Clone)]
pub struct Program {
    pub language: ProgramType,
    pub file_name: String,
}

/// How the judge combines the outcomes of a subtask's cases.
#[derive(Debug, Clone, Copy, PartialEq, Eq)]
pub enum SubtaskType {
    Sum,
    Min,
    Mul,
}

/// A subtask: its score in hundredths, its cases by name, and the subtasks it
/// depends on by number.
#[derive(Debug, Clone)]
pub struct Subtask {
    pub subtask_type: SubtaskType,
    pub score: u64,
    pub cases: Vec<String>,
    pub dependencies: Option<Vec<usize>>,
}

/// The judge's manifest of a problem.
#[derive(Debug, Clone)]
pub struct Problem {
    pub input_file: Option<String>,
    pub output_file: Option<String>,
    pub answer_file: Option<String>,
    pub subtasks: Vec<Subtask>,
    pub special_judge: Option<Program>,
}

pub struct SyzojExporter;

pub open spec fn subtask_type_of(t: TestTaskType) -> SubtaskType {
    match t {
        TestTaskType::Sum => SubtaskType::Sum,
        TestTaskType::Min => SubtaskType::Min,
    }
}

impl From<TestTaskType> for SubtaskType {
    fn from(t: TestTaskType) -> (r: SubtaskType)
        ensures
            r == subtask_type_of(t),
    {
        match t {
            TestTaskType::Sum => SubtaskType::Sum,
            TestTaskType::Min => SubtaskType::Min,
        }
    }
}

impl vstd::std_specs::convert::FromSpecImpl<TestTaskType> for SubtaskType {
    open spec fn obeys_from_spec() -> bool {
        true
    }

    open spec fn from_spec(t: TestTaskType) -> SubtaskType {
        subtask_type_of(t)
    }
}

/// The first bundle of `t` named `name`.
pub open spec fn bundle_named(t: Test, name: Seq<char>) -> TestBundle {
    t.bundles@[first_index(keys(t.bundles@), name)].1
}

/// The input and answer files of `cases`.
pub open spec fn case_files(cases: Seq<TestCase>) -> Seq<(Seq<char>, Seq<char>)> {
    cases.map_values(|c: TestCase| (c.input_path@, c.answer_path@))
}

/// The files of the cases of the bundles named `refs`, in order.
pub open spec fn refs_files(t: Test, refs: Seq<Seq<char>>) -> Seq<(Seq<char>, Seq<char>)>
    decreases refs.len(),
{
    if refs.len() == 0 {
        Seq::empty()
    } else {
        refs_files(t, refs.drop_last()) + case_files(bundle_named(t, refs.last()).cases@)
    }
}

/// The files of the cases of `tasks`, in order: the judge numbers cases so.
pub open spec fn tasks_files(t: Test, tasks: Seq<TestTask>) -> Seq<(Seq<char>, Seq<char>)>
    decreases tasks.len(),
{
    if tasks.len() == 0 {
        Seq::empty()
    } else {
        tasks_files(t, tasks.drop_last()) + refs_files(t, texts(tasks.last().bundles@))
    }
}

pub open spec fn task_names(t: Test) -> Seq<Seq<char>> {
    t.tasks@.map_values(|x: TestTask| x.name@)
}

/// Some task of `t` refers to a bundle that `t` does not declare.
pub open spec fn misses_bundle(t: Test) -> bool {
    exists|j: int, b: Seq<char>|
        0 <= j < t.tasks@.len() && #[trigger] texts(t.tasks@[j].bundles@).contains(b) && !keys(
            t.bundles@,
        ).contains(b)
}

/// Some task of `t` depends on a task that `t` does not have.
pub open spec fn misses_dependency(t: Test) -> bool {
    exists|j: int, d: Seq<char>|
        0 <= j < t.tasks@.len() && #[trigger] texts(t.tasks@[j].dependencies@).contains(d)
            && !task_names(t).contains(d)
}

/// The names `start`, `start + 1`, ... of `n` cases.
pub open spec fn numbered(start: nat, n: nat) -> Seq<Seq<char>> {
    Seq::new(n, |x: int| decimal_digits((start + x) as nat))
}

/// `s` is task `j` of `t` exported.
pub open spec fn subtask_exported(t: Test, j: int, s: Subtask) -> bool {
    let task = t.tasks@[j];
    &&& s.subtask_type == subtask_type_of(task.task_type)
    &&& s.score == task.score
    &&& texts(s.cases@) == numbered(
        tasks_files(t, t.tasks@.take(j)).len(),
        refs_files(t, texts(task.bundles@)).len(),
    )
    &&& s.dependencies matches Some(d) && d@.len() == task.dependencies@.len() && forall|x: int|
        0 <= x < d@.len() ==> #[trigger] d@[x] == first_index(
            task_names(t),
            task.dependencies@[x]@,
        ) + 1
}

/// `copies` copy the case files `files`: case `c` to `c.in` and `c.ans`.
pub open spec fn copies_exported(files: Seq<(Seq<char>, Seq<char>)>, copies: Seq<FileCopy>) -> bool {
    &&& copies.len() == 2 * files.len()
    &&& forall|c: int|
        0 <= c < files.len() ==> {
            &&& (#[trigger] copies[2 * c]).from@ == files[c].0
            &&& copies[2 * c].to@ == decimal_digits(c as nat) + ".in"@
            &&& copies[2 * c + 1].from@ == files[c].1
            &&& copies[2 * c + 1].to@ == decimal_digits(c as nat) + ".ans"@
        }
}

pub open spec fn pairs(v: Seq<(String, String)>) -> Seq<(Seq<char>, Seq<char>)> {
    v.map_values(|p: (String, String)| (p.0@, p.1@))
}

/// The files of the cases of the bundles named `refs`; fails when one is not
/// declared.
fn files_of_refs(t: &Test, refs: &Vec<String>) -> (r: Result<Vec<(String, String)>, Error>)
    ensures
        r is Err <==> exists|b: Seq<char>| #[trigger] texts(refs@).contains(b) && !keys(
            t.bundles@,
        ).contains(b),
        r matches Err(e) ==> e is ExportError,
        r matches Ok(v) ==> pairs(v@) == refs_files(*t, texts(refs@)),
{
    let mut out: Vec<(String, String)> = Vec::new();
    let mut i: usize = 0;
    while i < refs.len()
        invariant
            i <= refs@.len(),
            pairs(out@) == refs_files(*t, texts(refs@).take(i as int)),
            forall|x: int| 0 <= x < i ==> keys(t.bundles@).contains(#[trigger] texts(refs@)[x]),
        decreases refs@.len() - i,
    {
        let k = match position(&t.bundles, refs[i].as_str()) {
            Some(k) => k,
            None => {
                assert(texts(refs@).contains(refs@[i as int]@)) by {
                    assert(texts(refs@)[i as int] == refs@[i as int]@);
                }
                let mut m = String::from_str("bundle `");
                m.append(refs[i].as_str());
                m.append("` not found");
                return Err(Error::ExportError(m));
            },
        };
        proof {
            lemma_first_at_unique(keys(t.bundles@), refs@[i as int]@, k as int);
        }
        let cases = &t.bundles[k].1.cases;
        let ghost before = pairs(out@);
        let mut x: usize = 0;
        while x < cases.len()
            invariant
                x <= cases@.len(),
                *cases == bundle_named(*t, refs@[i as int]@).cases,
                pairs(out@) == before + case_files(cases@).take(x as int),
            decreases cases@.len() - x,
        {
            let ghost mid = out@;
            out.push((cases[x].input_path.clone(), cases[x].answer_path.clone()));
            assert(pairs(out@) =~= pairs(mid).push(case_files(cases@)[x as int]));
            assert(case_files(cases@).take(x + 1) =~= case_files(cases@).take(x as int).push(
                case_files(cases@)[x as int],
            ));
            x = x + 1;
        }
        proof {
            let r = texts(refs@);
            assert(r.take(i + 1).drop_last() =~= r.take(i as int));
            assert(r.take(i + 1).last() == refs@[i as int]@);
            assert(case_files(cases@).take(cases@.len() as int) =~= case_files(cases@));
        }
        i = i + 1;
    }
    proof {
        assert(texts(refs@).take(refs@.len() as int) =~= texts(refs@));
        assert forall|b: Seq<char>| #[trigger] texts(refs@).contains(b) implies keys(
            t.bundles@,
        ).contains(b) by {
            let x = choose|x: int| 0 <= x < texts(refs@).len() && texts(refs@)[x] == b;
            assert(keys(t.bundles@).contains(texts(refs@)[x]));
        }
    }
    Ok(out)
}

/// The first position of the task named `name`.
fn task_position(tasks: &Vec<TestTask>, name: &String) -> (r: Option<usize>)
    ensures
        r matches Some(i) ==> first_at(tasks@.map_values(|x: TestTask| x.name@), name@, i as int),
        r is None <==> !tasks@.map_values(|x: TestTask| x.name@).contains(name@),
{
    let ghost names = tasks@.map_values(|x: TestTask| x.name@);
    let mut i: usize = 0;
    while i < tasks.len()
        invariant
            i <= tasks@.len(),
            names == tasks@.map_values(|x: TestTask| x.name@),
            forall|j: int| 0 <= j < i ==> names[j] != name@,
        decreases tasks@.len() - i,
    {
        if tasks[i].name == *name {
            assert(names[i as int] == name@);
            return Some(i);
        }
        i = i + 1;
    }
    proof {
        if names.contains(name@) {
            let j = choose|j: int| 0 <= j < names.len() && names[j] == name@;
            assert(names[j] != name@);
        }
    }
    None
}

/// The numbers, counted from one, of the tasks named `deps`; fails when one is
/// missing.
fn dependency_ids(t: &Test, deps: &Vec<String>) -> (r: Result<Vec<usize>, Error>)
    ensures
        r is Err <==> exists|d: Seq<char>| #[trigger] texts(deps@).contains(d) && !task_names(
            *t,
        ).contains(d),
        r matches Err(e) ==> e is ExportError,
        r matches Ok(v) ==> v@.len() == deps@.len() && forall|x: int|
            0 <= x < v@.len() ==> #[trigger] v@[x] == first_index(task_names(*t), deps@[x]@) + 1,
{
    let mut out: Vec<usize> = Vec::new();
    let mut i: usize = 0;
    while i < deps.len()
        invariant
            i <= deps@.len(),
            out@.len() == i,
            forall|x: int| 0 <= x < i ==> #[trigger] out@[x] == first_index(task_names(*t), deps@[x]@) + 1,
            forall|x: int| 0 <= x < i ==> task_names(*t).contains(#[trigger] texts(deps@)[x]),
        decreases deps@.len() - i,
    {
        match task_position(&t.tasks, &deps[i]) {
            Some(k) => {
                proof {
                    lemma_first_at_unique(task_names(*t), deps@[i as int]@, k as int);
                }
                let n = t.tasks.len();
                assert(k < n);
                out.push(k + 1);
            },
            None => {
                assert(texts(deps@).contains(deps@[i as int]@)) by {
                    assert(texts(deps@)[i as int] == deps@[i as int]@);
                }
                let mut m = String::from_str("task `");
                m.append(deps[i].as_str());
                m.append("` not found");
                return Err(Error::ExportError(m));
            },
        }
        i = i + 1;
    }
    proof {
        assert forall|d: Seq<char>| #[trigger] texts(deps@).contains(d) implies task_names(
            *t,
        ).contains(d) by {
            let x = choose|x: int| 0 <= x < texts(deps@).len() && texts(deps@)[x] == d;
            assert(task_names(*t).contains(texts(deps@)[x]));
        }
    }
    Ok(out)
}

/// `name` followed by `ext`.
fn with_extension(name: &String, ext: &str) -> (r: String)
    ensures
        r@ == name@ + ext@,
{
    let mut r = name.clone();
    r.append(ext);
    r
}

/// Numbers the case files `files` from `start`: each is copied to its number
/// with `.in` and `.ans` after the copies already in `copies`; the names are
/// returned.
fn number_cases(files: &Vec<(String, String)>, start: usize, copies: &mut Vec<FileCopy>) -> (r:
    Vec<String>)
    requires
        old(copies)@.len() == 2 * start,
    ensures
        texts(r@) == numbered(start as nat, files@.len()),
        final(copies)@.len() == old(copies)@.len() + 2 * files@.len(),
        final(copies)@.take(old(copies)@.len() as int) == old(copies)@,
        forall|x: int|
            0 <= x < files@.len() ==> {
                &&& (#[trigger] final(copies)@[2 * (start + x)]).from@ == files@[x].0@
                &&& final(copies)@[2 * (start + x)].to@ == decimal_digits((start + x) as nat)
                    + ".in"@
                &&& final(copies)@[2 * (start + x) + 1].from@ == files@[x].1@
                &&& final(copies)@[2 * (start + x) + 1].to@ == decimal_digits((start + x) as nat)
                    + ".ans"@
            },
{
    let ghost first = copies@;
    let mut names: Vec<String> = Vec::new();
    let mut x: usize = 0;
    while x < files.len()
        invariant
            x <= files@.len(),
            first.len() == 2 * start,
            copies@.len() == 2 * (start + x),
            copies@.take(first.len() as int) == first,
            texts(names@) == numbered(start as nat, x as nat),
            forall|y: int|
                0 <= y < x ==> {
                    &&& (#[trigger] copies@[2 * (start + y)]).from@ == files@[y].0@
                    &&& copies@[2 * (start + y)].to@ == decimal_digits((start + y) as nat) + ".in"@
                    &&& copies@[2 * (start + y) + 1].from@ == files@[y].1@
                    &&& copies@[2 * (start + y) + 1].to@ == decimal_digits((start + y) as nat)
                        + ".ans"@
                },
        decreases files@.len() - x,
    {
        let len = copies.len();
        assert(len == 2 * (start + x));
        let name = decimal((start + x) as u128);
        let ghost before = copies@;
        copies.push(FileCopy { from: files[x].0.clone(), to: with_extension(&name, ".in") });
        copies.push(FileCopy { from: files[x].1.clone(), to: with_extension(&name, ".ans") });
        assert(copies@.take(first.len() as int) =~= before.take(first.len() as int));
        let ghost names_before = names@;
        names.push(name);
        assert(texts(names@) =~= numbered(start as nat, (x + 1) as nat)) by {
            assert(texts(names@) =~= texts(names_before).push(names@[x as int]@));
        }
        x = x + 1;
    }
    names
}

impl SyzojExporter {
    /// The special judge of an export, and its file: none without a checker; a
    /// C++ checker's source as `spj.cpp`; a command checker cannot be exported.
    fn special_judge(checker: &Option<crate::generated::program::Program>) -> (r: Result<
        Option<(Program, FileCopy)>,
        Error,
    >)
        ensures
            checker is None ==> r == Ok::<Option<(Program, FileCopy)>, Error>(None),
            (checker is Some && checker->Some_0.info is Command) <==> r is Err,
            r matches Err(e) ==> e is ExportError,
            (checker is Some && checker->Some_0.info is Cpp) ==> (r matches Ok(Some(p))
                && p.0.language == ProgramType::Cpp && p.0.file_name@ == "spj.cpp"@ && p.1.from@
                == checker->Some_0.info->Cpp_0.source_path@ && p.1.to@ == "spj.cpp"@),
    {
        match checker {
            None => Ok(None),
            Some(c) => match &c.info {
                ProgramInfo::Command(_) => Err(
                    Error::ExportError(
                        String::from_str(
                            "command program is not supported as special judge in syzoj exporter",
                        ),
                    ),
                ),
                ProgramInfo::Cpp(p) => Ok(
                    Some(
                        (
                            Program { language: ProgramType::Cpp, file_name: String::from_str("spj.cpp") },
                            FileCopy { from: p.source_path.clone(), to: String::from_str("spj.cpp") },
                        ),
                    ),
                ),
            },
        }
    }
}

/// `r` is `problem` exported: it fails when a task refers to an undeclared
/// bundle, depends on a missing task, or the checker is a command; else subtask
/// `j` is task `j`, the case files are copied under their numbers in order, and a
/// C++ checker's source is copied last as the special judge.
pub open spec fn syzoj_export(problem: GeneratedProblem, r: Result<Export<Problem>, Error>) -> bool {
    let t = problem.test;
    let files = tasks_files(t, t.tasks@);
    &&& r is Err <==> (misses_bundle(t) || misses_dependency(t) || (problem.checker is Some
        && problem.checker->Some_0.info is Command))
    &&& r matches Err(e) ==> e is ExportError
    &&& r matches Ok(ex) ==> {
        &&& opt_text(ex.manifest.input_file) == Some("#.in"@)
        &&& opt_text(ex.manifest.output_file) == Some("#.ans"@)
        &&& ex.manifest.answer_file is None
        &&& ex.manifest.subtasks@.len() == t.tasks@.len()
        &&& forall|j: int|
            0 <= j < t.tasks@.len() ==> subtask_exported(t, j, #[trigger] ex.manifest.subtasks@[j])
        &&& problem.checker is None ==> ex.manifest.special_judge is None && copies_exported(
            files,
            ex.copies@,
        )
        &&& problem.checker is Some ==> {
            &&& ex.manifest.special_judge matches Some(p) && p.language == ProgramType::Cpp
                && p.file_name@ == "spj.cpp"@
            &&& ex.copies@.len() == 2 * files.len() + 1
            &&& copies_exported(files, ex.copies@.take(2 * files.len() as int))
            &&& ex.copies@.last().from@ == problem.checker->Some_0.info->Cpp_0.source_path@
            &&& ex.copies@.last().to@ == "spj.cpp"@
        }
    }
}

impl Exporter for SyzojExporter {
    type Manifest = Problem;

    open spec fn exports(problem: GeneratedProblem, r: Result<Export<Problem>, Error>) -> bool {
        syzoj_export(problem, r)
    }

    fn export(problem: &GeneratedProblem) -> (r: Result<Export<Problem>, Error>) {
        let t = &problem.test;
        let mut copies: Vec<FileCopy> = Vec::new();
        let mut subtasks: Vec<Subtask> = Vec::new();
        let mut counter: usize = 0;
        let mut j: usize = 0;
        while j < t.tasks.len()
            invariant
                j <= t.tasks@.len(),
                *t == problem.test,
                counter == tasks_files(*t, t.tasks@.take(j as int)).len(),
                copies_exported(tasks_files(*t, t.tasks@.take(j as int)), copies@),
                subtasks@.len() == j,
                forall|i: int| 0 <= i < j ==> subtask_exported(*t, i, #[trigger] subtasks@[i]),
                forall|i: int, b: Seq<char>|
                    0 <= i < j && #[trigger] texts(t.tasks@[i].bundles@).contains(b) ==> keys(
                        t.bundles@,
                    ).contains(b),
                forall|i: int, d: Seq<char>|
                    0 <= i < j && #[trigger] texts(t.tasks@[i].dependencies@).contains(d)
                        ==> task_names(*t).contains(d),
            decreases t.tasks@.len() - j,
        {
            let task = &t.tasks[j];
            let files = match files_of_refs(t, &task.bundles) {
                Ok(f) => f,
                Err(e) => {
                    proof {
                        let b = choose|b: Seq<char>| #[trigger] texts(task.bundles@).contains(b)
                            && !keys(t.bundles@).contains(b);
                        assert(texts(t.tasks@[j as int].bundles@).contains(b));
                    }
                    assert(misses_bundle(*t));
                    return Err(e);
                },
            };
            let ids = match dependency_ids(t, &task.dependencies) {
                Ok(v) => v,
                Err(e) => {
                    proof {
                        let d = choose|d: Seq<char>| #[trigger] texts(task.dependencies@).contains(d)
                            && !task_names(*t).contains(d);
                        assert(texts(t.tasks@[j as int].dependencies@).contains(d));
                    }
                    assert(misses_dependency(*t));
                    return Err(e);
                },
            };
            let ghost before = copies@;
            let ghost done = tasks_files(*t, t.tasks@.take(j as int));
            let names = number_cases(&files, counter, &mut copies);
            let len = copies.len();
            proof {
                assert(t.tasks@.take(j + 1).drop_last() =~= t.tasks@.take(j as int));
                let next = tasks_files(*t, t.tasks@.take(j + 1));
                assert(next == done + pairs(files@));
                assert forall|c: int| 0 <= c < next.len() implies {
                    &&& (#[trigger] copies@[2 * c]).from@ == next[c].0
                    &&& copies@[2 * c].to@ == decimal_digits(c as nat) + ".in"@
                    &&& copies@[2 * c + 1].from@ == next[c].1
                    &&& copies@[2 * c + 1].to@ == decimal_digits(c as nat) + ".ans"@
                } by {
                    if c < done.len() {
                        assert(copies@[2 * c] == copies@.take(before.len() as int)[2 * c]);
                        assert(copies@[2 * c + 1] == copies@.take(before.len() as int)[2 * c + 1]);
                    } else {
                        let x = c - counter;
                        assert(copies@[2 * (counter + x)].from@ == files@[x].0@);
                    }
                }
            }
            subtasks.push(
                Subtask {
                    subtask_type: SubtaskType::from(task.task_type),
                    score: task.score,
                    cases: names,
                    dependencies: Some(ids),
                },
            );
            counter = counter + files.len();
            j = j + 1;
        }
        assert(t.tasks@.take(t.tasks@.len() as int) =~= t.tasks@);
        let special_judge = match SyzojExporter::special_judge(&problem.checker) {
            Ok(Some((judge, copy))) => {
                let ghost before = copies@;
                copies.push(copy);
                assert(copies@.take(before.len() as int) =~= before);
                Some(judge)
            },
            Ok(None) => None,
            Err(e) => {
                return Err(e);
            },
        };
        let manifest = Problem {
            input_file: Some(String::from_str("#.in")),
            output_file: Some(String::from_str("#.ans")),
            answer_file: None,
            subtasks,
            special_judge,
        };
        Ok(Export { manifest, copies })
    }
}

} // verus!
