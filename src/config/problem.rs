//! The declared problem and the decisions of a generation run over it: which
//! programs to prepare, which programs play which role, whether the task graph is
//! whole, and the stages of every case.


use crate::config::program::{compiles, exe_path, prepares, Preparation, Program};
use crate::error::Error;
use crate::text::texts;
use crate::generated::problem as generated;
use crate::generated::program as prepared;
use test::{
    dangling, first_at, keys, names_missing_generator, position, score_sum, test_misses,
    test_planned,
    unused, Roles, Step, Test,
};
use vstd::prelude::*;

verus! {

#[derive(Debug, Clone)]
pub struct Problem {
    pub name: String,
    pub programs: Vec<(String, Program)>,
    pub test: Test,
    pub solution_name: String,
    pub validator_name: Option<String>,
    pub checker_name: Option<String>,
}

/// What a run does once its programs are prepared: the roles, the generated
/// test with the stages of each case (`steps[k][i]` for case `i` of bundle `k`),
/// the bundles that no task uses, and the total score in hundredths.
#[derive(Debug, Clone)]
pub struct Plan {
    pub roles: Roles,
    pub test: generated::Test,
    pub steps: Vec<Vec<Vec<Step>>>,
    pub unused_bundles: Vec<String>,
    pub total_score: u128,
}

/// `prep` is `p` prepared under `name` with its executable at `exe`.
pub open spec fn prepared_as(p: Program, prep: Preparation, exe: Seq<char>) -> bool {
    &&& prepares(p.info, prep.program.info, exe)
    &&& p.info is Command ==> prep.compile is None
    &&& p.info is Cpp ==> (prep.compile matches Some(job) && compiles(p.info, job, exe))
    &&& prep.program.time_limit_ms == p.time_limit_ms
    &&& prep.program.memory_limit_bytes == p.memory_limit_bytes
}

/// `preps` are the programs of `p`, in order and under their names, prepared
/// with their executables in `cache_dir`.
pub open spec fn all_prepared(
    p: Problem,
    preps: Seq<(String, Preparation)>,
    cache_dir: Seq<char>,
    exe_suffix: Seq<char>,
) -> bool {
    &&& preps.len() == p.programs@.len()
    &&& forall|i: int|
        0 <= i < preps.len() ==> {
            &&& (#[trigger] preps[i]).0@ == p.programs@[i].0@
            &&& prepared_as(
                p.programs@[i].1,
                preps[i].1,
                exe_path(cache_dir, p.programs@[i].0@, exe_suffix),
            )
        }
}

/// An optional role named `name` is resolved to `at` among `names`.
pub open spec fn role_resolved(names: Seq<Seq<char>>, name: Option<String>, at: Option<usize>) -> bool {
    match name {
        Some(n) => at matches Some(i) && first_at(names, n@, i as int),
        None => at is None,
    }
}

/// An optional role is named and missing from `names`.
pub open spec fn role_missing(names: Seq<Seq<char>>, name: Option<String>) -> bool {
    name matches Some(n) && !names.contains(n@)
}

/// Every role of `p` is resolved to `roles` among `names`: each to the first
/// program of its name.
pub open spec fn roles_resolved(p: Problem, names: Seq<Seq<char>>, roles: Roles) -> bool {
    &&& first_at(names, p.solution_name@, roles.solution as int)
    &&& role_resolved(names, p.validator_name, roles.validator)
    &&& role_resolved(names, p.checker_name, roles.checker)
}

/// Some role of `p` names a program that is not among `names`.
pub open spec fn roles_missing(p: Problem, names: Seq<Seq<char>>) -> bool {
    ||| !names.contains(p.solution_name@)
    ||| role_missing(names, p.validator_name)
    ||| role_missing(names, p.checker_name)
}

/// `m` names a role of `p` whose program is missing from `names`, the first in
/// the order solution, validator, checker.
pub open spec fn names_missing_role(p: Problem, names: Seq<Seq<char>>, m: Seq<char>) -> bool {
    if !names.contains(p.solution_name@) {
        m == missing_role_text("solution"@, p.solution_name@)
    } else if role_missing(names, p.validator_name) {
        m == missing_role_text("validator"@, p.validator_name->Some_0@)
    } else {
        role_missing(names, p.checker_name) && m == missing_role_text(
            "checker"@,
            p.checker_name->Some_0@,
        )
    }
}

/// The message for a missing role.
pub open spec fn missing_role_text(role: Seq<char>, name: Seq<char>) -> Seq<char> {
    role + " `"@ + name + "` not found"@
}

/// The first position of the role named `name` among `programs`, or the error
/// that names the role and the name.
fn resolve(programs: &Vec<(String, prepared::Program)>, role: &str, name: &String) -> (r: Result<
    usize,
    Error,
>)
    ensures
        r matches Ok(i) ==> first_at(keys(programs@), name@, i as int),
        r is Err <==> !keys(programs@).contains(name@),
        r matches Err(e) ==> (e matches Error::FileNotFound(m) && m@ == missing_role_text(
            role@,
            name@,
        )),
{
    match position(programs, name.as_str()) {
        Some(i) => Ok(i),
        None => {
            let mut m = String::from_str(role);
            m.append(" `");
            m.append(name.as_str());
            m.append("` not found");
            Err(Error::FileNotFound(m))
        },
    }
}

/// An optional role resolved as `resolve` does it.
fn resolve_optional(
    programs: &Vec<(String, prepared::Program)>,
    role: &str,
    name: &Option<String>,
) -> (r: Result<Option<usize>, Error>)
    ensures
        r matches Ok(at) ==> role_resolved(keys(programs@), *name, at),
        r is Err <==> role_missing(keys(programs@), *name),
        r matches Err(e) ==> (e matches Error::FileNotFound(m) && m@ == missing_role_text(
            role@,
            name->Some_0@,
        )),
{
    match name {
        Some(n) => match resolve(programs, role, n) {
            Ok(i) => Ok(Some(i)),
            Err(e) => Err(e),
        },
        None => Ok(None),
    }
}

impl Problem {
    /// Every program prepared under its name, in order, with its executable kept
    /// in `cache_dir`: one preparation, so at most one compilation, per program.
    pub fn prepare(&self, cache_dir: &str, exe_suffix: &str) -> (r: Vec<(String, Preparation)>)
        ensures
            all_prepared(*self, r@, cache_dir@, exe_suffix@),
    {
        let mut r: Vec<(String, Preparation)> = Vec::new();
        let mut i: usize = 0;
        while i < self.programs.len()
            invariant
                i <= self.programs@.len(),
                r@.len() == i,
                forall|j: int|
                    0 <= j < i ==> {
                        &&& (#[trigger] r@[j]).0@ == self.programs@[j].0@
                        &&& prepared_as(
                            self.programs@[j].1,
                            r@[j].1,
                            exe_path(cache_dir@, self.programs@[j].0@, exe_suffix@),
                        )
                    },
            decreases self.programs@.len() - i,
        {
            let (name, program) = (&self.programs[i].0, &self.programs[i].1);
            let prep = program.generate(name.as_str(), cache_dir, exe_suffix);
            r.push((name.clone(), prep));
            i = i + 1;
        }
        r
    }

    /// The prepared programs that play the solution, validator and checker:
    /// each the first of its name; fails on the first role, in that order, whose
    /// program is missing.
    pub fn roles(&self, programs: &Vec<(String, prepared::Program)>) -> (r: Result<Roles, Error>)
        ensures
            r is Err <==> roles_missing(*self, keys(programs@)),
            r matches Ok(roles) ==> roles_resolved(*self, keys(programs@), roles),
            r matches Err(e) ==> (e matches Error::FileNotFound(m) && names_missing_role(
                *self,
                keys(programs@),
                m@,
            )),
    {
        let solution = match resolve(programs, "solution", &self.solution_name) {
            Ok(i) => i,
            Err(e) => {
                return Err(e);
            },
        };
        let validator = match resolve_optional(programs, "validator", &self.validator_name) {
            Ok(v) => v,
            Err(e) => {
                return Err(e);
            },
        };
        let checker = match resolve_optional(programs, "checker", &self.checker_name) {
            Ok(c) => c,
            Err(e) => {
                return Err(e);
            },
        };
        Ok(Roles { solution, validator, checker })
    }

    /// What the run does with the prepared `programs` and the output directory
    /// `output_dir`. It fails, before any case is generated, on a missing role;
    /// then on a task that refers to an undeclared bundle, naming the bundle;
    /// then on a case whose generator is missing. Otherwise it gives the roles,
    /// every case's files and stages, the unused bundles and the total score.
    pub fn generate(&self, programs: &Vec<(String, prepared::Program)>, output_dir: &str) -> (r:
        Result<Plan, Error>)
        ensures
            r is Ok <==> !roles_missing(*self, keys(programs@)) && !dangling(self.test)
                && !test_misses(self.test, keys(programs@)),
            roles_missing(*self, keys(programs@)) ==> (r matches Err(Error::FileNotFound(m))
                && names_missing_role(*self, keys(programs@), m@)),
            !roles_missing(*self, keys(programs@)) && dangling(self.test) ==> (r matches Err(
                Error::TestBundleNotFound(m),
            ) && exists|j: int|
                0 <= j < self.test.tasks@.len() && #[trigger] texts(
                    self.test.tasks@[j].bundles@,
                ).contains(m@) && !keys(self.test.bundles@).contains(m@)),
            !roles_missing(*self, keys(programs@)) && !dangling(self.test) && test_misses(
                self.test,
                keys(programs@),
            ) ==> (r matches Err(Error::FileNotFound(m)) && names_missing_generator(
                self.test,
                keys(programs@),
                m@,
            )),
            r matches Ok(plan) ==> {
                &&& roles_resolved(*self, keys(programs@), plan.roles)
                &&& test_planned(
                    self.test,
                    plan.test,
                    plan.steps@,
                    keys(programs@),
                    plan.roles,
                    output_dir@,
                )
                &&& texts(plan.unused_bundles@) == unused(keys(self.test.bundles@), self.test.tasks@)
                &&& plan.total_score == score_sum(self.test.tasks@)
            },
    {
        let roles = match self.roles(programs) {
            Ok(roles) => roles,
            Err(e) => {
                return Err(e);
            },
        };
        let unused_bundles = match self.test.check_integrity() {
            Ok(u) => u,
            Err(e) => {
                return Err(e);
            },
        };
        let (test, steps) = match self.test.generate(programs, roles, output_dir) {
            Ok(t) => t,
            Err(e) => {
                return Err(e);
            },
        };
        let total_score = self.test.total_score();
        Ok(Plan { roles, test, steps, unused_bundles, total_score })
    }
}

/// Two programs with different names keep their executables apart.
proof fn lemma_exe_path_apart(cache_dir: Seq<char>, a: Seq<char>, b: Seq<char>, exe_suffix: Seq<char>)
    requires
        a != b,
    ensures
        exe_path(cache_dir, a, exe_suffix) != exe_path(cache_dir, b, exe_suffix),
{
    let pa = exe_path(cache_dir, a, exe_suffix);
    let pb = exe_path(cache_dir, b, exe_suffix);
    let start: int = cache_dir.len() as int + 1;
    assert(pa.len() == cache_dir.len() + 1 + a.len() + exe_suffix.len());
    assert(pb.len() == cache_dir.len() + 1 + b.len() + exe_suffix.len());
    if pa == pb {
        assert(a.len() == b.len());
        assert(a =~= pa.subrange(start, start + a.len() as int));
        assert(b =~= pb.subrange(start, start + b.len() as int));
    }
}

/// A run compiles each program at most once: exactly the C++ programs get a
/// compilation, one each, and when the programs' names are distinct no two
/// compilations build the same executable, so none is built twice or raced
/// over. Running a prepared program never compiles (see `Program::invocation`).
pub proof fn lemma_compiles_at_most_once(
    p: Problem,
    preps: Seq<(String, Preparation)>,
    cache_dir: Seq<char>,
    exe_suffix: Seq<char>,
)
    requires
        all_prepared(p, preps, cache_dir, exe_suffix),
        keys(p.programs@).no_duplicates(),
    ensures
        forall|i: int|
            0 <= i < preps.len() ==> ((#[trigger] preps[i]).1.compile is Some
                <==> p.programs@[i].1.info is Cpp),
        forall|i: int, j: int|
            0 <= i < preps.len() && 0 <= j < preps.len() && i != j && (#[trigger] preps[i]).1.compile is Some
                && (#[trigger] preps[j]).1.compile is Some ==> preps[i].1.compile->Some_0.exe_path@
                != preps[j].1.compile->Some_0.exe_path@,
{
    assert forall|i: int, j: int|
        0 <= i < preps.len() && 0 <= j < preps.len() && i != j && (#[trigger] preps[i]).1.compile is Some
            && (#[trigger] preps[j]).1.compile is Some implies preps[i].1.compile->Some_0.exe_path@
        != preps[j].1.compile->Some_0.exe_path@ by {
        let names = keys(p.programs@);
        assert(names[i] != names[j]);
        lemma_exe_path_apart(cache_dir, names[i], names[j], exe_suffix);
    }
}

} // verus!
