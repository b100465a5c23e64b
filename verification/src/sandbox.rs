//! The script sandbox: a job's script runs in an embedded interpreter
//! that reaches the outside world only through a fixed set of
//! pre-bound capability objects.  The interpreter itself and the
//! capability registrations live at the process edge; this module
//! verifies every decision around them: which constants a job's scope
//! receives, how the script is selected, how the `cargo` statement's
//! arguments are split, and what a failure reveals.

use vstd::prelude::*;
use crate::job::CheckedoutJob;
use crate::job::Error;

verus! {

#[verifier::external_type_specification]
#[verifier::external_body]
pub struct ExRhaiEngine(rhai::Engine);

#[verifier::external_type_specification]
#[verifier::external_body]
pub struct ExRhaiScope<'a>(rhai::Scope<'a>);

#[verifier::external_type_specification]
#[verifier::external_body]
pub struct ExRhaiAst(rhai::AST);

/// Relies on rhai::Engine::compile_file: reads and parses the script
/// at `path`.  On failure only the error's rendering is handed back,
/// never the error value, so the internal script location stays out
/// of what callers can surface.
#[verifier::external_body]
fn engine_compile_file(engine: &rhai::Engine, path: &str) -> Result<rhai::AST, String> {
    match engine.compile_file(std::path::PathBuf::from(path)) {
        Ok(ast) => Ok(ast),
        Err(e) => Err(format!("{e}")),
    }
}

/// Relies on rhai::Engine::run_ast_with_scope: runs the compiled
/// script synchronously to completion with the prepared scope.
#[verifier::external_body]
fn engine_run_ast(engine: &rhai::Engine, scope: &mut rhai::Scope<'static>, ast: &rhai::AST) -> Result<
    (),
    String,
> {
    match engine.run_ast_with_scope(scope, ast) {
        Ok(()) => Ok(()),
        Err(e) => Err(format!("{e}")),
    }
}

/// What `shell_words::split` makes of a command line: `None` exactly
/// when the line is malformed.  The split depends on the characters
/// alone.
pub uninterp spec fn shell_split(s: Seq<char>) -> Option<Seq<Seq<char>>>;

/// Relies on shell_words::split: splits a line into words by POSIX
/// shell rules; the result is a function of the characters alone.
#[verifier::external_body]
fn shell_words_split(s: &str) -> (r: Option<Vec<String>>)
    ensures
        r is Some <==> shell_split(s@) is Some,
        r matches Some(v) ==> Some(v.deep_view()) == shell_split(s@),
{
    match shell_words::split(s) {
        Ok(v) => Some(v),
        Err(_) => None,
    }
}

/// Splits the `cargo` statement's argument line into tokens; a
/// malformed line fails with `CargoCmdParse`, exactly when shell
/// splitting fails.
pub fn split_cargo_args(line: &str) -> (r: Result<Vec<String>, Error>)
    ensures
        r matches Ok(v) ==> shell_split(line@) == Some(v.deep_view()),
        r is Err <==> shell_split(line@) is None,
        r matches Err(e) ==> e is CargoCmdParse,
{
    match shell_words_split(line) {
        Some(v) => Ok(v),
        None => Err(Error::CargoCmdParse),
    }
}

/// The constants a job's scope is handed — its whole capability
/// surface beyond the registered types.
#[derive(Clone, Copy, Debug, PartialEq, Eq)]
pub enum Binding {
    /// `ISSUE`: posts comments to the triggering issue.
    Issue,
    /// `REPO`: the working copy's file, status and git operations.
    Repo,
    /// `Git`: clones further repositories under the job's root.
    Git,
}

impl CheckedoutJob {
    /// The constants bound into this job's scope, in binding order:
    /// `ISSUE` only when the job came from an issue, then `REPO` and
    /// `Git` — and nothing else.
    pub fn scope_bindings(&self) -> (bs: Vec<Binding>)
        ensures
            self.gh_issue is Some ==> bs@ == seq![Binding::Issue, Binding::Repo, Binding::Git],
            self.gh_issue is None ==> bs@ == seq![Binding::Repo, Binding::Git],
    {
        let mut bs: Vec<Binding> = Vec::new();
        if self.gh_issue.is_some() {
            bs.push(Binding::Issue);
        }
        bs.push(Binding::Repo);
        bs.push(Binding::Git);
        proof {
            if self.gh_issue is Some {
                assert(bs@ =~= seq![Binding::Issue, Binding::Repo, Binding::Git]);
            } else {
                assert(bs@ =~= seq![Binding::Repo, Binding::Git]);
            }
        }
        bs
    }

    /// Turns a checked-out job into a runnable one: the script is the
    /// job's first command token, and the interpreter and scope are
    /// the prepared sandbox.  A job with no command tokens has no
    /// script and is refused.
    pub fn prepare_script(self, engine: rhai::Engine, scope: rhai::Scope<'static>) -> (r: Result<
        RunnableJob,
        Error,
    >)
        ensures
            self.command@.len() == 0 ==> (r matches Err(e) && e is NoCmd),
            self.command@.len() > 0 ==> (r matches Ok(rj) && rj.dir@ == self.dir@
                && rj.script_path@ == self.command@[0]@),
    {
        if self.command.len() == 0 {
            return Err(Error::NoCmd);
        }
        let script_path = self.command[0].clone();
        Ok(RunnableJob { dir: self.dir, script_path, engine, scope })
    }
}

/// A job ready to execute: the script path, the sandboxed interpreter
/// and its pre-bound scope.  Consumed exactly once by running it.
pub struct RunnableJob {
    pub dir: String,
    pub script_path: String,
    pub engine: rhai::Engine,
    pub scope: rhai::Scope<'static>,
}

impl RunnableJob {
    /// Compiles and runs the job's script to completion.  Any parse
    /// or runtime failure surfaces as a single `ScriptExecution`
    /// error carrying the interpreter's rendering of it.
    pub fn run(self) -> (r: Result<(), Error>)
        ensures
            r matches Err(e) ==> e is ScriptExecution,
    {
        let mut scope = self.scope;
        let ast = match engine_compile_file(&self.engine, self.script_path.as_str()) {
            Ok(ast) => ast,
            Err(message) => {
                return Err(Error::ScriptExecution { message });
            },
        };
        match engine_run_ast(&self.engine, &mut scope, &ast) {
            Ok(()) => Ok(()),
            Err(message) => Err(Error::ScriptExecution { message }),
        }
    }
}

} // verus!
