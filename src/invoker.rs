//! The translating invoker, as a machine that decides each step and leaves
//! the running of executables to its driver.
//!
//! The driver starts it with [`GitWrapper::begin`], performs each step it is
//! given and reports the outcome back, until the step is `Done`.
use vstd::prelude::*;
use vstd::string::{StrSliceExecFns, StringExecFns};
use crate::text::{
    contains, contains_text, copy_strings, decode_stream, escape_braces, escaped, is_drive_path,
    is_foreign_path, join_args, joined, normalize_drive_path, normalized, stream_text, views,
};

verus! {

/// What became of running an executable.
pub enum Outcome {
    /// It ran; `code` is its exit status, where it reported one.
    Exited { code: Option<i32>, stdout: Vec<u8>, stderr: Vec<u8> },
    /// It could not be started; `error` describes why.
    NotStarted { error: String },
}

/// What the driver is to do next.
pub enum Step {
    /// Run the path helper to turn this drive-letter path into POSIX form.
    ToUnix(String),
    /// Run the version-control executable with these arguments.
    RunVcs(Vec<String>),
    /// Run the path helper to turn this POSIX path into drive-letter form.
    ToWindows(String),
    /// Finish with this exit code, standard output and standard error.
    Done(i32, String, String),
}

/// A step, and a line for the diagnostic log where a failure is to be kept.
pub struct Action {
    pub step: Step,
    pub log: Option<String>,
}

/// Where the invocation stands.
pub enum Phase {
    Ready,
    Translating,
    Delegating,
    Reversing,
    Finished,
}

pub struct GitWrapper {
    args: Vec<String>,
    translated: Vec<String>,
    helper: Ghost<Seq<Option<Seq<char>>>>,
    reverse: bool,
    phase: Phase,
    code: i32,
    stdout: String,
    stderr: String,
}

/// The command whose output is turned back into drive-letter form.
pub open spec fn trigger_phrase() -> Seq<char> {
    "rev-parse --show-toplevel"@
}

/// The joined arguments ask for the repository's top-level directory.
pub open spec fn wants_reverse(args: Seq<Seq<char>>) -> bool {
    contains(joined(args), trigger_phrase())
}

/// The output of a finished command is turned back into drive-letter form.
pub open spec fn reverses(code: int, flag: bool, out: Seq<char>) -> bool {
    code == 0 && flag && contains(out, "/"@)
}

/// What the path helper printed, or `None` where it could not be started.
pub open spec fn helper_text(o: Outcome) -> Option<Seq<char>> {
    match o {
        Outcome::Exited { stdout, .. } => Some(stream_text(stdout@)),
        Outcome::NotStarted { .. } => None,
    }
}

/// The helper's output where it printed something, else the path itself.
pub open spec fn converted_or(path: Seq<char>, out: Option<Seq<char>>) -> Seq<char> {
    match out {
        Some(t) => if t.len() > 0 {
            t
        } else {
            path
        },
        None => path,
    }
}

/// What one argument becomes: brace-escaped and, where that is a
/// drive-letter path, converted by the helper, whose answer is `out`.
pub open spec fn arg_translation(a: Seq<char>, out: Option<Seq<char>>) -> Seq<char> {
    let e = escaped(a);
    if is_foreign_path(e) {
        converted_or(e, out)
    } else {
        e
    }
}

/// The whole argument list translated, `outs[j]` being the helper's answer
/// for argument `j`.
pub open spec fn translated_args(args: Seq<Seq<char>>, outs: Seq<Option<Seq<char>>>) -> Seq<
    Seq<char>,
> {
    Seq::new(args.len(), |j: int| arg_translation(args[j], outs[j]))
}

/// The log line for a failure to start the version-control executable.
pub open spec fn vcs_failure(error: Seq<char>) -> Seq<char> {
    "Error:call_git="@ + error
}

/// The error reported when the version-control executable gave no status.
pub open spec fn no_status_failure() -> Seq<char> {
    "Error:call_git=process ended without an exit code"@
}

/// The log line for a failure to start the helper on an argument.
pub open spec fn to_unix_failure(error: Seq<char>) -> Seq<char> {
    "Error:convert_path_from_windows_to_unix="@ + error
}

/// The log line for a failure to start the helper on the output.
pub open spec fn to_windows_failure(error: Seq<char>) -> Seq<char> {
    "Error:convert_path_from_unix_to_windows="@ + error
}

/// The log line, if any, that a helper outcome calls for.
pub open spec fn helper_log(o: Outcome, line: Option<String>, to_unix: bool) -> bool {
    match o {
        Outcome::NotStarted { error } => line matches Some(l) && l@ == if to_unix {
            to_unix_failure(error@)
        } else {
            to_windows_failure(error@)
        },
        Outcome::Exited { .. } => line is None,
    }
}

impl GitWrapper {
    /// The arguments as received.
    pub closed spec fn args_view(&self) -> Seq<Seq<char>> {
        views(self.args@)
    }

    /// How many arguments have been translated.
    pub closed spec fn done_count(&self) -> nat {
        self.translated@.len()
    }

    /// The helper's answer for each argument translated so far (`None` for
    /// arguments that needed none, or where it could not be started).
    pub closed spec fn helper_outputs(&self) -> Seq<Option<Seq<char>>> {
        self.helper@
    }

    pub closed spec fn phase_view(&self) -> Phase {
        self.phase
    }

    /// Whether the output will be turned back into drive-letter form.
    pub closed spec fn reverse_view(&self) -> bool {
        self.reverse
    }

    /// The exit code and output kept while the output is converted back.
    pub closed spec fn kept(&self) -> (int, Seq<char>, Seq<char>) {
        (self.code as int, self.stdout@, self.stderr@)
    }

    /// The well-formedness of the machine.
    pub closed spec fn wf(&self) -> bool {
        &&& self.core_wf()
        &&& self.phase is Ready ==> self.translated@.len() == 0
        &&& self.phase is Translating ==> self.translated@.len() < self.args@.len()
            && is_foreign_path(escaped(self.args@[self.translated@.len() as int]@))
        &&& (self.phase is Delegating || self.phase is Reversing || self.phase is Finished)
            ==> self.translated@.len() == self.args@.len()
    }

    closed spec fn core_wf(&self) -> bool {
        &&& self.translated@.len() <= self.args@.len()
        &&& self.helper@.len() == self.translated@.len()
        &&& forall|j: int|
            0 <= j < self.translated@.len() ==> #[trigger] self.translated@[j]@ == arg_translation(
                self.args@[j]@,
                self.helper@[j],
            )
        &&& self.reverse == wants_reverse(views(self.args@))
    }

    /// A machine for one invocation with these arguments.
    pub fn new(args: Vec<String>) -> (r: GitWrapper)
        ensures
            r.wf(),
            r.args_view() == views(args@),
            r.phase_view() is Ready,
            r.done_count() == 0,
            r.reverse_view() == wants_reverse(views(args@)),
    {
        let joined_args = join_args(&args);
        let reverse = contains_text(joined_args.as_str(), "rev-parse --show-toplevel");
        GitWrapper {
            args,
            translated: Vec::new(),
            helper: Ghost(Seq::empty()),
            reverse,
            phase: Phase::Ready,
            code: 0,
            stdout: String::new(),
            stderr: String::new(),
        }
    }

    /// Translates the arguments that need no helper, up to the next one that
    /// does, and asks for that one, or else for the delegated run.
    fn advance(&mut self) -> (r: Action)
        requires
            old(self).core_wf(),
        ensures
            final(self).advanced(old(self), &r),
    {
        let n = self.args.len();
        let ghost start = self.helper@;
        while self.translated.len() < n
            invariant
                n == self.args@.len(),
                self.core_wf(),
                self.args == old(self).args,
                self.reverse == old(self).reverse,
                start == old(self).helper@,
                start.len() <= self.helper@.len(),
                self.helper@.subrange(0, start.len() as int) == start,
                forall|j: int|
                    start.len() <= j < self.helper@.len() ==> #[trigger] self.helper@[j] is None
                        && !is_foreign_path(escaped(self.args@[j]@)),
            decreases n - self.translated@.len(),
        {
            let i = self.translated.len();
            let e = escape_braces(self.args[i].as_str());
            if is_drive_path(e.as_str()) {
                self.phase = Phase::Translating;
                return Action { step: Step::ToUnix(e), log: None };
            }
            self.translated.push(e);
            self.helper = Ghost(self.helper@.push(None));
            assert(self.helper@.subrange(0, start.len() as int) =~= start);
        }
        self.phase = Phase::Delegating;
        let v = copy_strings(&self.translated);
        proof {
            assert(views(v@) =~= translated_args(views(self.args@), self.helper@));
        }
        Action { step: Step::RunVcs(v), log: None }
    }

    /// What `advance` leaves behind: the arguments that needed no helper are
    /// translated, and the step asks for the next path or for the run.
    pub open spec fn advanced(&self, before: &GitWrapper, r: &Action) -> bool {
        let outs = self.helper_outputs();
        let start = before.helper_outputs().len();
        &&& self.wf()
        &&& self.args_view() == before.args_view()
        &&& self.reverse_view() == before.reverse_view()
        &&& r.log is None
        &&& start <= outs.len()
        &&& outs.subrange(0, start as int) == before.helper_outputs()
        &&& forall|j: int|
            start <= j < outs.len() ==> #[trigger] outs[j] is None && !is_foreign_path(
                escaped(self.args_view()[j]),
            )
        &&& self.step_is(r.step)
    }

    /// The step asks for the helper on the next argument to translate, which
    /// is a drive-letter path once escaped, or for the run with all of them.
    pub open spec fn step_is(&self, step: Step) -> bool {
        match step {
            Step::ToUnix(p) => {
                &&& self.phase_view() is Translating
                &&& self.done_count() < self.args_view().len()
                &&& p@ == escaped(self.args_view()[self.done_count() as int])
                &&& is_foreign_path(p@)
            },
            Step::RunVcs(v) => {
                &&& self.phase_view() is Delegating
                &&& self.helper_outputs().len() == self.args_view().len()
                &&& views(v@) == translated_args(self.args_view(), self.helper_outputs())
            },
            _ => false,
        }
    }

    /// The first step of the invocation.
    pub fn begin(&mut self) -> (r: Action)
        requires
            old(self).wf(),
            old(self).phase_view() is Ready,
        ensures
            final(self).advanced(old(self), &r),
    {
        self.advance()
    }

    /// Takes the helper's answer for the pending drive-letter argument.
    pub fn on_unix_path(&mut self, outcome: Outcome) -> (r: Action)
        requires
            old(self).wf(),
            old(self).phase_view() is Translating,
        ensures
            final(self).done_count() > old(self).done_count(),
            final(self).helper_outputs()[old(self).done_count() as int] == helper_text(outcome),
            ({
                let mid = old(self).helper_outputs().push(helper_text(outcome));
                &&& final(self).helper_outputs().subrange(0, mid.len() as int) == mid
                &&& final(self).wf()
                &&& final(self).args_view() == old(self).args_view()
                &&& final(self).reverse_view() == old(self).reverse_view()
                &&& forall|j: int|
                    mid.len() <= j < final(self).helper_outputs().len()
                        ==> #[trigger] final(self).helper_outputs()[j] is None
                        && !is_foreign_path(escaped(final(self).args_view()[j]))
            }),
            helper_log(outcome, r.log, true),
            final(self).step_is(r.step),
    {
        let i = self.translated.len();
        let e = escape_braces(self.args[i].as_str());
        let ghost o = outcome;
        let (text, log) = helper_result(outcome, true);
        let t = match text {
            Some(t) => if t.as_str().unicode_len() > 0 {
                t
            } else {
                e
            },
            None => e,
        };
        self.translated.push(t);
        self.helper = Ghost(self.helper@.push(helper_text(o)));
        let ghost mid = self.helper@;
        let r = self.advance();
        proof {
            assert(self.helper@.subrange(0, mid.len() as int) =~= mid);
            assert(self.helper@.subrange(0, mid.len() as int)[i as int] == mid[i as int]);
        }
        Action { step: r.step, log }
    }

    /// Takes the outcome of the delegated run.
    pub fn on_vcs(&mut self, outcome: Outcome) -> (r: Action)
        requires
            old(self).wf(),
            old(self).phase_view() is Delegating,
        ensures
            final(self).wf(),
            final(self).args_view() == old(self).args_view(),
            final(self).reverse_view() == old(self).reverse_view(),
            match outcome {
                Outcome::NotStarted { error } => {
                    &&& finished_as(r.step, -1, seq![], vcs_failure(error@))
                    &&& r.log matches Some(l) && l@ == vcs_failure(error@)
                    &&& final(self).phase_view() is Finished
                },
                Outcome::Exited { code: None, .. } => {
                    &&& finished_as(r.step, -1, seq![], no_status_failure())
                    &&& r.log matches Some(l) && l@ == no_status_failure()
                    &&& final(self).phase_view() is Finished
                },
                Outcome::Exited { code: Some(c), stdout, stderr } => {
                    let o = stream_text(stdout@);
                    let e = stream_text(stderr@);
                    &&& r.log is None
                    &&& if reverses(c as int, old(self).reverse_view(), o) {
                        &&& r.step matches Step::ToWindows(p) && p@ == o
                        &&& final(self).phase_view() is Reversing
                        &&& final(self).kept() == (c as int, o, e)
                    } else {
                        &&& finished_as(r.step, c as int, o, e)
                        &&& final(self).phase_view() is Finished
                    }
                },
            },
    {
        match outcome {
            Outcome::NotStarted { error } => {
                let mut line = String::from_str("Error:call_git=");
                line.append(error.as_str());
                let message = line.clone();
                self.phase = Phase::Finished;
                Action { step: Step::Done(-1, String::new(), line), log: Some(message) }
            },
            Outcome::Exited { code: None, .. } => {
                let line = String::from_str("Error:call_git=process ended without an exit code");
                let message = line.clone();
                self.phase = Phase::Finished;
                Action { step: Step::Done(-1, String::new(), line), log: Some(message) }
            },
            Outcome::Exited { code: Some(c), stdout, stderr } => {
                let o = decode_stream(stdout);
                let e = decode_stream(stderr);
                if c == 0 && self.reverse && contains_text(o.as_str(), "/") {
                    let p = o.clone();
                    self.code = c;
                    self.stdout = o;
                    self.stderr = e;
                    self.phase = Phase::Reversing;
                    Action { step: Step::ToWindows(p), log: None }
                } else {
                    self.phase = Phase::Finished;
                    Action { step: Step::Done(c, o, e), log: None }
                }
            },
        }
    }

    /// Takes the helper's answer for the output, and finishes.
    pub fn on_windows_path(&mut self, outcome: Outcome) -> (r: Action)
        requires
            old(self).wf(),
            old(self).phase_view() is Reversing,
        ensures
            final(self).wf(),
            final(self).phase_view() is Finished,
            final(self).args_view() == old(self).args_view(),
            ({
                let (c, o, e) = old(self).kept();
                finished_as(r.step, c, normalized(converted_or(o, helper_text(outcome))), e)
            }),
            helper_log(outcome, r.log, false),
    {
        let ghost o = outcome;
        let (text, log) = helper_result(outcome, false);
        let out = match text {
            Some(t) => if t.as_str().unicode_len() > 0 {
                t
            } else {
                self.stdout.clone()
            },
            None => self.stdout.clone(),
        };
        let n = normalize_drive_path(out.as_str());
        let e = self.stderr.clone();
        self.phase = Phase::Finished;
        Action { step: Step::Done(self.code, n, e), log }
    }
}

/// The step finishes with this exit code and output.
pub open spec fn finished_as(step: Step, code: int, out: Seq<char>, err: Seq<char>) -> bool {
    step matches Step::Done(c, o, e) && c == code && o@ == out && e@ == err
}

/// Decodes a helper outcome, and forms the log line for a failed start.
fn helper_result(outcome: Outcome, to_unix: bool) -> (r: (Option<String>, Option<String>))
    ensures
        match r.0 {
            Some(t) => helper_text(outcome) == Some(t@),
            None => helper_text(outcome) is None,
        },
        helper_log(outcome, r.1, to_unix),
{
    match outcome {
        Outcome::Exited { stdout, .. } => (Some(decode_stream(stdout)), None),
        Outcome::NotStarted { error } => {
            let mut line = if to_unix {
                String::from_str("Error:convert_path_from_windows_to_unix=")
            } else {
                String::from_str("Error:convert_path_from_unix_to_windows=")
            };
            line.append(error.as_str());
            (None, Some(line))
        },
    }
}

} // verus!
