use vstd::prelude::*;

use crate::handler::{FileHandler, Policy};
use crate::pipeline::{file_steps, law_disposed_once, next, reports_for, FileJob, Report, Stage, Step, StepView};

verus! {

/// What the processing loop is handed.
#[derive(Debug)]
pub enum Input {
    /// The queue gave this path.
    Arrived(String),
    /// The queue is closed: no more paths will come.
    Closed,
    /// The outside work on the current file reported this.
    Reported(Report),
}

pub enum InputView {
    Arrived(Seq<char>),
    Closed,
    Reported(Report),
}

impl View for Input {
    type V = InputView;

    open spec fn view(&self) -> InputView {
        match self {
            Input::Arrived(p) => InputView::Arrived(p@),
            Input::Closed => InputView::Closed,
            Input::Reported(r) => InputView::Reported(*r),
        }
    }
}

/// One transition of the loop. When idle it takes the next path from the
/// queue and has it read, or stops when the queue is closed; while a file is
/// in progress it takes the reports on that file alone, and turns idle once
/// the file's disposal is decided. Anything else changes nothing.
pub open spec fn loop_next(succ: Policy, err: Policy, cur: Option<(Seq<char>, Stage)>, input: InputView) -> (
    Option<(Seq<char>, Stage)>,
    StepView,
) {
    match cur {
        None => match input {
            InputView::Arrived(p) => (Some((p, Stage::Reading)), StepView::Read(p)),
            InputView::Closed => (None, StepView::Exit),
            InputView::Reported(_) => (None, StepView::Ignore),
        },
        Some((p, st)) => match input {
            InputView::Reported(r) => {
                let (st2, step) = next(succ, err, p, st, r);
                (if st2 == Stage::Done { None } else { Some((p, st2)) }, step)
            },
            _ => (cur, StepView::Ignore),
        },
    }
}

/// The steps that the loop gives from `cur` on the inputs `ins`, in order.
pub open spec fn loop_run(succ: Policy, err: Policy, cur: Option<(Seq<char>, Stage)>, ins: Seq<InputView>) -> Seq<StepView>
    decreases ins.len(),
{
    if ins.len() == 0 {
        Seq::empty()
    } else {
        let (c, step) = loop_next(succ, err, cur, ins[0]);
        seq![step] + loop_run(succ, err, c, ins.drop_first())
    }
}

/// Where the loop stands after the inputs `ins`, from `cur`.
pub open spec fn loop_state(succ: Policy, err: Policy, cur: Option<(Seq<char>, Stage)>, ins: Seq<InputView>) -> Option<(Seq<char>, Stage)>
    decreases ins.len(),
{
    if ins.len() == 0 {
        cur
    } else {
        loop_state(succ, err, loop_next(succ, err, cur, ins[0]).0, ins.drop_first())
    }
}

/// One file as it passes through the loop: its path, and whether its read
/// and its load succeeded.
pub struct FileCase {
    pub path: Seq<char>,
    pub read_ok: bool,
    pub load_ok: bool,
}

/// The inputs that one file gives: its arrival, then the reports on it.
pub open spec fn case_inputs(f: FileCase) -> Seq<InputView> {
    seq![InputView::Arrived(f.path)] + reports_for(f.read_ok, f.load_ok).map_values(|r: Report| InputView::Reported(r))
}

/// The inputs that files give, one file after the other, in arrival order.
pub open spec fn inputs_of(fs: Seq<FileCase>) -> Seq<InputView>
    decreases fs.len(),
{
    if fs.len() == 0 {
        Seq::empty()
    } else {
        case_inputs(fs[0]) + inputs_of(fs.drop_first())
    }
}

/// The steps for files, one file after the other: each is read, loaded where
/// the read succeeded, and disposed of, before the next is read.
pub open spec fn steps_of(succ: Policy, err: Policy, fs: Seq<FileCase>) -> Seq<StepView>
    decreases fs.len(),
{
    if fs.len() == 0 {
        Seq::empty()
    } else {
        seq![StepView::Read(fs[0].path)] + file_steps(succ, err, fs[0].path, fs[0].read_ok, fs[0].load_ok)
            + steps_of(succ, err, fs.drop_first())
    }
}

/// The single consumer of the queue of files: it processes one file at a
/// time, in the order of arrival.
pub struct ProcessingLoop {
    handler: FileHandler,
    job: Option<FileJob>,
}

impl ProcessingLoop {
    pub closed spec fn wf(&self) -> bool {
        &&& self.handler.wf()
        &&& (self.job matches Some(j) ==> j.stage != Stage::Done)
    }

    /// The rule for files that loaded.
    pub closed spec fn success_policy(&self) -> Policy {
        self.handler.success_policy()
    }

    /// The rule for files that failed.
    pub closed spec fn error_policy(&self) -> Policy {
        self.handler.error_policy()
    }

    /// The file in progress and where it stands; none when idle.
    pub closed spec fn current(&self) -> Option<(Seq<char>, Stage)> {
        match self.job {
            Some(j) => Some((j.path@, j.stage)),
            None => None,
        }
    }

    /// An idle loop that disposes of files by `handler`.
    pub fn new(handler: FileHandler) -> (r: Self)
        requires
            handler.wf(),
        ensures
            r.wf(),
            r.current() is None,
            r.success_policy() == handler.success_policy(),
            r.error_policy() == handler.error_policy(),
    {
        ProcessingLoop { handler, job: None }
    }

    /// Whether no file is in progress, so that the next path can be taken
    /// from the queue.
    pub fn is_idle(&self) -> (r: bool)
        ensures
            r == self.current() is None,
    {
        self.job.is_none()
    }

    /// Takes in one input, and says what to do next.
    pub fn step(&mut self, input: Input) -> (r: Step)
        requires
            old(self).wf(),
        ensures
            final(self).wf(),
            (final(self).current(), r@) == loop_next(
                old(self).success_policy(),
                old(self).error_policy(),
                old(self).current(),
                input@,
            ),
            final(self).success_policy() == old(self).success_policy(),
            final(self).error_policy() == old(self).error_policy(),
    {
        match input {
            Input::Arrived(p) => {
                if self.job.is_some() {
                    return Step::Ignore;
                }
                let to_read = p.clone();
                self.job = Some(FileJob::new(p));
                Step::Read(to_read)
            },
            Input::Closed => {
                if self.job.is_some() {
                    Step::Ignore
                } else {
                    Step::Exit
                }
            },
            Input::Reported(report) => {
                match self.job.take() {
                    None => Step::Ignore,
                    Some(mut job) => {
                        let step = job.advance(&self.handler, report);
                        if job.stage != Stage::Done {
                            self.job = Some(job);
                        }
                        step
                    },
                }
            },
        }
    }
}

proof fn lemma_loop_append(succ: Policy, err: Policy, cur: Option<(Seq<char>, Stage)>, a: Seq<InputView>, b: Seq<InputView>)
    ensures
        loop_run(succ, err, cur, a + b) == loop_run(succ, err, cur, a) + loop_run(succ, err, loop_state(succ, err, cur, a), b),
        loop_state(succ, err, cur, a + b) == loop_state(succ, err, loop_state(succ, err, cur, a), b),
    decreases a.len(),
{
    if a.len() == 0 {
        assert(a + b =~= b);
        assert(loop_run(succ, err, cur, a) + loop_run(succ, err, cur, b) =~= loop_run(succ, err, cur, b));
    } else {
        let c = loop_next(succ, err, cur, a[0]).0;
        lemma_loop_append(succ, err, c, a.drop_first(), b);
        assert((a + b)[0] == a[0]);
        assert((a + b).drop_first() =~= a.drop_first() + b);
        assert(loop_run(succ, err, cur, a + b) =~= loop_run(succ, err, cur, a) + loop_run(
            succ,
            err,
            loop_state(succ, err, cur, a),
            b,
        ));
    }
}

proof fn lemma_loop_cons(succ: Policy, err: Policy, cur: Option<(Seq<char>, Stage)>, i: InputView, rest: Seq<InputView>)
    ensures
        loop_run(succ, err, cur, seq![i] + rest) == seq![loop_next(succ, err, cur, i).1] + loop_run(
            succ,
            err,
            loop_next(succ, err, cur, i).0,
            rest,
        ),
        loop_state(succ, err, cur, seq![i] + rest) == loop_state(succ, err, loop_next(succ, err, cur, i).0, rest),
{
    assert((seq![i] + rest)[0] == i);
    assert((seq![i] + rest).drop_first() =~= rest);
}

proof fn lemma_one_file(succ: Policy, err: Policy, f: FileCase)
    ensures
        loop_run(succ, err, None, case_inputs(f)) == seq![StepView::Read(f.path)] + file_steps(
            succ,
            err,
            f.path,
            f.read_ok,
            f.load_ok,
        ),
        loop_state(succ, err, None, case_inputs(f)) is None,
{
    let p = f.path;
    let none = Seq::<InputView>::empty();
    let ins = case_inputs(f);
    let rs = reports_for(f.read_ok, f.load_ok);
    let mapped = rs.map_values(|r: Report| InputView::Reported(r));
    assert(loop_run(succ, err, None, none) == Seq::<StepView>::empty());
    assert(loop_state(succ, err, None, none) == None::<(Seq<char>, Stage)>);
    law_disposed_once(succ, err, p, f.read_ok, f.load_ok);
    if !f.read_ok {
        let d = InputView::Reported(Report::ReadFailed);
        assert(mapped =~= seq![d]);
        assert(ins =~= seq![InputView::Arrived(p)] + (seq![d] + none));
        lemma_loop_cons(succ, err, Some((p, Stage::Reading)), d, none);
        lemma_loop_cons(succ, err, None, InputView::Arrived(p), seq![d] + none);
        assert(loop_run(succ, err, None, ins) =~= seq![StepView::Read(p)] + file_steps(succ, err, p, f.read_ok, f.load_ok));
    } else {
        let r1 = InputView::Reported(Report::ReadDone);
        let r2 = InputView::Reported(if f.load_ok { Report::LoadDone } else { Report::LoadFailed });
        assert(mapped =~= seq![r1, r2]);
        assert(ins =~= seq![InputView::Arrived(p)] + (seq![r1] + (seq![r2] + none)));
        lemma_loop_cons(succ, err, Some((p, Stage::Loading)), r2, none);
        lemma_loop_cons(succ, err, Some((p, Stage::Reading)), r1, seq![r2] + none);
        lemma_loop_cons(succ, err, None, InputView::Arrived(p), seq![r1] + (seq![r2] + none));
        assert(loop_run(succ, err, None, ins) =~= seq![StepView::Read(p)] + file_steps(succ, err, p, f.read_ok, f.load_ok));
    }
}

/// Files are processed strictly one after the other, in the order in which
/// they arrive: each file is read, loaded where its read succeeded, and
/// disposed of exactly once, before the next file is read; and after the last
/// one the loop is idle again.
pub proof fn law_files_in_arrival_order(succ: Policy, err: Policy, fs: Seq<FileCase>)
    ensures
        loop_run(succ, err, None, inputs_of(fs)) == steps_of(succ, err, fs),
        loop_state(succ, err, None, inputs_of(fs)) is None,
    decreases fs.len(),
{
    if fs.len() == 0 {
        assert(loop_run(succ, err, None, inputs_of(fs)) =~= steps_of(succ, err, fs));
    } else {
        let f = fs[0];
        law_files_in_arrival_order(succ, err, fs.drop_first());
        lemma_one_file(succ, err, f);
        lemma_loop_append(succ, err, None, case_inputs(f), inputs_of(fs.drop_first()));
        assert(loop_run(succ, err, None, inputs_of(fs)) =~= steps_of(succ, err, fs));
    }
}

} // verus!
