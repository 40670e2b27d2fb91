use vstd::prelude::*;

use crate::handler::{disposal_for, Disposal, DisposalView, FileHandler, HandlerError, Policy};

verus! {

/// Where the processing of one file stands.
#[derive(Clone, Copy, Debug, PartialEq, Eq, Structural)]
pub enum Stage {
    /// The file's contents are being read.
    Reading,
    /// The contents are being loaded into the store.
    Loading,
    /// The file's disposal has been decided; nothing more happens to it.
    Done,
}

/// What the outside work on a file reports back.
#[derive(Clone, Copy, Debug, PartialEq, Eq, Structural)]
pub enum Report {
    /// The file could not be read (missing, permission denied, I/O error).
    ReadFailed,
    /// The file was read whole.
    ReadDone,
    /// The store refused the load, or it could not be submitted.
    LoadFailed,
    /// The store accepted the load.
    LoadDone,
}

/// What to do next.
#[derive(Debug)]
pub enum Step {
    /// Read the whole file at this path.
    Read(String),
    /// Submit the contents that were read to the store.
    Load,
    /// Dispose of the file so.
    Dispose(Disposal),
    /// Disposal was due, but the rule cannot apply to this path: report it.
    Undisposable(HandlerError),
    /// The report does not fit where the file stands: nothing to do.
    Ignore,
    /// The queue of files is closed: stop.
    Exit,
}

pub enum StepView {
    Read(Seq<char>),
    Load,
    Dispose(DisposalView),
    Undisposable,
    Ignore,
    Exit,
}

impl View for Step {
    type V = StepView;

    open spec fn view(&self) -> StepView {
        match self {
            Step::Read(p) => StepView::Read(p@),
            Step::Load => StepView::Load,
            Step::Dispose(d) => StepView::Dispose(d@),
            Step::Undisposable(_) => StepView::Undisposable,
            Step::Ignore => StepView::Ignore,
            Step::Exit => StepView::Exit,
        }
    }
}

/// The disposal step that `policy` gives for `path`.
pub open spec fn disposal_step(policy: Policy, path: Seq<char>) -> StepView {
    match disposal_for(policy, path) {
        Some(d) => StepView::Dispose(d),
        None => StepView::Undisposable,
    }
}

/// One transition: from `stage`, on `report`, the next stage and step. A
/// failed read or load leads to the error rule, a load that succeeds to the
/// success rule, and a read that succeeds to the load.
pub open spec fn next(succ: Policy, err: Policy, path: Seq<char>, stage: Stage, report: Report) -> (Stage, StepView) {
    match (stage, report) {
        (Stage::Reading, Report::ReadFailed) => (Stage::Done, disposal_step(err, path)),
        (Stage::Reading, Report::ReadDone) => (Stage::Loading, StepView::Load),
        (Stage::Loading, Report::LoadFailed) => (Stage::Done, disposal_step(err, path)),
        (Stage::Loading, Report::LoadDone) => (Stage::Done, disposal_step(succ, path)),
        _ => (stage, StepView::Ignore),
    }
}

/// The steps that a file gives from `stage` on the reports `rs`, in order.
pub open spec fn run(succ: Policy, err: Policy, path: Seq<char>, stage: Stage, rs: Seq<Report>) -> Seq<StepView>
    decreases rs.len(),
{
    if rs.len() == 0 {
        Seq::empty()
    } else {
        let (s, st) = next(succ, err, path, stage, rs[0]);
        seq![st] + run(succ, err, path, s, rs.drop_first())
    }
}

/// The stage that a file reaches from `stage` on the reports `rs`.
pub open spec fn run_stage(succ: Policy, err: Policy, path: Seq<char>, stage: Stage, rs: Seq<Report>) -> Stage
    decreases rs.len(),
{
    if rs.len() == 0 {
        stage
    } else {
        run_stage(succ, err, path, next(succ, err, path, stage, rs[0]).0, rs.drop_first())
    }
}

pub open spec fn is_disposal(st: StepView) -> bool {
    st is Dispose || st is Undisposable
}

/// How many of `steps` decide a disposal.
pub open spec fn disposals(steps: Seq<StepView>) -> nat
    decreases steps.len(),
{
    if steps.len() == 0 {
        0
    } else {
        (if is_disposal(steps[0]) { 1nat } else { 0nat }) + disposals(steps.drop_first())
    }
}

/// The reports that the work on a file gives: a read, and a load only where
/// the read succeeded.
pub open spec fn reports_for(read_ok: bool, load_ok: bool) -> Seq<Report> {
    if !read_ok {
        seq![Report::ReadFailed]
    } else if load_ok {
        seq![Report::ReadDone, Report::LoadDone]
    } else {
        seq![Report::ReadDone, Report::LoadFailed]
    }
}

/// The steps that a file gives on the reports of `reports_for`: the load
/// only after a successful read, then one disposal, by the success rule where
/// read and load both succeeded and by the error rule otherwise.
pub open spec fn file_steps(succ: Policy, err: Policy, path: Seq<char>, read_ok: bool, load_ok: bool) -> Seq<StepView> {
    if !read_ok {
        seq![disposal_step(err, path)]
    } else if load_ok {
        seq![StepView::Load, disposal_step(succ, path)]
    } else {
        seq![StepView::Load, disposal_step(err, path)]
    }
}

/// The processing of one file.
#[derive(Debug)]
pub struct FileJob {
    /// The file's path.
    pub path: String,
    /// Where its processing stands.
    pub stage: Stage,
}

impl FileJob {
    /// A file to process, whose contents are to be read first.
    pub fn new(path: String) -> (r: Self)
        ensures
            r.path == path,
            r.stage == Stage::Reading,
    {
        FileJob { path, stage: Stage::Reading }
    }

    fn disposal(r: Result<Disposal, HandlerError>) -> (s: Step)
        ensures
            r matches Ok(d) ==> s@ == StepView::Dispose(d@),
            r is Err ==> s@ == StepView::Undisposable,
    {
        match r {
            Ok(d) => Step::Dispose(d),
            Err(e) => Step::Undisposable(e),
        }
    }

    /// Takes in what the outside work on the file reported, and says what to
    /// do next.
    pub fn advance(&mut self, handler: &FileHandler, report: Report) -> (r: Step)
        requires
            handler.wf(),
        ensures
            (final(self).stage, r@) == next(
                handler.success_policy(),
                handler.error_policy(),
                old(self).path@,
                old(self).stage,
                report,
            ),
            final(self).path == old(self).path,
    {
        match (self.stage, report) {
            (Stage::Reading, Report::ReadFailed) | (Stage::Loading, Report::LoadFailed) => {
                self.stage = Stage::Done;
                Self::disposal(handler.handle_error(self.path.as_str()))
            },
            (Stage::Reading, Report::ReadDone) => {
                self.stage = Stage::Loading;
                Step::Load
            },
            (Stage::Loading, Report::LoadDone) => {
                self.stage = Stage::Done;
                Self::disposal(handler.handle_success(self.path.as_str()))
            },
            _ => Step::Ignore,
        }
    }
}

proof fn lemma_at_most_one(succ: Policy, err: Policy, path: Seq<char>, stage: Stage, rs: Seq<Report>)
    ensures
        disposals(run(succ, err, path, stage, rs)) <= if stage is Done { 0nat } else { 1nat },
    decreases rs.len(),
{
    if rs.len() > 0 {
        let (s, st) = next(succ, err, path, stage, rs[0]);
        lemma_at_most_one(succ, err, path, s, rs.drop_first());
        let steps = run(succ, err, path, stage, rs);
        assert(steps.drop_first() =~= run(succ, err, path, s, rs.drop_first()));
    }
}

/// A file's disposal is decided at most once, whatever is reported about it
/// and in whatever order.
pub proof fn law_never_disposed_twice(succ: Policy, err: Policy, path: Seq<char>, rs: Seq<Report>)
    ensures
        disposals(run(succ, err, path, Stage::Reading, rs)) <= 1,
{
    lemma_at_most_one(succ, err, path, Stage::Reading, rs);
}

/// Every file that is processed has its disposal decided exactly once, after
/// its read and, where the read succeeded, its load: by the success rule
/// where both succeeded, by the error rule where either failed. The file is
/// then done, and the next one can start.
pub proof fn law_disposed_once(succ: Policy, err: Policy, path: Seq<char>, read_ok: bool, load_ok: bool)
    ensures
        run(succ, err, path, Stage::Reading, reports_for(read_ok, load_ok)) == file_steps(
            succ,
            err,
            path,
            read_ok,
            load_ok,
        ),
        disposals(run(succ, err, path, Stage::Reading, reports_for(read_ok, load_ok))) == 1,
        run_stage(succ, err, path, Stage::Reading, reports_for(read_ok, load_ok)) == Stage::Done,
{
    let rs = reports_for(read_ok, load_ok);
    let steps = run(succ, err, path, Stage::Reading, rs);
    let none = Seq::<Report>::empty();
    assert(run(succ, err, path, Stage::Done, none) == Seq::<StepView>::empty());
    assert(run_stage(succ, err, path, Stage::Done, none) == Stage::Done);
    assert(disposals(Seq::<StepView>::empty()) == 0);
    if !read_ok {
        assert(rs.drop_first() =~= none);
        assert(steps =~= seq![disposal_step(err, path)]);
        assert(steps.drop_first() =~= Seq::<StepView>::empty());
    } else {
        let rs1 = rs.drop_first();
        assert(rs1.drop_first() =~= none);
        let last = if load_ok { disposal_step(succ, path) } else { disposal_step(err, path) };
        let tail = run(succ, err, path, Stage::Loading, rs1);
        assert(tail =~= seq![last]);
        assert(run_stage(succ, err, path, Stage::Loading, rs1) == Stage::Done);
        assert(steps =~= seq![StepView::Load, last]);
        assert(steps.drop_first() =~= seq![last]);
        assert(steps.drop_first().drop_first() =~= Seq::<StepView>::empty());
        assert(disposals(steps.drop_first()) == 1);
    }
}

} // verus!
