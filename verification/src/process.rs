//! The processing strategies. Each turns a batch of paths into a plan: the
//! files to copy and the frames to reduce, for the caller to carry out.

use crate::batch::{flatten, work_batch, FileEvent, PathView, SourcePath};
use crate::error::{view_result, Fault, ProcessingError};
use crate::pattern::{contains_pattern, has_pattern};
use vstd::prelude::*;

verus! {

/// The first path whose text holds the pattern.
pub open spec fn first_match(paths: Seq<PathView>, pattern: Seq<char>) -> Option<PathView>
    decreases paths.len(),
{
    if paths.len() == 0 {
        None
    } else if has_pattern(paths[0].path, pattern) {
        Some(paths[0])
    } else {
        first_match(paths.drop_first(), pattern)
    }
}

/// The outcome of looking for a pattern: the first match, or the pattern as
/// missing.
pub open spec fn find(paths: Seq<PathView>, pattern: Seq<char>) -> Result<PathView, Fault> {
    match first_match(paths, pattern) {
        Some(path) => Ok(path),
        None => Err(Fault::MissingPattern(pattern)),
    }
}

/// A match is found exactly where some path holds the pattern, and it is the
/// earliest such path.
pub proof fn lemma_first_match(paths: Seq<PathView>, pattern: Seq<char>)
    ensures
        match first_match(paths, pattern) {
            Some(path) => exists|i: int|
                0 <= i < paths.len() && #[trigger] paths[i] == path && has_pattern(
                    path.path,
                    pattern,
                ) && forall|j: int| 0 <= j < i ==> !has_pattern(#[trigger] paths[j].path, pattern),
            None => forall|j: int|
                0 <= j < paths.len() ==> !has_pattern(#[trigger] paths[j].path, pattern),
        },
    decreases paths.len(),
{
    if paths.len() == 0 {
    } else if has_pattern(paths[0].path, pattern) {
        assert(paths[0] == first_match(paths, pattern).unwrap());
    } else {
        let rest = paths.drop_first();
        lemma_first_match(rest, pattern);
        match first_match(rest, pattern) {
            Some(path) => {
                let i = choose|i: int|
                    0 <= i < rest.len() && #[trigger] rest[i] == path && has_pattern(
                        path.path,
                        pattern,
                    ) && forall|j: int|
                        0 <= j < i ==> !has_pattern(#[trigger] rest[j].path, pattern);
                assert(paths[i + 1] == path);
                assert forall|j: int| 0 <= j < i + 1 implies !has_pattern(
                    #[trigger] paths[j].path,
                    pattern,
                ) by {
                    if j > 0 {
                        assert(paths[j] == rest[j - 1]);
                    }
                }
            },
            None => {
                assert forall|j: int| 0 <= j < paths.len() implies !has_pattern(
                    #[trigger] paths[j].path,
                    pattern,
                ) by {
                    if j > 0 {
                        assert(paths[j] == rest[j - 1]);
                    }
                }
            },
        }
    }
}

/// One file to copy: from `from` to the file called `name` in the directory
/// `dir`.
#[derive(Debug, PartialEq, Eq)]
pub struct CopyJob {
    pub from: String,
    pub dir: String,
    pub name: String,
}

/// What a `CopyJob` holds.
pub ghost struct JobView {
    pub from: Seq<char>,
    pub dir: Seq<char>,
    pub name: Seq<char>,
}

impl View for CopyJob {
    type V = JobView;

    open spec fn view(&self) -> JobView {
        JobView { from: self.from@, dir: self.dir@, name: self.name@ }
    }
}

impl DeepView for CopyJob {
    type V = JobView;

    open spec fn deep_view(&self) -> JobView {
        self@
    }
}

/// The copy of a path into a directory, under the path's own file name: owed
/// unless the path has none.
pub open spec fn copy_job(dir: Seq<char>, path: PathView) -> Result<JobView, Fault> {
    match path.file_name {
        Some(name) => Ok(JobView { from: path.path, dir, name }),
        None => Err(Fault::NoFileName(path.path)),
    }
}

/// The copy of a path into a directory.
pub fn plan_copy(dir: &String, path: &SourcePath) -> (r: Result<CopyJob, ProcessingError>)
    ensures
        view_result(r) == copy_job(dir@, path@),
{
    match &path.file_name {
        Some(name) => Ok(CopyJob { from: path.path.clone(), dir: dir.clone(), name: name.clone() }),
        None => Err(ProcessingError::NoFileName(path.path.clone())),
    }
}

/// The copies of a batch, in order, up to the first one that cannot be
/// planned; that failure ends the batch and undoes nothing.
#[derive(Debug, PartialEq, Eq)]
pub struct CopyPlan {
    pub jobs: Vec<CopyJob>,
    pub failure: Option<ProcessingError>,
}

/// What a `CopyPlan` holds.
pub ghost struct PlanView {
    pub jobs: Seq<JobView>,
    pub failure: Option<Fault>,
}

impl View for CopyPlan {
    type V = PlanView;

    open spec fn view(&self) -> PlanView {
        PlanView { jobs: self.jobs.deep_view(), failure: self.failure.deep_view() }
    }
}

/// `plan` is the plan of the copy-through strategy for `paths`: one job for
/// each path before the first path without a file name, each under the
/// path's own name in `dir`; that path is the failure, and where there is
/// none the plan has no failure.
pub open spec fn is_copy_plan(dir: Seq<char>, paths: Seq<PathView>, plan: PlanView) -> bool {
    let n = plan.jobs.len() as int;
    &&& n <= paths.len()
    &&& forall|i: int| 0 <= i < n ==> copy_job(dir, #[trigger] paths[i]) == Ok::<JobView, Fault>(plan.jobs[i])
    &&& if n < paths.len() {
        plan.failure.is_some() && copy_job(dir, paths[n]) == Err::<JobView, Fault>(
            plan.failure.unwrap(),
        )
    } else {
        plan.failure.is_none()
    }
}

/// Two plans of one batch are one plan.
pub proof fn lemma_copy_plan_unique(
    dir: Seq<char>,
    paths: Seq<PathView>,
    first: PlanView,
    second: PlanView,
)
    requires
        is_copy_plan(dir, paths, first),
        is_copy_plan(dir, paths, second),
    ensures
        first == second,
{
    let n = first.jobs.len() as int;
    let m = second.jobs.len() as int;
    if n < m {
        assert(copy_job(dir, paths[n]) == Ok::<JobView, Fault>(second.jobs[n]));
    }
    if m < n {
        assert(copy_job(dir, paths[m]) == Ok::<JobView, Fault>(first.jobs[m]));
    }
    assert forall|i: int| 0 <= i < n implies first.jobs[i] == second.jobs[i] by {
        assert(copy_job(dir, paths[i]) == Ok::<JobView, Fault>(first.jobs[i]));
        assert(copy_job(dir, paths[i]) == Ok::<JobView, Fault>(second.jobs[i]));
    }
    assert(first.jobs =~= second.jobs);
}

/// The copy-through strategy: every file of the batch goes to the output
/// directory under its own name.
#[derive(Debug)]
pub struct Identity {
    pub outpath: String,
}

impl Clone for Identity {
    fn clone(&self) -> (copy: Identity)
        ensures
            copy.outpath@ == self.outpath@,
    {
        Identity { outpath: self.outpath.clone() }
    }
}

impl Identity {
    /// A copy-through strategy bound to an output directory.
    pub fn new(outpath: &str) -> (p: Identity)
        ensures
            p.outpath@ == outpath@,
    {
        Identity { outpath: outpath.to_owned() }
    }

    /// The copy of one file into the output directory.
    pub fn filecp(&self, path: &SourcePath) -> (r: Result<CopyJob, ProcessingError>)
        ensures
            view_result(r) == copy_job(self.outpath@, path@),
    {
        plan_copy(&self.outpath, path)
    }

    /// The plan for a batch.
    pub fn proc(&self, paths: &Vec<SourcePath>) -> (plan: CopyPlan)
        ensures
            is_copy_plan(self.outpath@, paths.deep_view(), plan@),
    {
        let mut jobs: Vec<CopyJob> = Vec::new();
        let mut i: usize = 0;
        while i < paths.len()
            invariant
                i <= paths.len(),
                jobs.deep_view().len() == i,
                forall|k: int|
                    0 <= k < i ==> copy_job(self.outpath@, #[trigger] paths.deep_view()[k]) == Ok::<
                        JobView,
                        Fault,
                    >(jobs.deep_view()[k]),
            decreases paths.len() - i,
        {
            match self.filecp(&paths[i]) {
                Ok(job) => {
                    let ghost before = jobs.deep_view();
                    jobs.push(job);
                    assert(jobs.deep_view() =~= before.push(job@));
                },
                Err(e) => {
                    return CopyPlan { jobs, failure: Some(e) };
                },
            }
            i += 1;
        }
        CopyPlan { jobs, failure: None }
    }
}

/// The token in the path of the frame taken with atoms.
pub open spec fn atoms_token() -> Seq<char> {
    "rawimg-0001"@
}

/// The token in the path of the second frame taken with atoms.
pub open spec fn probe_token() -> Seq<char> {
    "rawimg-0002"@
}

/// The token in the path of the reference frame.
pub open spec fn reference_token() -> Seq<char> {
    "rawimg-0003"@
}

/// The name of the file that the reduced frame is written to.
pub open spec fn result_name() -> Seq<char> {
    "20140000-img-0000.sis"@
}

/// The work of the optical-density strategy on one batch: the three raw
/// frames, each with the copy that is owed of it, and the name of the file
/// for the reduced frame, which goes to the directory of the copies.
#[derive(Debug, PartialEq, Eq)]
pub struct OdPlan {
    pub atoms: CopyJob,
    pub probe: CopyJob,
    pub reference: CopyJob,
    pub result_name: String,
}

/// What an `OdPlan` holds.
pub ghost struct OdPlanView {
    pub atoms: JobView,
    pub probe: JobView,
    pub reference: JobView,
    pub result_name: Seq<char>,
}

impl View for OdPlan {
    type V = OdPlanView;

    open spec fn view(&self) -> OdPlanView {
        OdPlanView {
            atoms: self.atoms@,
            probe: self.probe@,
            reference: self.reference@,
            result_name: self.result_name@,
        }
    }
}

/// The frame that a token selects from a batch, as the copy owed of it: the
/// first path that holds the token, which must have a file name.
pub open spec fn select(dir: Seq<char>, paths: Seq<PathView>, token: Seq<char>) -> Result<
    JobView,
    Fault,
> {
    match find(paths, token) {
        Ok(path) => copy_job(dir, path),
        Err(fault) => Err(fault),
    }
}

/// The plan of the optical-density strategy: the three frames are selected
/// in the order atoms, probe, reference, and the first selection that fails
/// is the failure of the batch.
pub open spec fn od_plan(dir: Seq<char>, paths: Seq<PathView>) -> Result<OdPlanView, Fault> {
    match select(dir, paths, atoms_token()) {
        Err(fault) => Err(fault),
        Ok(atoms) => match select(dir, paths, probe_token()) {
            Err(fault) => Err(fault),
            Ok(probe) => match select(dir, paths, reference_token()) {
                Err(fault) => Err(fault),
                Ok(reference) => Ok(
                    OdPlanView { atoms, probe, reference, result_name: result_name() },
                ),
            },
        },
    }
}

/// Looking for a token finds a path of the batch, or reports that token as
/// missing.
pub proof fn lemma_find(paths: Seq<PathView>, token: Seq<char>)
    ensures
        match find(paths, token) {
            Ok(path) => paths.contains(path) && has_pattern(path.path, token),
            Err(fault) => fault == Fault::MissingPattern(token) && forall|i: int|
                0 <= i < paths.len() ==> !has_pattern(#[trigger] paths[i].path, token),
        },
{
    lemma_first_match(paths, token);
}

/// A batch in which no path holds one of the three tokens has no plan. Where
/// every path of the batch has a file name, the failure is a missing token:
/// the first of the three, in the order atoms, probe, reference, that no
/// path holds.
pub proof fn lemma_missing_token_fails(dir: Seq<char>, paths: Seq<PathView>, token: Seq<char>)
    requires
        token == atoms_token() || token == probe_token() || token == reference_token(),
        forall|i: int| 0 <= i < paths.len() ==> !has_pattern(#[trigger] paths[i].path, token),
    ensures
        od_plan(dir, paths).is_err(),
        (forall|i: int| 0 <= i < paths.len() ==> (#[trigger] paths[i]).file_name.is_some())
            ==> od_plan(dir, paths) == Err::<OdPlanView, Fault>(
            Fault::MissingPattern(
                if find(paths, atoms_token()).is_err() {
                    atoms_token()
                } else if find(paths, probe_token()).is_err() {
                    probe_token()
                } else {
                    reference_token()
                },
            ),
        ),
{
    lemma_find(paths, atoms_token());
    lemma_find(paths, probe_token());
    lemma_find(paths, reference_token());
    lemma_find(paths, token);
}

/// A batch that holds all three tokens in paths with file names has a plan.
pub proof fn lemma_complete_batch_has_plan(dir: Seq<char>, paths: Seq<PathView>)
    requires
        forall|i: int| 0 <= i < paths.len() ==> (#[trigger] paths[i]).file_name.is_some(),
        exists|i: int| 0 <= i < paths.len() && has_pattern(#[trigger] paths[i].path, atoms_token()),
        exists|i: int| 0 <= i < paths.len() && has_pattern(#[trigger] paths[i].path, probe_token()),
        exists|i: int|
            0 <= i < paths.len() && has_pattern(#[trigger] paths[i].path, reference_token()),
    ensures
        od_plan(dir, paths).is_ok(),
{
    lemma_find(paths, atoms_token());
    lemma_find(paths, probe_token());
    lemma_find(paths, reference_token());
}

/// The optical-density strategy: three raw frames of a batch are reduced to
/// one frame, and all four files go to the output directory.
#[derive(Debug)]
pub struct FKSpecies {
    pub outpath: String,
}

impl Clone for FKSpecies {
    fn clone(&self) -> (copy: FKSpecies)
        ensures
            copy.outpath@ == self.outpath@,
    {
        FKSpecies { outpath: self.outpath.clone() }
    }
}

impl FKSpecies {
    /// An optical-density strategy bound to an output directory.
    pub fn new(outpath: &str) -> (p: FKSpecies)
        ensures
            p.outpath@ == outpath@,
    {
        FKSpecies { outpath: outpath.to_owned() }
    }

    /// The first path of the batch whose text holds the pattern.
    pub fn findpattern(paths: &Vec<SourcePath>, pattern: &str) -> (r: Result<
        SourcePath,
        ProcessingError,
    >)
        ensures
            view_result(r) == find(paths.deep_view(), pattern@),
    {
        let ghost all = paths.deep_view();
        let mut i: usize = 0;
        assert(all.skip(0) =~= all);
        while i < paths.len()
            invariant
                i <= paths.len(),
                all == paths.deep_view(),
                first_match(all, pattern@) == first_match(all.skip(i as int), pattern@),
            decreases paths.len() - i,
        {
            proof {
                assert(all.skip(i as int)[0] == paths[i as int]@);
                assert(all.skip(i as int).drop_first() =~= all.skip(i + 1));
            }
            if contains_pattern(paths[i].path.as_str(), pattern) {
                return Ok(paths[i].clone());
            }
            i += 1;
        }
        Err(ProcessingError::MissingPattern(pattern.to_owned()))
    }

    /// The frame that a token selects, as the copy owed of it.
    pub fn select_frame(&self, paths: &Vec<SourcePath>, token: &str) -> (r: Result<
        CopyJob,
        ProcessingError,
    >)
        ensures
            view_result(r) == select(self.outpath@, paths.deep_view(), token@),
    {
        match FKSpecies::findpattern(paths, token) {
            Ok(path) => plan_copy(&self.outpath, &path),
            Err(e) => Err(e),
        }
    }

    /// The plan for a batch.
    pub fn proc(&self, paths: &Vec<SourcePath>) -> (r: Result<OdPlan, ProcessingError>)
        ensures
            view_result(r) == od_plan(self.outpath@, paths.deep_view()),
    {
        let atoms = match self.select_frame(paths, "rawimg-0001") {
            Ok(job) => job,
            Err(e) => {
                return Err(e);
            },
        };
        let probe = match self.select_frame(paths, "rawimg-0002") {
            Ok(job) => job,
            Err(e) => {
                return Err(e);
            },
        };
        let reference = match self.select_frame(paths, "rawimg-0003") {
            Ok(job) => job,
            Err(e) => {
                return Err(e);
            },
        };
        Ok(OdPlan { atoms, probe, reference, result_name: "20140000-img-0000.sis".to_owned() })
    }
}

/// The strategy that a run is bound to.
#[derive(Debug)]
pub enum Processor {
    Identity(Identity),
    FKSpecies(FKSpecies),
}

/// What a `Processor` holds: which strategy it is, and the output directory
/// that it is bound to.
pub ghost enum ProcessorView {
    Identity(Seq<char>),
    FKSpecies(Seq<char>),
}

impl View for Processor {
    type V = ProcessorView;

    open spec fn view(&self) -> ProcessorView {
        match self {
            Processor::Identity(p) => ProcessorView::Identity(p.outpath@),
            Processor::FKSpecies(p) => ProcessorView::FKSpecies(p.outpath@),
        }
    }
}

/// The work that a strategy plans for one batch.
#[derive(Debug, PartialEq, Eq)]
pub enum Work {
    Copies(CopyPlan),
    OpticalDensity(OdPlan),
}

/// `outcome` is what the strategy makes of the batch `paths`. The
/// copy-through strategy always plans: what stops it comes with the plan,
/// after the copies that precede it. The optical-density strategy plans or
/// fails outright.
pub open spec fn is_outcome(
    processor: Processor,
    paths: Seq<PathView>,
    outcome: Result<Work, ProcessingError>,
) -> bool {
    match processor {
        Processor::Identity(p) => outcome matches Ok(Work::Copies(plan)) && is_copy_plan(
            p.outpath@,
            paths,
            plan@,
        ),
        Processor::FKSpecies(p) => match outcome {
            Ok(Work::OpticalDensity(plan)) => od_plan(p.outpath@, paths) == Ok::<
                OdPlanView,
                Fault,
            >(plan@),
            Ok(Work::Copies(_)) => false,
            Err(e) => od_plan(p.outpath@, paths) == Err::<OdPlanView, Fault>(e@),
        },
    }
}

impl Processor {
    /// What the bound strategy makes of a batch.
    pub fn proc(&self, paths: &Vec<SourcePath>) -> (outcome: Result<Work, ProcessingError>)
        ensures
            is_outcome(*self, paths.deep_view(), outcome),
    {
        match self {
            Processor::Identity(p) => Ok(Work::Copies(p.proc(paths))),
            Processor::FKSpecies(p) => match p.proc(paths) {
                Ok(plan) => Ok(Work::OpticalDensity(plan)),
                Err(e) => Err(e),
            },
        }
    }
}

/// What a delivery of events asks for: nothing where it names no path, else
/// what the bound strategy makes of its batch.
pub fn handle_events(processor: &Processor, events: &Vec<FileEvent>) -> (outcome: Result<
    Option<Work>,
    ProcessingError,
>)
    ensures
        work_batch(events.deep_view()).len() == 0 ==> outcome == Ok::<
            Option<Work>,
            ProcessingError,
        >(None),
        work_batch(events.deep_view()).len() > 0 ==> match outcome {
            Ok(Some(work)) => is_outcome(*processor, work_batch(events.deep_view()), Ok(work)),
            Ok(None) => false,
            Err(e) => is_outcome(*processor, work_batch(events.deep_view()), Err(e)),
        },
{
    let paths = flatten(events);
    assert(paths.deep_view().len() == paths.len());
    if paths.len() == 0 {
        Ok(None)
    } else {
        match processor.proc(&paths) {
            Ok(work) => Ok(Some(work)),
            Err(e) => Err(e),
        }
    }
}

} // verus!
