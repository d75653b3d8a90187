use vstd::prelude::*;
use crate::naming::{
    spec_derive_name, spec_is_png, spec_double_marked, derive_name, is_png, double_marked,
};

verus! {

/// One requested unit of work: a source path, an optional explicit output
/// base, the naming pattern, and the target square size when resizing is
/// wanted. Paths are byte strings.
pub struct Job {
    pub source: Vec<u8>,
    pub output_override: Option<Vec<u8>>,
    pub pattern: Vec<u8>,
    pub resize_to: Option<u32>,
}

/// What the pipeline decides to do for one job.
#[derive(PartialEq, Eq, Structural, Debug, Clone, Copy)]
pub enum Action {
    /// The output path carries the double-pattern marker: the job is a
    /// previously generated output and is left alone.
    SkipAlreadyProcessed,
    /// The output path already exists on disk: outputs are written at most
    /// once and never overwritten.
    SkipOutputExists,
    /// Square-pad and resize the source to `size` by `size`, then submit the
    /// resulting buffer to the remote compressor.
    TransformThenCompress { size: u32 },
    /// Submit the source file to the remote compressor unchanged.
    CompressOriginal,
}

/// The base the output name is derived from: the explicit override when one
/// is given, the source path otherwise.
pub open spec fn spec_output_base(job: Job) -> Seq<u8> {
    match job.output_override {
        Some(o) => o@,
        None => job.source@,
    }
}

/// The job's output path: the base with the pattern inserted before each
/// `.png` or `.jpg` extension.
pub open spec fn spec_output_path(job: Job) -> Seq<u8> {
    spec_derive_name(spec_output_base(job), job.pattern@)
}

/// Computes the job's output path.
pub fn output_path(job: &Job) -> (r: Vec<u8>)
    ensures
        r@ == spec_output_path(*job),
{
    match &job.output_override {
        Some(o) => derive_name(o, &job.pattern),
        None => derive_name(&job.source, &job.pattern),
    }
}

/// The pipeline's decision for a job whose output path does or does not
/// already exist: the double-pattern marker is checked first, then
/// existence; only a PNG output with a requested size is transformed.
pub open spec fn spec_plan(job: Job, output_exists: bool) -> Action {
    let out = spec_output_path(job);
    if spec_double_marked(out, job.pattern@) {
        Action::SkipAlreadyProcessed
    } else if output_exists {
        Action::SkipOutputExists
    } else if spec_is_png(out) && job.resize_to is Some {
        Action::TransformThenCompress { size: job.resize_to->0 }
    } else {
        Action::CompressOriginal
    }
}

/// Decides what to do for `job`, given whether its output path already
/// exists on disk.
pub fn plan(job: &Job, output_exists: bool) -> (a: Action)
    ensures
        a == spec_plan(*job, output_exists),
{
    let out = output_path(job);
    if double_marked(&out, &job.pattern) {
        Action::SkipAlreadyProcessed
    } else if output_exists {
        Action::SkipOutputExists
    } else {
        let png = is_png(&out);
        match job.resize_to {
            Some(size) => if png {
                Action::TransformThenCompress { size }
            } else {
                Action::CompressOriginal
            },
            None => Action::CompressOriginal,
        }
    }
}

/// The size handed to every job of a run: none in tinify-only mode, the
/// configured size otherwise.
pub fn resolve_size(tinify_only: bool, size: u32) -> (r: Option<u32>)
    ensures
        r == (if tinify_only {
            None::<u32>
        } else {
            Some(size)
        }),
{
    if tinify_only {
        None
    } else {
        Some(size)
    }
}

/// What batch mode does before any job runs.
#[derive(PartialEq, Eq, Structural, Debug, Clone, Copy)]
pub enum BatchAction {
    /// The input folder is missing: create it empty and run zero jobs.
    CreateInputFolderAndStop,
    /// The input folder is there: run the pipeline once per entry.
    ProcessEntries,
}

/// Decides how batch mode starts: a missing input folder is created empty
/// and the batch ends with zero jobs run.
pub fn plan_batch(input_folder_exists: bool) -> (a: BatchAction)
    ensures
        a == (if input_folder_exists {
            BatchAction::ProcessEntries
        } else {
            BatchAction::CreateInputFolderAndStop
        }),
{
    if input_folder_exists {
        BatchAction::ProcessEntries
    } else {
        BatchAction::CreateInputFolderAndStop
    }
}

/// An action that writes nothing and touches nothing.
pub open spec fn is_skip(a: Action) -> bool {
    a == Action::SkipAlreadyProcessed || a == Action::SkipOutputExists
}

/// When a job's output path already exists, the pipeline decides a skip:
/// the run is a no-op for that job and reports success.
pub proof fn lemma_existing_output_skips(job: Job)
    ensures
        is_skip(spec_plan(job, true)),
{
}

/// When a job's output path carries the double-pattern marker, the pipeline
/// decides the marker skip whatever is on disk: the remote compressor is
/// never invoked for such a job.
pub proof fn lemma_double_marked_never_compresses(job: Job, output_exists: bool)
    requires
        spec_double_marked(spec_output_path(job), job.pattern@),
    ensures
        spec_plan(job, output_exists) == Action::SkipAlreadyProcessed,
{
}

/// In tinify-only mode no size is handed to any job, and a job without a
/// size is never transformed: the source goes to the remote compressor
/// unchanged.
pub proof fn lemma_no_size_never_transforms(job: Job, output_exists: bool)
    requires
        job.resize_to is None,
    ensures
        !(spec_plan(job, output_exists) is TransformThenCompress),
{
}

/// The output path a run writes for `job`, given the set of paths that
/// already exist when the job runs: none when the job is skipped.
pub open spec fn spec_job_write(job: Job, existing: Set<Seq<u8>>) -> Option<Seq<u8>> {
    let out = spec_output_path(job);
    if is_skip(spec_plan(job, existing.contains(out))) {
        None
    } else {
        Some(out)
    }
}

/// The set of output paths one sequential run over `jobs` writes, starting
/// from the paths in `existing`; each write becomes visible to the jobs
/// after it.
pub open spec fn spec_run_writes(jobs: Seq<Job>, existing: Set<Seq<u8>>) -> Set<Seq<u8>>
    decreases jobs.len(),
{
    if jobs.len() == 0 {
        Set::empty()
    } else {
        match spec_job_write(jobs[0], existing) {
            None => spec_run_writes(jobs.skip(1), existing),
            Some(p) => spec_run_writes(jobs.skip(1), existing.insert(p)).insert(p),
        }
    }
}

/// A job that writes nothing against `e1` also writes nothing against any
/// larger set of existing paths.
proof fn lemma_skip_monotone(job: Job, e1: Set<Seq<u8>>, e2: Set<Seq<u8>>)
    requires
        spec_job_write(job, e1) is None,
        e1.subset_of(e2),
    ensures
        spec_job_write(job, e2) is None,
{
    let out = spec_output_path(job);
    if !spec_double_marked(out, job.pattern@) {
        assert(e1.contains(out));
        assert(e2.contains(out));
    }
}

/// Idempotence of the batch: a second sequential run over the same jobs,
/// started after the first has written its outputs, writes nothing, so the
/// output folder's contents are those the first run left behind.
pub proof fn lemma_second_run_writes_nothing(jobs: Seq<Job>, existing: Set<Seq<u8>>)
    ensures
        spec_run_writes(jobs, existing.union(spec_run_writes(jobs, existing)))
            == Set::<Seq<u8>>::empty(),
    decreases jobs.len(),
{
    let w = spec_run_writes(jobs, existing);
    let e2 = existing.union(w);
    if jobs.len() == 0 {
        assert(spec_run_writes(jobs, e2) =~= Set::<Seq<u8>>::empty());
    } else {
        let job = jobs[0];
        let rest = jobs.skip(1);
        let out = spec_output_path(job);
        match spec_job_write(job, existing) {
            None => {
                assert(w == spec_run_writes(rest, existing));
                lemma_skip_monotone(job, existing, e2);
                assert(spec_run_writes(jobs, e2) == spec_run_writes(rest, e2));
                lemma_second_run_writes_nothing(rest, existing);
                assert(spec_run_writes(rest, existing.union(spec_run_writes(rest, existing)))
                    == Set::<Seq<u8>>::empty());
                assert(e2 =~= existing.union(spec_run_writes(rest, existing)));
            },
            Some(p) => {
                assert(p == out);
                let e1 = existing.insert(p);
                assert(w == spec_run_writes(rest, e1).insert(p));
                assert(e2.contains(out));
                assert(spec_job_write(job, e2) is None);
                assert(spec_run_writes(jobs, e2) == spec_run_writes(rest, e2));
                lemma_second_run_writes_nothing(rest, e1);
                assert(spec_run_writes(rest, e1.union(spec_run_writes(rest, e1)))
                    == Set::<Seq<u8>>::empty());
                assert(e2 =~= e1.union(spec_run_writes(rest, e1)));
            },
        }
    }
}

} // verus!

