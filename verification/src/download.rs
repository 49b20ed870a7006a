//! Downloading a model file into the models folder: file names, the steps
//! of one download and the throttling of progress reports.
use vstd::prelude::*;
use vstd::string::StringExecFns;

use crate::clock::unix_timestamp_now;
use crate::domain::{InstalledModel, ModelState};
use crate::error::AppError;
use crate::events::{
    make_toast, toast_is, DownloadDoneEvent, DownloadProgressReport, ToastEvent, UiEvent,
};
use crate::text::{concat3, copy_string, replace_slash_with_dashes, replace_slashes};

verus! {

/// The folder name for a repository: `/` becomes `--`.
pub fn sanitize_repo_dir(repo_id: &str) -> (r: String)
    ensures
        r@ == replace_slashes(repo_id@),
{
    replace_slash_with_dashes(repo_id)
}

/// The key of a model file: `"{repo_id}::{filename}"`.
pub open spec fn model_key_view(repo_id: Seq<char>, filename: Seq<char>) -> Seq<char> {
    repo_id + "::"@ + filename
}

/// The key of a model file: `"{repo_id}::{filename}"`.
pub fn model_key(repo_id: &str, filename: &str) -> (r: String)
    ensures
        r@ == model_key_view(repo_id@, filename@),
{
    concat3(repo_id, "::", filename)
}

/// The name the file has while it downloads: `".{filename}.part"`.
pub open spec fn temp_name_view(filename: Seq<char>) -> Seq<char> {
    "."@ + filename + ".part"@
}

/// The name the file has while it downloads: `".{filename}.part"`.
pub fn temp_file_name(filename: &str) -> (r: String)
    ensures
        r@ == temp_name_view(filename@),
{
    concat3(".", filename, ".part")
}

/// The notice shown when a download ends in an error with this message, or
/// in a cancellation.
pub open spec fn failure_toast_for(
    t: ToastEvent,
    cancelled: bool,
    message: Seq<char>,
    repo_id: Seq<char>,
    filename: Seq<char>,
) -> bool {
    if cancelled {
        toast_is(
            t,
            "Download cancelled"@,
            "The download was cancelled."@,
            Some(repo_id + " / "@ + filename),
            Some("You can restart the download any time."@),
            "info"@,
        )
    } else {
        toast_is(
            t,
            "Download failed"@,
            "Unable to download the model."@,
            Some(message),
            Some(
                "Check your internet connection and (if needed) your Hugging Face token in Settings."@,
            ),
            "error"@,
        )
    }
}

/// The notice shown when a download ends in `err`.
pub open spec fn failure_toast(t: ToastEvent, err: AppError, repo_id: Seq<char>, filename: Seq<char>) -> bool {
    failure_toast_for(t, err is Cancelled, err.message_view(), repo_id, filename)
}

/// The notice for a download of `filename` from `repo_id` that ended in `err`.
pub fn download_failure_toast(err: &AppError, repo_id: &str, filename: &str) -> (t: ToastEvent)
    ensures
        failure_toast(t, *err, repo_id@, filename@),
{
    match err {
        AppError::Cancelled => make_toast(
            "Download cancelled",
            String::from_str("The download was cancelled."),
            Some(concat3(repo_id, " / ", filename)),
            Some("You can restart the download any time."),
            "info",
        ),
        _ => make_toast(
            "Download failed",
            String::from_str("Unable to download the model."),
            Some(err.message()),
            Some(
                "Check your internet connection and (if needed) your Hugging Face token in Settings.",
            ),
            "error",
        ),
    }
}

/// The notice shown once a model is installed.
pub open spec fn installed_toast(t: ToastEvent, m: InstalledModel) -> bool {
    toast_is(
        t,
        "Model installed"@,
        "The model is ready to use."@,
        Some(m.repo_id@ + " ("@ + m.filename@ + ")"@),
        Some("Select it as your Active Model and try a prompt."@),
        "info"@,
    )
}

/// Where a download stands.
#[derive(Debug, Clone, Copy, PartialEq, Eq, Structural)]
pub enum DownloadPhase {
    /// Waiting for the repository folder to exist.
    PreparingDir,
    /// The file is being fetched into its temporary name.
    Fetching,
    /// The temporary file is being moved to its final name.
    Finalizing,
    /// The model is being written to the registry.
    Registering,
    /// The "download done" event is being sent.
    Announcing,
    /// The download is over; nothing more happens.
    Finished,
}

/// Something the caller performs on behalf of a download. File names are
/// relative to the repository folder, which is in turn relative to the
/// models folder.
#[derive(Debug)]
pub enum DownloadAction {
    /// Create the repository folder (and its parents).
    CreateDir { dir_name: String },
    /// Delete a leftover temporary file if there is one; errors do not matter.
    RemoveStaleTemp { file_name: String },
    /// Start forwarding progress reports to the user interface.
    StartReporter,
    /// Fetch the file into this temporary name, reporting progress.
    Fetch { file_name: String },
    /// Delete the temporary file; errors do not matter.
    RemoveTemp { file_name: String },
    /// Delete the final file if there is one, then rename the temporary file
    /// to it, and report the final file's path.
    ReplaceFinal { temp_name: String, final_name: String },
    /// Write this model to the registry.
    Register(InstalledModel),
    /// Stop forwarding progress reports, after sending the last one.
    StopReporter,
    /// Send this event and report whether sending worked.
    Announce(DownloadDoneEvent),
    /// Send this event; whether sending worked does not matter.
    Emit(UiEvent),
    /// Drop the job with this identifier from the job table.
    RemoveJob(String),
}

/// The state of one download.
#[derive(Debug)]
pub struct DownloadFlow {
    pub job_id: String,
    pub repo_id: String,
    pub filename: String,
    pub written: u64,
    pub installed: Option<InstalledModel>,
    pub phase: DownloadPhase,
}

/// `acts[from..]` ends the download `f` in `err`: the reporter is stopped if
/// it runs, the user is told and the job is dropped.
pub open spec fn fails_with(acts: Seq<DownloadAction>, from: int, f: DownloadFlow, err: AppError, reporter_runs: bool) -> bool {
    fails_with_message(acts, from, f, err is Cancelled, err.message_view(), reporter_runs)
}

/// `acts[from..]` ends the download `f` in a cancellation or in an error
/// with this message: the reporter is stopped if it runs, the user is told
/// and the job is dropped.
pub open spec fn fails_with_message(
    acts: Seq<DownloadAction>,
    from: int,
    f: DownloadFlow,
    cancelled: bool,
    message: Seq<char>,
    reporter_runs: bool,
) -> bool {
    let k = if reporter_runs { from + 1 } else { from };
    &&& reporter_runs ==> acts[from] is StopReporter
    &&& acts.len() == k + 2
    &&& acts[k] matches DownloadAction::Emit(UiEvent::ToastError(t)) && failure_toast_for(
        t,
        cancelled,
        message,
        f.repo_id@,
        f.filename@,
    )
    &&& acts[k + 1] matches DownloadAction::RemoveJob(j) && j@ == f.job_id@
}

/// `f` and `g` are the same download.
pub open spec fn same_download(f: DownloadFlow, g: DownloadFlow) -> bool {
    f.job_id == g.job_id && f.repo_id == g.repo_id && f.filename == g.filename
}

/// The job table after `act`, given as the set of job identifiers.
pub open spec fn jobs_after_download_action(jobs: Set<Seq<char>>, act: DownloadAction) -> Set<
    Seq<char>,
> {
    match act {
        DownloadAction::RemoveJob(j) => jobs.remove(j@),
        _ => jobs,
    }
}

/// The job table after `acts` in order.
pub open spec fn jobs_after_download(jobs: Set<Seq<char>>, acts: Seq<DownloadAction>) -> Set<
    Seq<char>,
>
    decreases acts.len(),
{
    if acts.len() == 0 {
        jobs
    } else {
        jobs_after_download(jobs_after_download_action(jobs, acts[0]), acts.drop_first())
    }
}

/// One step of a download, from `before` to `after` with actions `acts`: the
/// download stays the same one, a finished download stays finished, and the
/// actions drop the job exactly when this step finishes the download.
pub open spec fn download_step(before: DownloadFlow, after: DownloadFlow, acts: Seq<DownloadAction>) -> bool {
    &&& same_download(after, before)
    &&& before.phase == DownloadPhase::Finished ==> after.phase == DownloadPhase::Finished
    &&& forall|jobs: Set<Seq<char>>|
        #[trigger] jobs_after_download(jobs, acts) == if before.phase != DownloadPhase::Finished
            && after.phase == DownloadPhase::Finished {
            jobs.remove(before.job_id@)
        } else {
            jobs
        }
}

proof fn lemma_download_jobs_concat(jobs: Set<Seq<char>>, a: Seq<DownloadAction>, b: Seq<DownloadAction>)
    ensures
        jobs_after_download(jobs, a + b) == jobs_after_download(jobs_after_download(jobs, a), b),
    decreases a.len(),
{
    if a.len() > 0 {
        assert((a + b).drop_first() =~= a.drop_first() + b);
        assert((a + b)[0] == a[0]);
        lemma_download_jobs_concat(jobs_after_download_action(jobs, a[0]), a.drop_first(), b);
    }
}

/// Actions with no `RemoveJob` leave the job table as it is.
proof fn lemma_download_keeps_jobs(acts: Seq<DownloadAction>)
    requires
        forall|i: int| 0 <= i < acts.len() ==> !(#[trigger] acts[i] is RemoveJob),
    ensures
        forall|jobs: Set<Seq<char>>| #[trigger] jobs_after_download(jobs, acts) == jobs,
    decreases acts.len(),
{
    if acts.len() > 0 {
        let rest = acts.drop_first();
        assert(!(acts[0] is RemoveJob));
        assert forall|i: int| 0 <= i < rest.len() implies !(#[trigger] rest[i] is RemoveJob) by {
            assert(rest[i] == acts[i + 1]);
        }
        lemma_download_keeps_jobs(rest);
        assert forall|jobs: Set<Seq<char>>| #[trigger] jobs_after_download(jobs, acts) == jobs by {
            assert(jobs_after_download(jobs, acts) == jobs_after_download(jobs, rest));
        }
    }
}

/// Actions whose only `RemoveJob` is a last `RemoveJob(id)` drop `id`.
proof fn lemma_download_drops_job(acts: Seq<DownloadAction>, id: Seq<char>)
    requires
        acts.len() > 0,
        acts.last() matches DownloadAction::RemoveJob(j) && j@ == id,
        forall|i: int| 0 <= i < acts.len() - 1 ==> !(#[trigger] acts[i] is RemoveJob),
    ensures
        forall|jobs: Set<Seq<char>>| #[trigger] jobs_after_download(jobs, acts) == jobs.remove(id),
{
    let front = acts.drop_last();
    assert(front + seq![acts.last()] =~= acts);
    assert forall|i: int| 0 <= i < front.len() implies !(#[trigger] front[i] is RemoveJob) by {
        assert(front[i] == acts[i]);
    }
    lemma_download_keeps_jobs(front);
    assert forall|jobs: Set<Seq<char>>| #[trigger] jobs_after_download(jobs, acts) == jobs.remove(id) by {
        lemma_download_jobs_concat(jobs, front, seq![acts.last()]);
        reveal_with_fuel(jobs_after_download, 2);
        assert(seq![acts.last()].drop_first() =~= Seq::<DownloadAction>::empty());
    }
}

/// A failure that follows actions with no `RemoveJob` drops the job.
proof fn lemma_failure_drops_job(
    acts: Seq<DownloadAction>,
    from: int,
    f: DownloadFlow,
    cancelled: bool,
    message: Seq<char>,
    reporter_runs: bool,
)
    requires
        0 <= from,
        fails_with_message(acts, from, f, cancelled, message, reporter_runs),
        forall|i: int| 0 <= i < from ==> !(#[trigger] acts[i] is RemoveJob),
    ensures
        forall|jobs: Set<Seq<char>>| #[trigger] jobs_after_download(jobs, acts) == jobs.remove(
            f.job_id@,
        ),
{
    assert forall|i: int| 0 <= i < acts.len() - 1 implies !(#[trigger] acts[i] is RemoveJob) by {
        if i >= from {
            if reporter_runs && i == from {
                assert(acts[from] is StopReporter);
            }
        }
    }
    lemma_download_drops_job(acts, f.job_id@);
}

/// The step after the move to the final name, from `before` to `after` with
/// actions `acts`: outside that phase nothing happens; a failed move ends the
/// download; a move to `path` registers the model as installed and verified,
/// with the download's byte count.
pub open spec fn finalize_step(
    before: DownloadFlow,
    after: DownloadFlow,
    res: Result<String, AppError>,
    acts: Seq<DownloadAction>,
) -> bool {
    &&& after.wf()
    &&& download_step(before, after, acts)
    &&& after.written == before.written
    &&& before.phase != DownloadPhase::Finalizing ==> acts.len() == 0 && after == before
    &&& before.phase == DownloadPhase::Finalizing ==> match res {
        Err(e) => fails_with(acts, 0, before, e, true) && after.phase == DownloadPhase::Finished,
        Ok(path) => {
            &&& after.phase == DownloadPhase::Registering
            &&& acts.len() == 1
            &&& acts[0] matches DownloadAction::Register(m) && {
                &&& m.model_key@ == model_key_view(before.repo_id@, before.filename@)
                &&& m.repo_id == before.repo_id
                &&& m.filename == before.filename
                &&& m.local_path == path
                &&& m.size_bytes == before.written
                &&& m.verified
                &&& after.installed == Some(m)
            }
        },
    }
}

impl DownloadFlow {
    /// A model is only held once a non-empty file was fetched and moved in
    /// place, and it is then the verified model of this download, with the
    /// size that was fetched.
    pub open spec fn wf(&self) -> bool {
        &&& self.phase == DownloadPhase::Finalizing ==> self.written > 0 && self.installed is None
        &&& (self.phase == DownloadPhase::Registering || self.phase == DownloadPhase::Announcing)
            ==> self.installed is Some
        &&& (self.phase == DownloadPhase::PreparingDir || self.phase == DownloadPhase::Fetching)
            ==> self.installed is None
        &&& self.installed matches Some(m) ==> {
            &&& m.model_key@ == model_key_view(self.repo_id@, self.filename@)
            &&& m.repo_id == self.repo_id
            &&& m.filename == self.filename
            &&& m.size_bytes == self.written
            &&& self.written > 0
            &&& m.verified
        }
    }

    fn fail(&mut self, err: AppError, reporter_runs: bool, acts: &mut Vec<DownloadAction>)
        requires
            old(self).wf(),
        ensures
            final(self).wf(),
            same_download(*final(self), *old(self)),
            final(self).written == old(self).written,
            final(self).installed == old(self).installed,
            final(self).phase == DownloadPhase::Finished,
            final(acts)@.len() >= old(acts)@.len(),
            forall|i: int| 0 <= i < old(acts)@.len() ==> final(acts)@[i] == old(acts)@[i],
            fails_with(final(acts)@, old(acts)@.len() as int, *old(self), err, reporter_runs),
    {
        if reporter_runs {
            acts.push(DownloadAction::StopReporter);
        }
        let toast = download_failure_toast(&err, self.repo_id.as_str(), self.filename.as_str());
        acts.push(DownloadAction::Emit(UiEvent::ToastError(toast)));
        acts.push(DownloadAction::RemoveJob(copy_string(&self.job_id)));
        self.phase = DownloadPhase::Finished;
    }

    /// Starts a download: first the repository folder is made.
    pub fn begin(job_id: String, repo_id: String, filename: String) -> (r: (DownloadFlow, Vec<DownloadAction>))
        ensures
            r.0.job_id == job_id,
            r.0.repo_id == repo_id,
            r.0.filename == filename,
            r.0.phase == DownloadPhase::PreparingDir,
            r.0.installed is None,
            r.0.wf(),
            r.1@.len() == 1,
            r.1@[0] matches DownloadAction::CreateDir { dir_name } && dir_name@ == replace_slashes(repo_id@),
            forall|jobs: Set<Seq<char>>| #[trigger] jobs_after_download(jobs, r.1@) == jobs,
    {
        let dir_name = sanitize_repo_dir(repo_id.as_str());
        let mut acts: Vec<DownloadAction> = Vec::new();
        acts.push(DownloadAction::CreateDir { dir_name });
        proof {
            lemma_download_keeps_jobs(acts@);
        }
        let flow = DownloadFlow { job_id, repo_id, filename, written: 0, installed: None, phase: DownloadPhase::PreparingDir };
        (flow, acts)
    }

    /// The repository folder was made, or could not be. Then a leftover
    /// temporary file is cleared and the fetch starts.
    pub fn on_dir_ready(&mut self, res: Result<(), AppError>) -> (acts: Vec<DownloadAction>)
        requires
            old(self).wf(),
        ensures
            final(self).wf(),
            download_step(*old(self), *final(self), acts@),
            same_download(*final(self), *old(self)),
            old(self).phase != DownloadPhase::PreparingDir ==> acts@.len() == 0 && *final(self) == *old(self),
            old(self).phase == DownloadPhase::PreparingDir ==> match res {
                Err(e) => fails_with(acts@, 0, *old(self), e, false) && final(self).phase == DownloadPhase::Finished,
                Ok(_) => {
                    &&& final(self).phase == DownloadPhase::Fetching
                    &&& acts@.len() == 3
                    &&& acts@[0] matches DownloadAction::RemoveStaleTemp { file_name } && file_name@ == temp_name_view(old(self).filename@)
                    &&& acts@[1] is StartReporter
                    &&& acts@[2] matches DownloadAction::Fetch { file_name } && file_name@ == temp_name_view(old(self).filename@)
                },
            },
    {
        let mut acts: Vec<DownloadAction> = Vec::new();
        if self.phase != DownloadPhase::PreparingDir {
            return acts;
        }
        match res {
            Err(e) => {
                let ghost err = e;
                self.fail(e, false, &mut acts);
                proof {
                    lemma_failure_drops_job(acts@, 0, *old(self), err is Cancelled, err.message_view(), false);
                }
            },
            Ok(()) => {
                acts.push(DownloadAction::RemoveStaleTemp { file_name: temp_file_name(self.filename.as_str()) });
                acts.push(DownloadAction::StartReporter);
                acts.push(DownloadAction::Fetch { file_name: temp_file_name(self.filename.as_str()) });
                self.phase = DownloadPhase::Fetching;
                proof {
                    lemma_download_keeps_jobs(acts@);
                }
            },
        }
        acts
    }

    /// The fetch ended with this many bytes written, or failed; `cancelled`
    /// tells whether the job was cancelled meanwhile. A cancelled or empty
    /// download deletes its temporary file and fails; otherwise the file is
    /// checked and moved to its final name.
    pub fn on_fetched(&mut self, res: Result<u64, AppError>, cancelled: bool) -> (acts: Vec<DownloadAction>)
        requires
            old(self).wf(),
        ensures
            final(self).wf(),
            download_step(*old(self), *final(self), acts@),
            same_download(*final(self), *old(self)),
            old(self).phase != DownloadPhase::Fetching ==> acts@.len() == 0 && *final(self) == *old(self),
            old(self).phase == DownloadPhase::Fetching ==> (res matches Err(e) ==> fails_with(
                acts@,
                0,
                *old(self),
                e,
                true,
            ) && final(self).phase == DownloadPhase::Finished),
            old(self).phase == DownloadPhase::Fetching && res is Ok && cancelled ==> {
                &&& acts@[0] matches DownloadAction::RemoveTemp { file_name } && file_name@
                    == temp_name_view(old(self).filename@)
                &&& fails_with(acts@, 1, *old(self), AppError::Cancelled, true)
                &&& final(self).phase == DownloadPhase::Finished
            },
            old(self).phase == DownloadPhase::Fetching && !cancelled ==> (res matches Ok(w) ==> {
                &&& acts@[0] matches DownloadAction::Emit(UiEvent::DownloadProgress(p)) && p.job_id@
                    == old(self).job_id@ && p.repo_id@ == old(self).repo_id@ && p.filename@
                    == old(self).filename@ && p.bytes_downloaded == w && p.total_bytes == Some(w)
                    && p.state == ModelState::Verifying
                &&& final(self).written == w
            }),
            old(self).phase == DownloadPhase::Fetching && !cancelled && res == Ok::<u64, AppError>(0) ==> {
                &&& acts@[1] matches DownloadAction::RemoveTemp { file_name } && file_name@
                    == temp_name_view(old(self).filename@)
                &&& fails_with_message(acts@, 2, *old(self), false, "Filesystem error: "@ + "Downloaded file is empty"@, true)
                &&& final(self).phase == DownloadPhase::Finished
            },
            old(self).phase == DownloadPhase::Fetching && !cancelled ==> (res matches Ok(w) ==> (w > 0 ==> {
                &&& acts@.len() == 2
                &&& acts@[1] matches DownloadAction::ReplaceFinal { temp_name, final_name }
                    && temp_name@ == temp_name_view(old(self).filename@) && final_name@
                    == old(self).filename@
                &&& final(self).phase == DownloadPhase::Finalizing
            })),
    {
        let mut acts: Vec<DownloadAction> = Vec::new();
        if self.phase != DownloadPhase::Fetching {
            return acts;
        }
        match res {
            Err(e) => {
                let ghost err = e;
                self.fail(e, true, &mut acts);
                proof {
                    lemma_failure_drops_job(acts@, 0, *old(self), err is Cancelled, err.message_view(), true);
                }
            },
            Ok(written) => {
                if cancelled {
                    acts.push(DownloadAction::RemoveTemp { file_name: temp_file_name(self.filename.as_str()) });
                    self.fail(AppError::Cancelled, true, &mut acts);
                    proof {
                        let err = AppError::Cancelled;
                        lemma_failure_drops_job(acts@, 1, *old(self), err is Cancelled, err.message_view(), true);
                    }
                } else {
                    self.written = written;
                    let report = DownloadProgressReport {
                        job_id: copy_string(&self.job_id),
                        repo_id: copy_string(&self.repo_id),
                        filename: copy_string(&self.filename),
                        bytes_downloaded: written,
                        total_bytes: Some(written),
                        state: ModelState::Verifying,
                    };
                    acts.push(DownloadAction::Emit(UiEvent::DownloadProgress(report)));
                    if written == 0 {
                        acts.push(DownloadAction::RemoveTemp { file_name: temp_file_name(self.filename.as_str()) });
                        let e = AppError::Fs(String::from_str("Downloaded file is empty"));
                        let ghost err = e;
                        self.fail(e, true, &mut acts);
                        proof {
                            lemma_failure_drops_job(acts@, 2, *old(self), err is Cancelled, err.message_view(), true);
                        }
                    } else {
                        acts.push(DownloadAction::ReplaceFinal {
                            temp_name: temp_file_name(self.filename.as_str()),
                            final_name: copy_string(&self.filename),
                        });
                        self.phase = DownloadPhase::Finalizing;
                        proof {
                            lemma_download_keeps_jobs(acts@);
                        }
                    }
                }
            },
        }
        acts
    }

    /// The temporary file was moved to its final place, whose path is given,
    /// or the move failed. The model is then registered as installed and
    /// verified, with the byte count of the download and the current time,
    /// which is read only when the move worked. See `finalize_step`.
    pub fn on_finalized(&mut self, res: Result<String, AppError>) -> (acts: Vec<DownloadAction>)
        requires
            old(self).wf(),
        ensures
            finalize_step(*old(self), *final(self), res, acts@),
    {
        let moved = match &res {
            Ok(_) => true,
            Err(_) => false,
        };
        if self.phase == DownloadPhase::Finalizing && moved {
            let installed_at = unix_timestamp_now();
            self.on_finalized_at(res, installed_at)
        } else {
            self.on_finalized_at(res, 0)
        }
    }

    /// `on_finalized` with `installed_at` as the current time.
    pub fn on_finalized_at(&mut self, res: Result<String, AppError>, installed_at: i64) -> (acts: Vec<
        DownloadAction,
    >)
        requires
            old(self).wf(),
        ensures
            finalize_step(*old(self), *final(self), res, acts@),
            old(self).phase == DownloadPhase::Finalizing && res is Ok ==> (acts@[0] matches DownloadAction::Register(
                m,
            ) && m.installed_at == installed_at),
    {
        let mut acts: Vec<DownloadAction> = Vec::new();
        if self.phase != DownloadPhase::Finalizing {
            return acts;
        }
        match res {
            Err(e) => {
                let ghost err = e;
                self.fail(e, true, &mut acts);
                proof {
                    lemma_failure_drops_job(acts@, 0, *old(self), err is Cancelled, err.message_view(), true);
                }
            },
            Ok(local_path) => {
                let m = InstalledModel {
                    model_key: model_key(self.repo_id.as_str(), self.filename.as_str()),
                    repo_id: copy_string(&self.repo_id),
                    filename: copy_string(&self.filename),
                    local_path,
                    size_bytes: self.written,
                    verified: true,
                    installed_at,
                };
                self.installed = Some(m.duplicate());
                acts.push(DownloadAction::Register(m));
                self.phase = DownloadPhase::Registering;
                proof {
                    lemma_download_keeps_jobs(acts@);
                }
            },
        }
        acts
    }

    /// The registry took the model, or failed to. Then the progress reports
    /// stop and the "download done" event goes out.
    pub fn on_registered(&mut self, res: Result<(), AppError>) -> (acts: Vec<DownloadAction>)
        requires
            old(self).wf(),
        ensures
            final(self).wf(),
            download_step(*old(self), *final(self), acts@),
            same_download(*final(self), *old(self)),
            final(self).installed == old(self).installed,
            old(self).phase != DownloadPhase::Registering || old(self).installed is None
                ==> acts@.len() == 0 && *final(self) == *old(self),
            old(self).phase == DownloadPhase::Registering && old(self).installed is Some ==> match res {
                Err(e) => fails_with(acts@, 0, *old(self), e, true) && final(self).phase
                    == DownloadPhase::Finished,
                Ok(_) => {
                    let m = old(self).installed->0;
                    &&& final(self).phase == DownloadPhase::Announcing
                    &&& acts@.len() == 2
                    &&& acts@[0] is StopReporter
                    &&& acts@[1] matches DownloadAction::Announce(d) && d.job_id@
                        == old(self).job_id@ && d.model_key == m.model_key && d.repo_id
                        == m.repo_id && d.filename == m.filename && d.local_path == m.local_path
                        && d.size_bytes == m.size_bytes && d.verified == m.verified
                },
            },
    {
        let mut acts: Vec<DownloadAction> = Vec::new();
        if self.phase != DownloadPhase::Registering {
            return acts;
        }
        match &self.installed {
            None => {
                return acts;
            },
            Some(m) => {
                match res {
                    Err(e) => {
                        let ghost err = e;
                        self.fail(e, true, &mut acts);
                        proof {
                            lemma_failure_drops_job(acts@, 0, *old(self), err is Cancelled, err.message_view(), true);
                        }
                    },
                    Ok(()) => {
                        let done = DownloadDoneEvent {
                            job_id: copy_string(&self.job_id),
                            model_key: copy_string(&m.model_key),
                            repo_id: copy_string(&m.repo_id),
                            filename: copy_string(&m.filename),
                            local_path: copy_string(&m.local_path),
                            size_bytes: m.size_bytes,
                            verified: m.verified,
                        };
                        acts.push(DownloadAction::StopReporter);
                        acts.push(DownloadAction::Announce(done));
                        self.phase = DownloadPhase::Announcing;
                        proof {
                            lemma_download_keeps_jobs(acts@);
                        }
                    },
                }
            },
        }
        acts
    }

    /// The "download done" event went out, or could not. On success the
    /// user is told the model is ready; either way the job is dropped.
    pub fn on_announced(&mut self, res: Result<(), AppError>) -> (acts: Vec<DownloadAction>)
        requires
            old(self).wf(),
        ensures
            final(self).wf(),
            download_step(*old(self), *final(self), acts@),
            same_download(*final(self), *old(self)),
            final(self).installed == old(self).installed,
            old(self).phase != DownloadPhase::Announcing || old(self).installed is None
                ==> acts@.len() == 0 && *final(self) == *old(self),
            old(self).phase == DownloadPhase::Announcing && old(self).installed is Some
                ==> final(self).phase == DownloadPhase::Finished && match res {
                Err(e) => fails_with(acts@, 0, *old(self), e, false),
                Ok(_) => {
                    &&& acts@.len() == 2
                    &&& acts@[0] matches DownloadAction::Emit(UiEvent::ToastInfo(t))
                        && installed_toast(t, old(self).installed->0)
                    &&& acts@[1] matches DownloadAction::RemoveJob(j) && j@ == old(self).job_id@
                },
            },
    {
        let mut acts: Vec<DownloadAction> = Vec::new();
        if self.phase != DownloadPhase::Announcing {
            return acts;
        }
        match &self.installed {
            None => {
                return acts;
            },
            Some(m) => {
                match res {
                    Err(e) => {
                        let ghost err = e;
                        self.fail(e, false, &mut acts);
                        proof {
                            lemma_failure_drops_job(acts@, 0, *old(self), err is Cancelled, err.message_view(), false);
                        }
                    },
                    Ok(()) => {
                        let mut detail = concat3(m.repo_id.as_str(), " (", m.filename.as_str());
                        detail.append(")");
                        let toast = make_toast(
                            "Model installed",
                            String::from_str("The model is ready to use."),
                            Some(detail),
                            Some("Select it as your Active Model and try a prompt."),
                            "info",
                        );
                        acts.push(DownloadAction::Emit(UiEvent::ToastInfo(toast)));
                        acts.push(DownloadAction::RemoveJob(copy_string(&self.job_id)));
                        self.phase = DownloadPhase::Finished;
                        proof {
                            lemma_download_drops_job(acts@, self.job_id@);
                        }
                    },
                }
            },
        }
        acts
    }
}

/// Over steps that chain `flows` and end finished, the actions drop the job
/// when the first state was not finished yet, and touch nothing otherwise.
proof fn lemma_steps_drop_job(
    flows: Seq<DownloadFlow>,
    steps: Seq<Seq<DownloadAction>>,
    jobs: Set<Seq<char>>,
)
    requires
        flows.len() == steps.len() + 1,
        forall|i: int|
            #![trigger steps[i]]
            0 <= i < steps.len() ==> download_step(flows[i], flows[i + 1], steps[i]),
        flows.last().phase == DownloadPhase::Finished,
    ensures
        jobs_after_download(jobs, steps.flatten()) == if flows[0].phase != DownloadPhase::Finished {
            jobs.remove(flows[0].job_id@)
        } else {
            jobs
        },
    decreases steps.len(),
{
    if steps.len() > 0 {
        assert(download_step(flows[0], flows[1], steps[0]));
        let j1 = jobs_after_download(jobs, steps[0]);
        let rest_flows = flows.drop_first();
        let rest_steps = steps.drop_first();
        assert forall|i: int|
            #![trigger rest_steps[i]]
            0 <= i < rest_steps.len() implies download_step(
            rest_flows[i],
            rest_flows[i + 1],
            rest_steps[i],
        ) by {
            assert(rest_steps[i] == steps[i + 1]);
            assert(rest_flows[i] == flows[i + 1]);
            assert(rest_flows[i + 1] == flows[i + 2]);
        }
        lemma_steps_drop_job(rest_flows, rest_steps, j1);
        lemma_download_jobs_concat(jobs, steps[0], rest_steps.flatten());
        assert(steps.flatten() == steps[0] + rest_steps.flatten());
        assert(flows[1].job_id@ == flows[0].job_id@);
        if flows[0].phase != DownloadPhase::Finished && flows[1].phase != DownloadPhase::Finished {
            assert(j1 == jobs);
        }
    } else {
        assert(steps.flatten() =~= Seq::<DownloadAction>::empty());
    }
}

/// A whole download forgets its job. `begin`'s actions touch no job, and
/// every later step (`on_dir_ready`, `on_fetched`, `on_finalized`,
/// `on_registered`, `on_announced`) drops the job exactly when it finishes
/// the download. So once a download that started unfinished has finished,
/// however it ended (failure, cancellation, empty file or success), all its
/// actions in order leave the job table without its job and with every
/// other job as it was; a table that got the job when the download was
/// created is as it was before.
pub proof fn lemma_whole_download_forgets_job(
    start_acts: Seq<DownloadAction>,
    flows: Seq<DownloadFlow>,
    steps: Seq<Seq<DownloadAction>>,
    jobs: Set<Seq<char>>,
)
    requires
        forall|js: Set<Seq<char>>| #[trigger] jobs_after_download(js, start_acts) == js,
        flows.len() == steps.len() + 1,
        forall|i: int|
            #![trigger steps[i]]
            0 <= i < steps.len() ==> download_step(flows[i], flows[i + 1], steps[i]),
        flows[0].phase != DownloadPhase::Finished,
        flows.last().phase == DownloadPhase::Finished,
    ensures
        jobs_after_download(jobs, start_acts + steps.flatten()) == jobs.remove(flows[0].job_id@),
        !jobs.contains(flows[0].job_id@) ==> jobs_after_download(
            jobs.insert(flows[0].job_id@),
            start_acts + steps.flatten(),
        ) == jobs,
{
    let id = flows[0].job_id@;
    assert forall|js: Set<Seq<char>>|
        #[trigger] jobs_after_download(js, start_acts + steps.flatten()) == js.remove(id) by {
        lemma_download_jobs_concat(js, start_acts, steps.flatten());
        assert(jobs_after_download(js, start_acts) == js);
        lemma_steps_drop_job(flows, steps, js);
    }
    assert(jobs_after_download(jobs, start_acts + steps.flatten()) == jobs.remove(id));
    if !jobs.contains(id) {
        assert(jobs_after_download(jobs.insert(id), start_acts + steps.flatten()) == jobs.insert(
            id,
        ).remove(id));
        assert(jobs.insert(id).remove(id) =~= jobs);
    }
}

/// Progress reports go out at most once per this many milliseconds.
pub const PROGRESS_INTERVAL_MS: u64 = 150;

/// Holds back progress reports that come too fast, keeping the latest.
#[derive(Debug)]
pub struct ProgressThrottle {
    pub last_emit_ms: u64,
    pub latest: Option<(u64, Option<u64>)>,
}

impl ProgressThrottle {
    /// A throttle whose interval starts at `now_ms`, with nothing held.
    pub fn new(now_ms: u64) -> (r: ProgressThrottle)
        ensures
            r.last_emit_ms == now_ms,
            r.latest is None,
    {
        ProgressThrottle { last_emit_ms: now_ms, latest: None }
    }

    /// A report of `downloaded` of `total` bytes arrived at `now_ms`. It is
    /// passed on when the interval since the last one passed on is over;
    /// otherwise it is held, replacing any report held before.
    pub fn on_progress(&mut self, downloaded: u64, total: Option<u64>, now_ms: u64) -> (r: Option<
        (u64, Option<u64>),
    >)
        ensures
            if now_ms >= old(self).last_emit_ms + PROGRESS_INTERVAL_MS {
                &&& r == Some((downloaded, total))
                &&& final(self).latest is None
                &&& final(self).last_emit_ms == now_ms
            } else {
                &&& r is None
                &&& final(self).latest == Some((downloaded, total))
                &&& final(self).last_emit_ms == old(self).last_emit_ms
            },
    {
        self.latest = Some((downloaded, total));
        if now_ms.saturating_sub(self.last_emit_ms) >= PROGRESS_INTERVAL_MS {
            let out = self.latest;
            self.latest = None;
            self.last_emit_ms = now_ms;
            out
        } else {
            None
        }
    }

    /// No more reports will come: the one held back, if any, goes out.
    pub fn on_closed(&mut self) -> (r: Option<(u64, Option<u64>)>)
        ensures
            r == old(self).latest,
            final(self).latest is None,
            final(self).last_emit_ms == old(self).last_emit_ms,
    {
        let out = self.latest;
        self.latest = None;
        out
    }
}


/// A repository's folder name never holds a `/`, so it is one folder inside
/// the models folder.
pub proof fn lemma_repo_dir_has_no_slash(repo_id: Seq<char>)
    ensures
        forall|i: int| 0 <= i < replace_slashes(repo_id).len() ==> #[trigger] replace_slashes(repo_id)[i] != '/',
    decreases repo_id.len(),
{
    if repo_id.len() > 0 {
        lemma_repo_dir_has_no_slash(repo_id.drop_first());
        let head = if repo_id[0] == '/' {
            seq!['-', '-']
        } else {
            seq![repo_id[0]]
        };
        let r = replace_slashes(repo_id);
        assert forall|i: int| 0 <= i < r.len() implies #[trigger] r[i] != '/' by {
            if i >= head.len() {
                assert(r[i] == replace_slashes(repo_id.drop_first())[i - head.len()]);
            }
        }
    }
}

} // verus!
