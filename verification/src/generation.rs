//! One generation run, from the request check to the final event: the
//! decisions of the run, taking the outside work's results as events and
//! answering with the actions to perform.
use vstd::prelude::*;
use vstd::string::{StrSliceExecFns, StringExecFns};

use crate::clock::unix_timestamp_now;
use crate::domain::{GenState, GenUsage, HistoryItemDetail, InstalledModel};
use crate::error::AppError;
use crate::events::{make_toast, toast_is, GenDoneEvent, GenTokenEvent, ToastEvent, UiEvent};
use crate::jobs::new_uuid_string;
use crate::text::{all_white_space, concat3, copy_string, is_blank};

verus! {

/// Fails with `InvalidInput("Please enter a prompt.")` when the prompt is
/// blank.
pub fn check_prompt(prompt: &str) -> (r: Result<(), AppError>)
    ensures
        r is Ok <==> !all_white_space(prompt@),
        r matches Err(e) ==> (e matches AppError::InvalidInput(m) && m@
            == "Please enter a prompt."@),
{
    if is_blank(prompt) {
        Err(AppError::InvalidInput(String::from_str("Please enter a prompt.")))
    } else {
        Ok(())
    }
}

/// The registry's answer for the selected model, or
/// `InvalidInput("Selected model is not installed.")` when it has none.
pub fn require_installed(found: Option<InstalledModel>) -> (r: Result<InstalledModel, AppError>)
    ensures
        found matches Some(m) ==> r == Ok::<InstalledModel, AppError>(m),
        found is None ==> (r matches Err(e) && e matches AppError::InvalidInput(m) && m@
            == "Selected model is not installed."@),
{
    match found {
        Some(m) => Ok(m),
        None => Err(AppError::InvalidInput(String::from_str("Selected model is not installed."))),
    }
}

/// Where a run stands.
#[derive(Debug, Clone, Copy, PartialEq, Eq, Structural)]
pub enum GenPhase {
    /// The model is being loaded.
    LoadingModel,
    /// Text is streaming in.
    Streaming,
    /// The run is over; nothing more happens.
    Finished,
}

/// Something the caller performs on behalf of a run.
#[derive(Debug)]
pub enum GenAction {
    /// Send this event to the user interface.
    Emit(UiEvent),
    /// Store this record in the history.
    InsertHistory(HistoryItemDetail),
    /// Drop the job with this identifier from the job table.
    RemoveJob(String),
    /// Load this model, then report how it went.
    LoadModel(InstalledModel),
    /// Generate from this model for this prompt, handing each piece of text
    /// to the run, then report how the stream ended.
    Stream { model: InstalledModel, prompt: String },
}

/// The job table after `act`, given as the set of job identifiers.
pub open spec fn jobs_after_action(jobs: Set<Seq<char>>, act: GenAction) -> Set<Seq<char>> {
    match act {
        GenAction::RemoveJob(j) => jobs.remove(j@),
        _ => jobs,
    }
}

/// The job table after `acts` in order.
pub open spec fn jobs_after(jobs: Set<Seq<char>>, acts: Seq<GenAction>) -> Set<Seq<char>>
    decreases acts.len(),
{
    if acts.len() == 0 {
        jobs
    } else {
        jobs_after(jobs_after_action(jobs, acts[0]), acts.drop_first())
    }
}

/// How a run ends, from `before` to `after` with actions `acts`, given the
/// stream's result and the time and identifier a successful run is recorded
/// under. Outside streaming nothing happens. Otherwise the run is finished and
/// the job dropped: on success a history record is stored and a final event
/// sent; a cancellation sends a final event without a record; a failure sends
/// an error notice and a final event without a record.
pub open spec fn stream_ended(
    before: GenerationSession,
    after: GenerationSession,
    res: Result<GenUsage, AppError>,
    acts: Seq<GenAction>,
    created_at: i64,
    session_id: Seq<char>,
) -> bool {
    &&& after.wf()
    &&& after.same_run(before)
    &&& after.output == before.output
    &&& before.phase != GenPhase::Streaming ==> acts.len() == 0 && after.phase == before.phase
    &&& before.phase == GenPhase::Streaming ==> forall|jobs: Set<Seq<char>>|
        #[trigger] jobs_after(jobs, acts) == jobs.remove(before.job_id@)
    &&& before.phase == GenPhase::Streaming ==> after.phase == GenPhase::Finished && match res {
        Ok(u) => {
            &&& acts.len() == 3
            &&& acts[0] matches GenAction::InsertHistory(h) && {
                &&& h.id@ == session_id
                &&& h.created_at == created_at
                &&& h.model_key == before.model_key
                &&& h.repo_id == before.model.repo_id
                &&& h.filename == before.model.filename
                &&& h.prompt == before.prompt
                &&& h.output == before.output
                &&& h.params_json == before.params_json
                &&& h.prompt_tokens == u.prompt_tokens
                &&& h.completion_tokens == u.completion_tokens
                &&& h.total_tokens == u.total_tokens
                &&& acts[1] matches GenAction::Emit(UiEvent::GenDone(d)) && d.job_id@
                    == before.job_id@ && d.session_id == Some(h.id) && d.total_chars
                    == before.total_chars && d.prompt_tokens == u.prompt_tokens
                    && d.completion_tokens == u.completion_tokens && d.total_tokens
                    == u.total_tokens && d.state == GenState::Done
            }
            &&& removes_job(acts[2], before)
        },
        Err(AppError::Cancelled) => {
            &&& acts.len() == 2
            &&& ended_without_record(acts[0], before, GenState::Cancelled)
            &&& removes_job(acts[1], before)
        },
        Err(e) => {
            &&& acts.len() == 3
            &&& acts[0] matches GenAction::Emit(UiEvent::ToastError(t)) && generation_failed_toast(t, e)
            &&& ended_without_record(acts[1], before, GenState::Failed)
            &&& removes_job(acts[2], before)
        },
    }
}

/// The state of one generation run.
#[derive(Debug)]
pub struct GenerationSession {
    pub job_id: String,
    pub model: InstalledModel,
    pub prompt: String,
    pub model_key: String,
    pub params_json: String,
    pub output: String,
    pub total_chars: u64,
    pub phase: GenPhase,
}

pub open spec fn generating_toast(t: ToastEvent) -> bool {
    toast_is(
        t,
        "Generating"@,
        "Preparing model and starting generation…"@,
        None,
        None,
        "info"@,
    )
}

pub open spec fn load_failed_toast(t: ToastEvent, e: AppError, m: InstalledModel) -> bool {
    toast_is(
        t,
        "Model load failed"@,
        e.message_view(),
        Some(m.repo_id@ + " / "@ + m.filename@),
        Some(
            "Make sure the GGUF file is valid, and set a Hugging Face token in Settings if the repo is gated."@,
        ),
        "error"@,
    )
}

pub open spec fn generation_failed_toast(t: ToastEvent, e: AppError) -> bool {
    toast_is(
        t,
        "Generation failed"@,
        e.message_view(),
        None,
        Some(
            "Try a smaller quantization, lower max tokens, or ensure your system has enough RAM."@,
        ),
        "error"@,
    )
}

/// `a` tells the user interface that the run ended in `state`, with no
/// history record and no token counts.
pub open spec fn ended_without_record(a: GenAction, s: GenerationSession, state: GenState) -> bool {
    a matches GenAction::Emit(UiEvent::GenDone(d)) && d.job_id@ == s.job_id@ && d.session_id
        is None && d.total_chars == s.total_chars && d.prompt_tokens is None
        && d.completion_tokens is None && d.total_tokens is None && d.state == state
}

/// `a` drops the run's job.
pub open spec fn removes_job(a: GenAction, s: GenerationSession) -> bool {
    a matches GenAction::RemoveJob(j) && j@ == s.job_id@
}

impl GenerationSession {
    /// The character count always matches the text gathered so far.
    pub open spec fn wf(&self) -> bool {
        self.total_chars == self.output@.len()
    }

    /// `self` is `old` with only the output, the count and the phase changed.
    pub open spec fn same_run(&self, old: GenerationSession) -> bool {
        &&& self.job_id == old.job_id
        &&& self.model == old.model
        &&& self.prompt == old.prompt
        &&& self.model_key == old.model_key
        &&& self.params_json == old.params_json
    }

    /// Starts a run for a job, and gives the "Generating" notice to show.
    pub fn start(
        job_id: String,
        model: InstalledModel,
        prompt: String,
        model_key: String,
        params_json: String,
    ) -> (r: (GenerationSession, Vec<GenAction>))
        ensures
            r.0.wf(),
            r.0.job_id == job_id,
            r.0.model == model,
            r.0.prompt == prompt,
            r.0.model_key == model_key,
            r.0.params_json == params_json,
            r.0.output@ == Seq::<char>::empty(),
            r.0.phase == GenPhase::LoadingModel,
            r.1@.len() == 2,
            r.1@[0] matches GenAction::Emit(UiEvent::ToastInfo(t)) && generating_toast(t),
            r.1@[1] == GenAction::LoadModel(model),
            forall|jobs: Set<Seq<char>>| #[trigger] jobs_after(jobs, r.1@) == jobs,
    {
        let toast = make_toast(
            "Generating",
            String::from_str("Preparing model and starting generation…"),
            None,
            None,
            "info",
        );
        let mut acts: Vec<GenAction> = Vec::new();
        acts.push(GenAction::Emit(UiEvent::ToastInfo(toast)));
        acts.push(GenAction::LoadModel(model.duplicate()));
        proof {
            assert forall|jobs: Set<Seq<char>>| #[trigger] jobs_after(jobs, acts@) == jobs by {
                lemma_jobs_after_keeps_others(jobs, acts@);
            }
        }
        let session = GenerationSession {
            job_id,
            model,
            prompt,
            model_key,
            params_json,
            output: String::new(),
            total_chars: 0,
            phase: GenPhase::LoadingModel,
        };
        (session, acts)
    }

    /// The model finished loading, or failed to. A failure ends the run with
    /// an error notice and drops the job; success moves on to streaming.
    pub fn on_model_loaded(&mut self, res: Result<(), AppError>) -> (acts: Vec<GenAction>)
        requires
            old(self).wf(),
        ensures
            final(self).wf(),
            final(self).same_run(*old(self)),
            final(self).output == old(self).output,
            old(self).phase != GenPhase::LoadingModel ==> acts@.len() == 0 && final(self).phase
                == old(self).phase,
            old(self).phase == GenPhase::LoadingModel ==> match res {
                Ok(_) => {
                    &&& final(self).phase == GenPhase::Streaming
                    &&& acts@.len() == 1
                    &&& acts@[0] matches GenAction::Stream { model, prompt } && model
                        == old(self).model && prompt == old(self).prompt
                    &&& forall|jobs: Set<Seq<char>>| #[trigger] jobs_after(jobs, acts@) == jobs
                },
                Err(e) => {
                    &&& final(self).phase == GenPhase::Finished
                    &&& acts@.len() == 2
                    &&& acts@[0] matches GenAction::Emit(UiEvent::ToastError(t)) && load_failed_toast(
                        t,
                        e,
                        old(self).model,
                    )
                    &&& removes_job(acts@[1], *old(self))
                    &&& forall|jobs: Set<Seq<char>>| #[trigger] jobs_after(jobs, acts@)
                        == jobs.remove(old(self).job_id@)
                },
            },
    {
        let mut acts: Vec<GenAction> = Vec::new();
        if self.phase != GenPhase::LoadingModel {
            return acts;
        }
        match res {
            Ok(()) => {
                acts.push(
                    GenAction::Stream { model: self.model.duplicate(), prompt: copy_string(&self.prompt) },
                );
                self.phase = GenPhase::Streaming;
                proof {
                    assert forall|jobs: Set<Seq<char>>| #[trigger] jobs_after(jobs, acts@) == jobs by {
                        reveal_with_fuel(jobs_after, 2);
                        assert(acts@.drop_first() =~= Seq::<GenAction>::empty());
                    }
                }
            },
            Err(e) => {
                let detail = concat3(self.model.repo_id.as_str(), " / ", self.model.filename.as_str());
                let toast = make_toast(
                    "Model load failed",
                    e.message(),
                    Some(detail),
                    Some(
                        "Make sure the GGUF file is valid, and set a Hugging Face token in Settings if the repo is gated.",
                    ),
                    "error",
                );
                acts.push(GenAction::Emit(UiEvent::ToastError(toast)));
                acts.push(GenAction::RemoveJob(copy_string(&self.job_id)));
                self.phase = GenPhase::Finished;
                proof {
                    lemma_jobs_after_ends_with_removal(acts@, self.job_id@);
                }
            },
        }
        acts
    }

    /// A chunk of text arrived while streaming: it is added to the output and
    /// passed on with the running character count. Outside streaming the
    /// chunk is ignored.
    pub fn on_text(&mut self, chunk: String, elapsed_ms: u64) -> (ev: Option<UiEvent>)
        requires
            old(self).wf(),
            old(self).phase == GenPhase::Streaming ==> old(self).total_chars + chunk@.len()
                <= u64::MAX,
        ensures
            final(self).wf(),
            final(self).same_run(*old(self)),
            final(self).phase == old(self).phase,
            old(self).phase != GenPhase::Streaming ==> ev is None && final(self).output
                == old(self).output,
            old(self).phase == GenPhase::Streaming ==> {
                &&& final(self).output@ == old(self).output@ + chunk@
                &&& ev matches Some(UiEvent::GenToken(t)) && t.job_id@ == old(self).job_id@
                    && t.chunk == chunk && t.total_chars == final(self).total_chars
                    && t.elapsed_ms == elapsed_ms && t.state == GenState::Generating
            },
    {
        if self.phase != GenPhase::Streaming {
            return None;
        }
        let n = chunk.as_str().unicode_len();
        self.output.append(chunk.as_str());
        self.total_chars = self.total_chars + n as u64;
        Some(
            UiEvent::GenToken(
                GenTokenEvent {
                    job_id: copy_string(&self.job_id),
                    chunk,
                    total_chars: self.total_chars,
                    elapsed_ms,
                    state: GenState::Generating,
                },
            ),
        )
    }

    /// The stream ended. On success the run is recorded in the history under
    /// a fresh random identifier and the current time; a cancellation or a
    /// failure is reported as such. Every ending drops the job. The time and
    /// the identifier are read only for a successful ending.
    pub fn on_stream_end(&mut self, res: Result<GenUsage, AppError>) -> (acts: Vec<GenAction>)
        requires
            old(self).wf(),
        ensures
            exists|created_at: i64, session_id: Seq<char>|
                session_id.len() == 36 && #[trigger] stream_ended(
                    *old(self),
                    *final(self),
                    res,
                    acts@,
                    created_at,
                    session_id,
                ),
    {
        let succeeded = match &res {
            Ok(_) => true,
            Err(_) => false,
        };
        if self.phase == GenPhase::Streaming && succeeded {
            let created_at = unix_timestamp_now();
            let session_id = new_uuid_string();
            let ghost id = session_id@;
            let acts = self.on_stream_end_at(res, created_at, session_id);
            proof {
                assert(stream_ended(*old(self), *self, res, acts@, created_at, id));
            }
            acts
        } else {
            let ghost id = Seq::new(36, |i: int| 'x');
            let acts = self.on_stream_end_at(res, 0, String::new());
            proof {
                assert(stream_ended(*old(self), *self, res, acts@, 0, id));
            }
            acts
        }
    }

    /// The stream ended, with `created_at` and `session_id` as the time and
    /// the identifier a successful run is recorded under. See `stream_ended`.
    pub fn on_stream_end_at(
        &mut self,
        res: Result<GenUsage, AppError>,
        created_at: i64,
        session_id: String,
    ) -> (acts: Vec<GenAction>)
        requires
            old(self).wf(),
        ensures
            stream_ended(*old(self), *final(self), res, acts@, created_at, session_id@),
    {
        let mut acts: Vec<GenAction> = Vec::new();
        if self.phase != GenPhase::Streaming {
            return acts;
        }
        self.phase = GenPhase::Finished;
        match res {
            Ok(usage) => {
                let item = HistoryItemDetail {
                    id: copy_string(&session_id),
                    created_at,
                    model_key: copy_string(&self.model_key),
                    repo_id: copy_string(&self.model.repo_id),
                    filename: copy_string(&self.model.filename),
                    prompt: copy_string(&self.prompt),
                    output: copy_string(&self.output),
                    params_json: copy_string(&self.params_json),
                    prompt_tokens: usage.prompt_tokens,
                    completion_tokens: usage.completion_tokens,
                    total_tokens: usage.total_tokens,
                };
                acts.push(GenAction::InsertHistory(item));
                let done = GenDoneEvent {
                    job_id: copy_string(&self.job_id),
                    session_id: Some(session_id),
                    total_chars: self.total_chars,
                    prompt_tokens: usage.prompt_tokens,
                    completion_tokens: usage.completion_tokens,
                    total_tokens: usage.total_tokens,
                    state: GenState::Done,
                };
                acts.push(GenAction::Emit(UiEvent::GenDone(done)));
            },
            Err(AppError::Cancelled) => {
                acts.push(GenAction::Emit(UiEvent::GenDone(self.ended(GenState::Cancelled))));
            },
            Err(e) => {
                let toast = make_toast(
                    "Generation failed",
                    e.message(),
                    None,
                    Some(
                        "Try a smaller quantization, lower max tokens, or ensure your system has enough RAM.",
                    ),
                    "error",
                );
                acts.push(GenAction::Emit(UiEvent::ToastError(toast)));
                acts.push(GenAction::Emit(UiEvent::GenDone(self.ended(GenState::Failed))));
            },
        }
        acts.push(GenAction::RemoveJob(copy_string(&self.job_id)));
        proof {
            lemma_jobs_after_ends_with_removal(acts@, self.job_id@);
        }
        acts
    }

    fn ended(&self, state: GenState) -> (d: GenDoneEvent)
        ensures
            d.job_id@ == self.job_id@,
            d.session_id is None,
            d.total_chars == self.total_chars,
            d.prompt_tokens is None,
            d.completion_tokens is None,
            d.total_tokens is None,
            d.state == state,
    {
        GenDoneEvent {
            job_id: copy_string(&self.job_id),
            session_id: None,
            total_chars: self.total_chars,
            prompt_tokens: None,
            completion_tokens: None,
            total_tokens: None,
            state,
        }
    }
}


/// A successful run's final event counts exactly the characters of the text
/// stored in its history record, and names that record: when the stream of
/// a well-formed run ends with usage `u`, as `on_stream_end` ensures, the
/// record comes first and the final event second, with `total_chars` equal
/// to the record's output length and `session_id` equal to the record's id.
pub proof fn lemma_done_count_matches_record(
    before: GenerationSession,
    after: GenerationSession,
    u: GenUsage,
    acts: Seq<GenAction>,
    created_at: i64,
    session_id: Seq<char>,
)
    requires
        before.wf(),
        before.phase == GenPhase::Streaming,
        stream_ended(before, after, Ok(u), acts, created_at, session_id),
    ensures
        acts[0] matches GenAction::InsertHistory(h) && (acts[1] matches GenAction::Emit(
            UiEvent::GenDone(d),
        ) && d.total_chars == h.output@.len() && d.session_id == Some(h.id)),
{
}


proof fn lemma_jobs_after_push(jobs: Set<Seq<char>>, acts: Seq<GenAction>, a: GenAction)
    ensures
        jobs_after(jobs, acts.push(a)) == jobs_after_action(jobs_after(jobs, acts), a),
    decreases acts.len(),
{
    if acts.len() == 0 {
        assert(acts.push(a).drop_first() =~= Seq::<GenAction>::empty());
        assert(acts.push(a)[0] == a);
        reveal_with_fuel(jobs_after, 2);
    } else {
        let j1 = jobs_after_action(jobs, acts[0]);
        lemma_jobs_after_push(j1, acts.drop_first(), a);
        assert(acts.push(a).drop_first() =~= acts.drop_first().push(a));
        assert(acts.push(a)[0] == acts[0]);
    }
}

proof fn lemma_jobs_after_keeps_others(jobs: Set<Seq<char>>, acts: Seq<GenAction>)
    requires
        forall|i: int| 0 <= i < acts.len() ==> !(#[trigger] acts[i] is RemoveJob),
    ensures
        jobs_after(jobs, acts) == jobs,
    decreases acts.len(),
{
    if acts.len() > 0 {
        assert(!(acts[0] is RemoveJob));
        let rest = acts.drop_first();
        assert forall|i: int| 0 <= i < rest.len() implies !(#[trigger] rest[i] is RemoveJob) by {
            assert(rest[i] == acts[i + 1]);
        }
        lemma_jobs_after_keeps_others(jobs, rest);
    }
}

/// A list of actions whose only job action is a last `RemoveJob(id)` leaves
/// the job table without `id` and otherwise as it was.
proof fn lemma_jobs_after_ends_with_removal(acts: Seq<GenAction>, id: Seq<char>)
    requires
        acts.len() > 0,
        acts.last() matches GenAction::RemoveJob(j) && j@ == id,
        forall|i: int| 0 <= i < acts.len() - 1 ==> !(#[trigger] acts[i] is RemoveJob),
    ensures
        forall|jobs: Set<Seq<char>>| #[trigger] jobs_after(jobs, acts) == jobs.remove(id),
{
    assert forall|jobs: Set<Seq<char>>| #[trigger] jobs_after(jobs, acts) == jobs.remove(id) by {
        let front = acts.drop_last();
        assert(front.push(acts.last()) =~= acts);
        assert forall|i: int| 0 <= i < front.len() implies !(#[trigger] front[i] is RemoveJob) by {
            assert(front[i] == acts[i]);
        }
        lemma_jobs_after_keeps_others(jobs, front);
        lemma_jobs_after_push(jobs, front, acts.last());
    }
}

/// Applying `a` and then `b` is applying `a + b`.
proof fn lemma_jobs_after_concat(jobs: Set<Seq<char>>, a: Seq<GenAction>, b: Seq<GenAction>)
    ensures
        jobs_after(jobs, a + b) == jobs_after(jobs_after(jobs, a), b),
    decreases a.len(),
{
    if a.len() > 0 {
        assert((a + b).drop_first() =~= a.drop_first() + b);
        assert((a + b)[0] == a[0]);
        lemma_jobs_after_concat(jobs_after_action(jobs, a[0]), a.drop_first(), b);
    }
}

/// A whole run forgets its job. The actions of `start` touch no job; the
/// model load either fails, dropping the job (and no stream follows), or
/// succeeds, touching no job, and the end of the stream then drops it. In
/// both cases the actions of the run, in order, leave the job table without
/// the run's job and with every other job as it was, so a job table that
/// got the job when the run was created is as it was before.
pub proof fn lemma_whole_run_forgets_job(
    job_id: Seq<char>,
    start_acts: Seq<GenAction>,
    load_acts: Seq<GenAction>,
    stream_acts: Seq<GenAction>,
    jobs: Set<Seq<char>>,
)
    requires
        forall|js: Set<Seq<char>>| #[trigger] jobs_after(js, start_acts) == js,
        ({
            ||| (forall|js: Set<Seq<char>>| #[trigger] jobs_after(js, load_acts) == js.remove(job_id))
                && stream_acts.len() == 0
            ||| (forall|js: Set<Seq<char>>| #[trigger] jobs_after(js, load_acts) == js) && (forall|
                js: Set<Seq<char>>,
            | #[trigger] jobs_after(js, stream_acts) == js.remove(job_id))
        }),
    ensures
        jobs_after(jobs, start_acts + load_acts + stream_acts) == jobs.remove(job_id),
        !jobs.contains(job_id) ==> jobs_after(jobs.insert(job_id), start_acts + load_acts
            + stream_acts) == jobs,
{
    assert forall|js: Set<Seq<char>>|
        #[trigger] jobs_after(js, start_acts + load_acts + stream_acts) == js.remove(job_id) by {
        lemma_jobs_after_concat(js, start_acts + load_acts, stream_acts);
        lemma_jobs_after_concat(js, start_acts, load_acts);
        assert(jobs_after(js, start_acts) == js);
        if stream_acts.len() == 0 {
            assert(jobs_after(js.remove(job_id), stream_acts) == js.remove(job_id));
        }
    }
    assert(jobs_after(jobs, start_acts + load_acts + stream_acts) == jobs.remove(job_id));
    if !jobs.contains(job_id) {
        assert(jobs_after(jobs.insert(job_id), start_acts + load_acts + stream_acts)
            == jobs.insert(job_id).remove(job_id));
        assert(jobs.insert(job_id).remove(job_id) =~= jobs);
    }
}

} // verus!
