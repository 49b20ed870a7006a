//! Running a local model: which tokenizer repository to use, which token
//! source, the cache of the loaded model and the chunking of streamed text.
use vstd::prelude::*;
use vstd::string::StringExecFns;

use crate::domain::{GenUsage, InstalledModel};
use crate::error::AppError;
use crate::text::{
    all_white_space, opt_view, contains, copy_string, is_blank, lowercase_of, same_text, seq_contains,
    to_lowercase,
};

verus! {

// ---------------------------------------------------------------------------
// Tokenizer repository and token source
// ---------------------------------------------------------------------------

/// The tokenizer repository for a model repository, given the repository
/// name in lower case: Phi-3 mini 4k instruct quantizations use Microsoft's
/// upstream repository, every other repository its own name.
pub open spec fn tok_hint_view(repo_id: Seq<char>, lowered: Seq<char>) -> Seq<char> {
    if seq_contains(lowered, "phi-3-mini-4k-instruct"@) {
        "microsoft/Phi-3-mini-4k-instruct"@
    } else {
        repo_id
    }
}

/// The tokenizer repository for `repo_id`, whose lower-case form is `lowered`.
pub fn tok_model_id_for(repo_id: &str, lowered: &str) -> (r: String)
    ensures
        r@ == tok_hint_view(repo_id@, lowered@),
{
    if contains(lowered, "phi-3-mini-4k-instruct") {
        String::from_str("microsoft/Phi-3-mini-4k-instruct")
    } else {
        String::from_str(repo_id)
    }
}

/// Best-effort mapping from a GGUF repository to the repository holding its
/// tokenizer and chat template.
pub fn tok_model_id_hint(repo_id: &str) -> (r: String)
    ensures
        r@ == tok_hint_view(repo_id@, lowercase_of(repo_id@)),
{
    let lowered = to_lowercase(repo_id);
    tok_model_id_for(repo_id, lowered.as_str())
}

/// Where the model loader gets a Hugging Face token from.
#[derive(Debug)]
pub enum TokenSourceChoice {
    /// This token, as the user entered it.
    Literal(String),
    /// The token cached on this machine, if any.
    CacheToken,
}

/// The user's token when it is set and not blank, else the cached one.
pub fn token_source(hf_token: Option<&str>) -> (r: TokenSourceChoice)
    ensures
        match hf_token {
            Some(t) => if all_white_space(t@) {
                r is CacheToken
            } else {
                r matches TokenSourceChoice::Literal(s) && s@ == t@
            },
            None => r is CacheToken,
        },
{
    match hf_token {
        Some(t) => {
            if is_blank(t) {
                TokenSourceChoice::CacheToken
            } else {
                TokenSourceChoice::Literal(String::from_str(t))
            }
        },
        None => TokenSourceChoice::CacheToken,
    }
}

// ---------------------------------------------------------------------------
// The loaded model
// ---------------------------------------------------------------------------

/// What `Path::parent` gives for a path with these characters, as text.
pub uninterp spec fn parent_of(path: Seq<char>) -> Option<Seq<char>>;

/// What `Path::file_name` gives for a path with these characters, as text.
pub uninterp spec fn file_name_of(path: Seq<char>) -> Option<Seq<char>>;

/// Calls `Path::parent` on the path and renders the result as a string; its
/// result is named `parent_of` of the path.
#[verifier::external_body]
fn path_parent(path: &str) -> (r: Option<String>)
    ensures
        opt_view(r) == parent_of(path@),
{
    std::path::Path::new(path).parent().map(|p| p.to_string_lossy().to_string())
}

/// Calls `Path::file_name` on the path and keeps it as a string (a name cut
/// from a `str` is always valid text); its result is named `file_name_of` of
/// the path.
#[verifier::external_body]
fn path_file_name(path: &str) -> (r: Option<String>)
    ensures
        opt_view(r) == file_name_of(path@),
{
    std::path::Path::new(path).file_name().and_then(|s| s.to_str()).map(|s| s.to_string())
}

/// What the loader needs to build a model.
#[derive(Debug)]
pub struct LoadPlan {
    pub local_dir: String,
    pub file_name: String,
    pub tok_model_id: String,
    pub token: TokenSourceChoice,
}

/// `plan` loads `model` from `dir`/`file` with the token choice for `hf_token`.
pub open spec fn plans_load(
    plan: LoadPlan,
    model: InstalledModel,
    dir: String,
    file: String,
    hf_token: Option<&str>,
) -> bool {
    &&& plan.local_dir == dir
    &&& plan.file_name == file
    &&& plans_tokens(plan, model, hf_token)
}

/// `plan` uses the tokenizer repository of `model` and the token choice for
/// `hf_token`.
pub open spec fn plans_tokens(plan: LoadPlan, model: InstalledModel, hf_token: Option<&str>) -> bool {
    &&& plan.tok_model_id@ == tok_hint_view(model.repo_id@, lowercase_of(model.repo_id@))
    &&& match hf_token {
        Some(t) => if all_white_space(t@) {
            plan.token is CacheToken
        } else {
            plan.token matches TokenSourceChoice::Literal(s) && s@ == t@
        },
        None => plan.token is CacheToken,
    }
}

/// `e` is `Inference(message)`.
pub open spec fn is_inference_error(e: AppError, message: Seq<char>) -> bool {
    e matches AppError::Inference(m) && m@ == message
}

/// The load plan from the model file's folder and name, as the path split
/// gave them: a missing folder or name is an error.
pub fn plan_from_parts(
    model: &InstalledModel,
    dir: Option<String>,
    file: Option<String>,
    hf_token: Option<&str>,
) -> (r: Result<LoadPlan, AppError>)
    ensures
        match (dir, file) {
            (None, _) => r matches Err(e) && is_inference_error(e, "Invalid model path"@),
            (Some(_), None) => r matches Err(e) && is_inference_error(
                e,
                "Invalid model filename"@,
            ),
            (Some(d), Some(f)) => r matches Ok(p) && plans_load(p, *model, d, f, hf_token),
        },
{
    match dir {
        None => Err(AppError::Inference(String::from_str("Invalid model path"))),
        Some(d) => match file {
            None => Err(AppError::Inference(String::from_str("Invalid model filename"))),
            Some(f) => Ok(
                LoadPlan {
                    local_dir: d,
                    file_name: f,
                    tok_model_id: tok_model_id_hint(model.repo_id.as_str()),
                    token: token_source(hf_token),
                },
            ),
        },
    }
}

/// Which model is loaded, if any.
#[derive(Debug)]
pub struct ModelSlot {
    pub key: Option<String>,
    pub loaded: bool,
}

/// What `prepare` does, from `before` to `after`, for `model` and `hf_token`
/// with result `r`. When the model is the one held nothing changes and
/// there is nothing to do (`Ok(None)`). Otherwise the slot is emptied, and
/// the model's path is split into folder and name: a missing folder or name
/// is an error, and both give the load plan.
pub open spec fn prepared(
    before: ModelSlot,
    after: ModelSlot,
    model: InstalledModel,
    hf_token: Option<&str>,
    r: Result<Option<LoadPlan>, AppError>,
) -> bool {
    &&& before.holds(model.model_key@) ==> (r matches Ok(None) && after == before)
    &&& !before.holds(model.model_key@) ==> after.key is None && !after.loaded
    &&& !before.holds(model.model_key@) ==> match (
        parent_of(model.local_path@),
        file_name_of(model.local_path@),
    ) {
        (None, _) => r matches Err(e) && is_inference_error(e, "Invalid model path"@),
        (Some(_), None) => r matches Err(e) && is_inference_error(e, "Invalid model filename"@),
        (Some(d), Some(f)) => r matches Ok(Some(p)) && p.local_dir@ == d && p.file_name@ == f
            && plans_tokens(p, model, hf_token),
    }
}

impl ModelSlot {
    /// An empty slot.
    pub fn new() -> (r: ModelSlot)
        ensures
            r.key is None,
            !r.loaded,
    {
        ModelSlot { key: None, loaded: false }
    }

    /// The model with this key is the one loaded.
    pub open spec fn holds(&self, model_key: Seq<char>) -> bool {
        self.loaded && (self.key matches Some(k) && k@ == model_key)
    }

    /// Whether the model with this key is the one loaded.
    pub fn is_current(&self, model_key: &str) -> (r: bool)
        ensures
            r == self.holds(model_key@),
    {
        match &self.key {
            Some(k) => self.loaded && same_text(k.as_str(), model_key),
            None => false,
        }
    }

    /// Gets ready to load `model`. When it is the model loaded already there
    /// is nothing to do (`Ok(None)`); otherwise the slot is emptied and the
    /// load plan comes from splitting the model's path into folder and name.
    pub fn prepare(&mut self, model: &InstalledModel, hf_token: Option<&str>) -> (r: Result<
        Option<LoadPlan>,
        AppError,
    >)
        ensures
            prepared(*old(self), *final(self), *model, hf_token, r),
    {
        if self.is_current(model.model_key.as_str()) {
            return Ok(None);
        }
        self.key = None;
        self.loaded = false;
        let dir = path_parent(model.local_path.as_str());
        let file = path_file_name(model.local_path.as_str());
        match plan_from_parts(model, dir, file, hf_token) {
            Ok(p) => Ok(Some(p)),
            Err(e) => Err(e),
        }
    }

    /// Streaming needs a loaded model: `Inference("Model not loaded")` when
    /// there is none.
    pub fn require_loaded(&self) -> (r: Result<(), AppError>)
        ensures
            r is Ok <==> self.loaded,
            r matches Err(e) ==> is_inference_error(e, "Model not loaded"@),
    {
        if self.loaded {
            Ok(())
        } else {
            Err(AppError::Inference(String::from_str("Model not loaded")))
        }
    }

    /// The model with this key finished loading and is now the one held.
    pub fn finish_load(&mut self, model_key: &str)
        ensures
            final(self).holds(model_key@),
    {
        self.key = Some(String::from_str(model_key));
        self.loaded = true;
    }
}

// ---------------------------------------------------------------------------
// Streaming text in chunks
// ---------------------------------------------------------------------------

/// Text goes out once this many bytes are waiting.
pub const FLUSH_BYTES: usize = 96;

/// Text goes out once this many milliseconds passed since the last chunk.
pub const FLUSH_INTERVAL_MS: u64 = 40;

/// Gathers streamed text and hands it on in chunks that are not too small
/// and not too late.
pub struct StreamChunker {
    pub buffer: String,
    pub last_emit_ms: u64,
    /// All text that came in.
    pub received: Ghost<Seq<char>>,
    /// All text that went out.
    pub emitted: Ghost<Seq<char>>,
}

/// Narrows token counts to `u32`, keeping the low bits as `as` does.
fn narrow(v: Option<usize>) -> (r: Option<u32>)
    ensures
        r == match v {
            Some(x) => Some(x as u32),
            None => None::<u32>,
        },
{
    match v {
        Some(x) => Some(x as u32),
        None => None,
    }
}

/// The text of a chunk handed out, if any.
pub open spec fn out_text(out: Option<String>) -> Seq<char> {
    match out {
        Some(s) => s@,
        None => Seq::empty(),
    }
}

impl StreamChunker {
    /// What went out, followed by what waits, is all that came in.
    pub open spec fn wf(&self) -> bool {
        self.emitted@ + self.buffer@ == self.received@
    }

    /// A chunker with nothing waiting, whose interval starts at `now_ms`.
    pub fn new(now_ms: u64) -> (r: StreamChunker)
        ensures
            r.wf(),
            r.buffer@ == Seq::<char>::empty(),
            r.received@ == Seq::<char>::empty(),
            r.emitted@ == Seq::<char>::empty(),
            r.last_emit_ms == now_ms,
    {
        StreamChunker {
            buffer: String::new(),
            last_emit_ms: now_ms,
            received: Ghost(Seq::empty()),
            emitted: Ghost(Seq::empty()),
        }
    }

    fn flush(&mut self) -> (out: String)
        requires
            old(self).wf(),
        ensures
            final(self).wf(),
            out@ == old(self).buffer@,
            final(self).buffer@ == Seq::<char>::empty(),
            final(self).emitted@ == old(self).emitted@ + out@,
            final(self).received == old(self).received,
            final(self).last_emit_ms == old(self).last_emit_ms,
    {
        let out = copy_string(&self.buffer);
        self.buffer = String::new();
        self.emitted = Ghost(self.emitted@ + out@);
        proof {
            assert(self.emitted@ + self.buffer@ =~= self.received@);
        }
        out
    }

    /// Text arrived at `now_ms`. Everything waiting goes out when it holds at
    /// least `FLUSH_BYTES` bytes of UTF-8 or when `FLUSH_INTERVAL_MS` passed
    /// since the last chunk went out; otherwise it keeps waiting.
    pub fn on_content(&mut self, content: &str, now_ms: u64) -> (out: Option<String>)
        requires
            old(self).wf(),
        ensures
            final(self).wf(),
            final(self).received@ == old(self).received@ + content@,
            final(self).emitted@ == old(self).emitted@ + out_text(out),
            ({
                let waiting = old(self).buffer@ + content@;
                let due = (vstd::utf8::encode_utf8(waiting).len() as usize) >= FLUSH_BYTES || now_ms
                    >= old(self).last_emit_ms + FLUSH_INTERVAL_MS;
                if due {
                    &&& out matches Some(s) && s@ == waiting
                    &&& final(self).buffer@ == Seq::<char>::empty()
                    &&& final(self).last_emit_ms == now_ms
                } else {
                    &&& out is None
                    &&& final(self).buffer@ == waiting
                    &&& final(self).last_emit_ms == old(self).last_emit_ms
                }
            }),
    {
        self.buffer.append(content);
        self.received = Ghost(self.received@ + content@);
        proof {
            assert(self.emitted@ + self.buffer@ =~= self.received@);
        }
        if self.buffer.as_str().len() >= FLUSH_BYTES || now_ms.saturating_sub(self.last_emit_ms)
            >= FLUSH_INTERVAL_MS {
            let out = self.flush();
            self.last_emit_ms = now_ms;
            Some(out)
        } else {
            None
        }
    }

    /// The run was cancelled: whatever waits goes out, if anything.
    pub fn on_cancel(&mut self) -> (out: Option<String>)
        requires
            old(self).wf(),
        ensures
            final(self).wf(),
            final(self).buffer@ == Seq::<char>::empty(),
            final(self).received == old(self).received,
            final(self).emitted@ == final(self).received@,
            final(self).emitted@ == old(self).emitted@ + out_text(out),
            old(self).buffer@.len() == 0 ==> out is None,
            old(self).buffer@.len() > 0 ==> (out matches Some(s) && s@ == old(self).buffer@),
    {
        if self.buffer.as_str().is_empty() {
            proof {
                assert(self.emitted@ =~= self.emitted@ + self.buffer@);
            }
            None
        } else {
            Some(self.flush())
        }
    }

    /// The stream ended without a final answer from the model: whatever waits
    /// goes out, so that every piece of text that came in is handed on.
    pub fn on_end(&mut self) -> (out: Option<String>)
        requires
            old(self).wf(),
        ensures
            final(self).wf(),
            final(self).buffer@ == Seq::<char>::empty(),
            final(self).received == old(self).received,
            final(self).emitted@ == final(self).received@,
            final(self).emitted@ == old(self).emitted@ + out_text(out),
            old(self).buffer@.len() == 0 ==> out is None,
            old(self).buffer@.len() > 0 ==> (out matches Some(s) && s@ == old(self).buffer@),
    {
        self.on_cancel()
    }

    /// The model finished: whatever waits goes out, and the token counts it
    /// reported are narrowed to `u32`.
    pub fn on_done(
        &mut self,
        prompt_tokens: Option<usize>,
        completion_tokens: Option<usize>,
        total_tokens: Option<usize>,
    ) -> (r: (Option<String>, GenUsage))
        requires
            old(self).wf(),
        ensures
            final(self).wf(),
            final(self).buffer@ == Seq::<char>::empty(),
            final(self).received == old(self).received,
            final(self).emitted@ == final(self).received@,
            final(self).emitted@ == old(self).emitted@ + out_text(r.0),
            old(self).buffer@.len() == 0 ==> r.0 is None,
            old(self).buffer@.len() > 0 ==> (r.0 matches Some(s) && s@ == old(self).buffer@),
            r.1.prompt_tokens == narrow_spec(prompt_tokens),
            r.1.completion_tokens == narrow_spec(completion_tokens),
            r.1.total_tokens == narrow_spec(total_tokens),
    {
        let out = self.on_cancel();
        let usage = GenUsage {
            prompt_tokens: narrow(prompt_tokens),
            completion_tokens: narrow(completion_tokens),
            total_tokens: narrow(total_tokens),
        };
        (out, usage)
    }
}

/// A token count narrowed to `u32` as `as` does.
pub open spec fn narrow_spec(v: Option<usize>) -> Option<u32> {
    match v {
        Some(x) => Some(x as u32),
        None => None,
    }
}


/// Once nothing waits, every character that came in went out, in order.
proof fn lemma_chunker_loses_nothing(c: StreamChunker)
    requires
        c.wf(),
        c.buffer@.len() == 0,
    ensures
        c.emitted@ == c.received@,
{
    assert(c.emitted@ + c.buffer@ =~= c.emitted@);
}

/// A step of a chunker from `c` to `d` that took in `input` and handed out
/// `output`.
pub open spec fn chunker_step(c: StreamChunker, d: StreamChunker, input: Seq<char>, output: Seq<char>) -> bool {
    d.received@ == c.received@ + input && d.emitted@ == c.emitted@ + output
}

/// `states` go by steps that took in `ins[i]` and handed out `outs[i]`.
pub open spec fn chunker_steps(states: Seq<StreamChunker>, ins: Seq<Seq<char>>, outs: Seq<Seq<char>>) -> bool {
    forall|i: int|
        #![trigger ins[i]]
        0 <= i < ins.len() ==> chunker_step(states[i], states[i + 1], ins[i], outs[i])
}

/// Along steps that add `ins[i]` to what came in and `outs[i]` to what went
/// out, the last state's counts are the first's plus all inputs and outputs.
proof fn lemma_chunker_steps(
    states: Seq<StreamChunker>,
    ins: Seq<Seq<char>>,
    outs: Seq<Seq<char>>,
)
    requires
        states.len() == ins.len() + 1,
        outs.len() == ins.len(),
        chunker_steps(states, ins, outs),
    ensures
        states.last().received@ == states[0].received@ + ins.flatten(),
        states.last().emitted@ == states[0].emitted@ + outs.flatten(),
    decreases ins.len(),
{
    if ins.len() == 0 {
        assert(states[0].received@ + ins.flatten() =~= states[0].received@);
        assert(states[0].emitted@ + outs.flatten() =~= states[0].emitted@);
    } else {
        let rs = states.drop_first();
        let ri = ins.drop_first();
        let ro = outs.drop_first();
        assert forall|i: int|
            #![trigger ri[i]]
            0 <= i < ri.len() implies chunker_step(rs[i], rs[i + 1], ri[i], ro[i]) by {
            assert(ri[i] == ins[i + 1]);
            assert(rs[i] == states[i + 1]);
            assert(rs[i + 1] == states[i + 2]);
        }
        let first = ins[0];
        assert(chunker_step(states[0], states[1], first, outs[0]));
        lemma_chunker_steps(rs, ri, ro);
        assert(states.last() == rs.last());
        assert(ins.flatten() == ins[0] + ri.flatten());
        assert(outs.flatten() == outs[0] + ro.flatten());
        assert(states[0].received@ + ins.flatten() =~= (states[0].received@ + ins[0]) + ri.flatten());
        assert(states[0].emitted@ + outs.flatten() =~= (states[0].emitted@ + outs[0]) + ro.flatten());
    }
}

/// A whole stream hands on all its text. `states` are a chunker made by
/// `new` and the states after each later call; call `i` took in `ins[i]`
/// (the content given to `on_content`, nothing for `on_cancel`, `on_end` and
/// `on_done`) and handed out `outs[i]` (the text of the chunk it returned, if
/// any), as those calls ensure. Once nothing waits, as after `on_cancel`,
/// `on_end` or `on_done`, the chunks handed out, joined, are exactly the
/// text that came in, joined: nothing lost, nothing added, nothing moved.
pub proof fn lemma_stream_hands_on_all_text(
    states: Seq<StreamChunker>,
    ins: Seq<Seq<char>>,
    outs: Seq<Seq<char>>,
)
    requires
        states.len() == ins.len() + 1,
        outs.len() == ins.len(),
        states[0].received@ == Seq::<char>::empty(),
        states[0].emitted@ == Seq::<char>::empty(),
        chunker_steps(states, ins, outs),
        states.last().wf(),
        states.last().buffer@.len() == 0,
    ensures
        outs.flatten() == ins.flatten(),
{
    lemma_chunker_steps(states, ins, outs);
    lemma_chunker_loses_nothing(states.last());
    assert(states[0].received@ + ins.flatten() =~= ins.flatten());
    assert(states[0].emitted@ + outs.flatten() =~= outs.flatten());
}

/// A load that failed leaves nothing loaded. Whenever `prepare` did not
/// answer `Ok(None)` (the model asked for was not the one held), the slot
/// after it holds no model at all, the one loaded before included. A load
/// that then fails, in `prepare` itself or in building the model, never
/// reaches `finish_load`, so the slot stays so and `require_loaded`, which
/// succeeds exactly on a loaded slot, refuses to stream.
pub proof fn lemma_failed_load_leaves_nothing_loaded(
    before: ModelSlot,
    after: ModelSlot,
    model: InstalledModel,
    hf_token: Option<&str>,
    r: Result<Option<LoadPlan>, AppError>,
)
    requires
        prepared(before, after, model, hf_token, r),
        !(r matches Ok(None)),
    ensures
        forall|k: Seq<char>| !#[trigger] after.holds(k),
        !after.loaded,
        !before.holds(model.model_key@),
{
}

} // verus!
