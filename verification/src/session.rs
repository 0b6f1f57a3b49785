//! What a generation request goes through before an engine is called: the
//! checks on the model, and the admission gate. A request that fails a check
//! is refused with a reason; one that finds no slot free has to wait.

use crate::admission::Permit;
use crate::app_state::AppState;
use crate::engine::EngineHandle;
use crate::model_registry::{lookup, ModelMetadata, ModelStatus};
use vstd::prelude::*;
use vstd::string::*;

verus! {

/// How many tokens a whole reply may take.
pub const GENERATE_TOKEN_BUDGET: usize = 64;

/// How many tokens a streamed reply may take.
pub const STREAM_TOKEN_BUDGET: usize = 128;

/// Why a generation gave no reply.
#[derive(Debug)]
pub enum GenerationError {
    /// No model has that name.
    NotFound,
    /// The model is known, and is not loaded: it has this status.
    NotLoaded(ModelStatus),
    /// The model is marked as loaded, and no engine stands under its name.
    EngineMissing,
    /// The engine was called and failed, for this reason.
    EngineFailure(String),
}

impl GenerationError {
    /// What the client is told, for a request that names the model `model`.
    /// The two kinds of request word a missing engine differently.
    pub open spec fn text(self, model: Seq<char>, streaming: bool) -> Seq<char> {
        match self {
            GenerationError::NotFound => "Error: model `"@ + model + "` not found"@,
            GenerationError::NotLoaded(status) => "Error: model `"@ + model
                + "` is not loaded (status = "@ + status.label() + ")"@,
            GenerationError::EngineMissing => if streaming {
                "Error: no engine instance for `"@ + model + "`"@
            } else {
                "Error: no engine instance for model `"@ + model + "`"@
            },
            GenerationError::EngineFailure(reason) => "Error during inference: "@ + reason@,
        }
    }

    /// The text of the error, as the client reads it.
    pub fn message(&self, model_name: &str, streaming: bool) -> (r: String)
        ensures
            r@ == self.text(model_name@, streaming),
    {
        match self {
            GenerationError::NotFound => {
                let mut out = String::from_str("Error: model `");
                out.append(model_name);
                out.append("` not found");
                out
            },
            GenerationError::NotLoaded(status) => {
                let mut out = String::from_str("Error: model `");
                out.append(model_name);
                out.append("` is not loaded (status = ");
                out.append(status.name());
                out.append(")");
                out
            },
            GenerationError::EngineMissing => {
                let mut out = if streaming {
                    String::from_str("Error: no engine instance for `")
                } else {
                    String::from_str("Error: no engine instance for model `")
                };
                out.append(model_name);
                out.append("`");
                out
            },
            GenerationError::EngineFailure(reason) => {
                let mut out = String::from_str("Error during inference: ");
                out.append(reason.as_str());
                out
            },
        }
    }
}

/// Why a generation for the model `model` is refused before any engine is
/// called, or `None` where it is not: the model has to be known, then loaded,
/// then to have its engine, and the first of these that fails decides.
pub open spec fn refusal(
    registry: Seq<ModelMetadata>,
    engines: Map<Seq<char>, EngineHandle>,
    model: Seq<char>,
) -> Option<GenerationError> {
    match lookup(registry, model) {
        None => Some(GenerationError::NotFound),
        Some(meta) => if meta.status != ModelStatus::Loaded {
            Some(GenerationError::NotLoaded(meta.status))
        } else if !engines.contains_key(model) {
            Some(GenerationError::EngineMissing)
        } else {
            None
        },
    }
}

/// What becomes of a request at the admission gate.
pub enum Admission {
    /// A check failed: the request gets this error and no engine is called.
    Rejected(GenerationError),
    /// Every slot is taken: the request waits until one is given back, and
    /// asks again.
    Suspended,
    /// The request holds a slot, and this is the engine it calls. The permit
    /// goes back through [`end_generation`] when the call has ended, however
    /// it ended.
    Admitted(EngineHandle, Permit),
}

/// What [`begin_generation`] does: from `pre` and the model's name, the state
/// `post` that it leaves and what it returns.
pub open spec fn begin_generation_post(
    pre: &AppState,
    model: Seq<char>,
    post: &AppState,
    r: Admission,
) -> bool {
    &&& post.registry@ == pre.registry@
    &&& post.engines@ == pre.engines@
    &&& post.max_concurrent_infer == pre.max_concurrent_infer
    &&& match refusal(pre.registry@, pre.engines@, model) {
        Some(error) => r matches Admission::Rejected(e) && e == error && post.gate@ == pre.gate@,
        None => if pre.gate@.admits() {
            &&& r matches Admission::Admitted(engine, _)
            &&& engine == pre.engines@[model]
            &&& post.gate@ == pre.gate@.arrive()
        } else {
            r is Suspended && post.gate@ == pre.gate@
        },
    }
}

/// Checks whether a generation for the model `model_name` can start, and
/// returns the engine to call where it can. Nothing is changed.
pub fn validate(state: &AppState, model_name: &str) -> (r: Result<EngineHandle, GenerationError>)
    ensures
        match refusal(state.registry@, state.engines@, model_name@) {
            Some(error) => r matches Err(e) && e == error,
            None => r matches Ok(engine) && engine == state.engines@[model_name@],
        },
{
    match state.registry.get_model(model_name) {
        None => Err(GenerationError::NotFound),
        Some(meta) => {
            if meta.status != ModelStatus::Loaded {
                Err(GenerationError::NotLoaded(meta.status))
            } else {
                match state.get_engine(model_name) {
                    None => Err(GenerationError::EngineMissing),
                    Some(engine) => Ok(engine),
                }
            }
        },
    }
}

/// Brings a request for the model `model_name` to the admission gate. The
/// checks come first: a request that fails one is refused, however many slots
/// are free. A request that passes takes a slot if one is free, and is told to
/// wait if none is.
pub fn begin_generation(state: &mut AppState, model_name: &str) -> (r: Admission)
    ensures
        final(state).wf(),
        begin_generation_post(old(state), model_name@, final(state), r),
{
    proof {
        use_type_invariant(&state.registry);
        use_type_invariant(&state.engines);
        use_type_invariant(&state.gate);
    }
    match validate(state, model_name) {
        Err(error) => Admission::Rejected(error),
        Ok(engine) => match state.gate.try_acquire() {
            Some(permit) => Admission::Admitted(engine, permit),
            None => Admission::Suspended,
        },
    }
}

/// What [`end_generation`] does: one slot is given back, and nothing else
/// changes.
pub open spec fn end_generation_post(pre: &AppState, post: &AppState) -> bool {
    &&& post.registry@ == pre.registry@
    &&& post.engines@ == pre.engines@
    &&& post.max_concurrent_infer == pre.max_concurrent_infer
    &&& post.gate@ == pre.gate@.leave()
}

/// Gives back the slot of a request whose engine call has ended.
pub fn end_generation(state: &mut AppState, permit: Permit)
    ensures
        final(state).wf(),
        end_generation_post(old(state), final(state)),
{
    proof {
        use_type_invariant(&state.registry);
        use_type_invariant(&state.engines);
    }
    state.gate.release(permit);
}

/// What the client reads for the outcome of an engine call: the reply itself,
/// or the failure as text.
pub open spec fn reply_text(outcome: Result<String, String>) -> Seq<char> {
    match outcome {
        Ok(text) => text@,
        Err(reason) => GenerationError::EngineFailure(reason).text(Seq::empty(), false),
    }
}

/// Turns the outcome of an engine call into the text that the client reads. A
/// failure of the engine is reported as text, like any other reply.
pub fn render_generation(outcome: Result<String, String>) -> (r: String)
    ensures
        r@ == reply_text(outcome),
{
    match outcome {
        Ok(text) => text,
        Err(reason) => GenerationError::EngineFailure(reason).message("", false),
    }
}

/// The fragments that are streamed for the outcome of an engine call: those
/// of the reply, or none where the engine failed. A stream reports no engine
/// failure: it ends.
pub open spec fn stream_texts(outcome: Result<Vec<String>, String>) -> Seq<String> {
    match outcome {
        Ok(fragments) => fragments@,
        Err(_) => Seq::empty(),
    }
}

/// Turns the outcome of an engine call into the fragments to stream.
pub fn stream_fragments(outcome: Result<Vec<String>, String>) -> (r: Vec<String>)
    ensures
        r@ == stream_texts(outcome),
{
    match outcome {
        Ok(fragments) => fragments,
        Err(_) => Vec::new(),
    }
}

/// No more requests hold a slot than there are slots, whatever was asked
/// for before: every request that is let through to its engine finds the
/// number of holders below the number of slots, and is counted.
pub proof fn law_admission_is_bounded(pre: AppState, model: Seq<char>, post: AppState, r: Admission)
    requires
        pre.wf(),
        begin_generation_post(&pre, model, &post, r),
    ensures
        post.gate@.bounded(),
        post.gate@.capacity == pre.gate@.capacity,
        r is Admitted ==> pre.gate@.in_flight < pre.gate@.capacity && post.gate@.in_flight
            == pre.gate@.in_flight + 1,
        !(r is Admitted) ==> post.gate@ == pre.gate@,
{
}

/// A request that passes the checks while every slot is taken is told to
/// wait, and nothing changes. Once one holder has given its slot back, the
/// same request is let through, and every slot is taken again.
pub proof fn law_request_waits_for_a_slot(
    pre: AppState,
    model: Seq<char>,
    waiting: AppState,
    first: Admission,
    freed: AppState,
    post: AppState,
    second: Admission,
)
    requires
        pre.wf(),
        pre.gate@.capacity > 0,
        pre.gate@.in_flight == pre.gate@.capacity,
        refusal(pre.registry@, pre.engines@, model) is None,
        begin_generation_post(&pre, model, &waiting, first),
        end_generation_post(&waiting, &freed),
        begin_generation_post(&freed, model, &post, second),
    ensures
        first is Suspended,
        waiting.same_as(&pre),
        second is Admitted,
        post.same_as(&pre),
{
}

} // verus!
