//! The operations that the gateway offers to its transport: health, the list
//! of models, loading a model, and generating text, whole or streamed. Each
//! takes plain values and returns plain values; a failure is part of the
//! response, never a failure of the operation.

use crate::app_state::{load_failed_text, not_built_in_text, not_found_text, AppState};
use crate::engine::{dummy_fragments, dummy_reply, law_stream_matches_reply};
use crate::model_registry::{
    lemma_status_set_keeps_model, lookup, EngineKind, ModelMetadata, ModelStatus,
};
use crate::admission::Permit;
use crate::engine::EngineHandle;
use crate::session::{
    begin_generation, end_generation, end_generation_post, refusal, render_generation, reply_text,
    stream_fragments, stream_texts, Admission, GenerationError, GENERATE_TOKEN_BUDGET,
    STREAM_TOKEN_BUDGET,
};
use crate::text::{concat, texts, without_whitespace, words};
use crate::types::{
    HealthResponse, InferRequest, InferResponse, LoadModelRequest, LoadModelResponse,
    ModelInfoResponse,
};
use vstd::prelude::*;
use vstd::string::*;

verus! {

/// The process is up.
pub fn health() -> (r: HealthResponse)
    ensures
        r.status@ == "ok"@,
{
    HealthResponse { status: String::from_str("ok") }
}

/// `info` shows `meta` to a client: its name, and its status and the kind of
/// its engine by their names.
pub open spec fn shows(info: ModelInfoResponse, meta: ModelMetadata) -> bool {
    &&& info.name@ == meta.name@
    &&& info.status@ == meta.status.label()
    &&& info.engine_kind@ == meta.engine_kind.label()
}

/// Every model of the registry, as a client sees it, in the registry's order.
pub fn list_models(state: &AppState) -> (r: Vec<ModelInfoResponse>)
    ensures
        r@.len() == state.registry@.len(),
        forall|i: int| 0 <= i < r@.len() ==> shows(#[trigger] r@[i], state.registry@[i]),
{
    let models = state.list_models();
    let mut out: Vec<ModelInfoResponse> = Vec::new();
    let mut i: usize = 0;
    while i < models.len()
        invariant
            i <= models.len(),
            out@.len() == i,
            forall|k: int| 0 <= k < i ==> shows(#[trigger] out@[k], models@[k]),
        decreases models.len() - i,
    {
        out.push(
            ModelInfoResponse {
                name: models[i].name.clone(),
                status: String::from_str(models[i].status.name()),
                engine_kind: String::from_str(models[i].engine_kind.name()),
            },
        );
        i = i + 1;
    }
    out
}

/// What a client is told of a model that is loaded: the kind of the engine
/// that stands behind it.
pub open spec fn loaded_text(kind: EngineKind) -> Seq<char> {
    "model loaded ("@ + kind.label() + "Engine)"@
}

/// `response` reports `outcome`, the outcome of loading the model `model`. A
/// model that is loaded is shown with its status; a failure is shown with the
/// status `Error` and its reason.
pub open spec fn reports(
    response: LoadModelResponse,
    model: Seq<char>,
    outcome: Result<ModelMetadata, String>,
) -> bool {
    match outcome {
        Ok(meta) => {
            &&& response.model_name@ == meta.name@
            &&& response.status@ == meta.status.label()
            &&& response.message@ == loaded_text(meta.engine_kind)
        },
        Err(reason) => {
            &&& response.model_name@ == model
            &&& response.status@ == ModelStatus::Error.label()
            &&& response.message@ == reason@
        },
    }
}

/// Puts the outcome of a load into the response for the client.
pub fn load_response(model_name: &str, outcome: Result<ModelMetadata, String>) -> (r:
    LoadModelResponse)
    ensures
        reports(r, model_name@, outcome),
{
    match outcome {
        Ok(meta) => {
            let mut message = String::from_str("model loaded (");
            message.append(meta.engine_kind.name());
            message.append("Engine)");
            LoadModelResponse {
                model_name: meta.name,
                status: String::from_str(meta.status.name()),
                message,
            }
        },
        Err(reason) => LoadModelResponse {
            model_name: String::from_str(model_name),
            status: String::from_str(ModelStatus::Error.name()),
            message: reason,
        },
    }
}

/// What [`load_model`] does: the state changes as a load of the model changes
/// it, and the response reports the outcome of that load.
pub open spec fn load_model_post(
    pre: &AppState,
    model: Seq<char>,
    post: &AppState,
    response: LoadModelResponse,
) -> bool {
    exists|outcome: Result<ModelMetadata, String>|
        #[trigger] AppState::load_model_post(pre, model, post, outcome) && reports(
            response,
            model,
            outcome,
        )
}

/// Loads the model that `req` names, and reports how that went.
pub fn load_model(state: &mut AppState, req: &LoadModelRequest) -> (r: LoadModelResponse)
    ensures
        final(state).wf(),
        load_model_post(old(state), req.model_name@, final(state), r),
{
    let outcome = state.load_model(req.model_name.as_str());
    let ghost told = outcome;
    let r = load_response(req.model_name.as_str(), outcome);
    proof {
        assert(AppState::load_model_post(old(state), req.model_name@, state, told));
    }
    r
}

/// What [`infer`] does. The state is left as it was found: a slot that was
/// taken has been given back. A request that is refused gets the text of the
/// refusal as its output. A request that passes the checks is answered if a
/// slot is free, with what the engine's outcome renders to, which for the
/// reference engine is its reply; it gets no response if no slot is free, and
/// has to wait.
pub open spec fn infer_post(
    pre: &AppState,
    model: Seq<char>,
    prompt: Seq<char>,
    post: &AppState,
    r: Option<InferResponse>,
) -> bool {
    &&& post.same_as(pre)
    &&& match refusal(pre.registry@, pre.engines@, model) {
        Some(error) => {
            &&& r matches Some(response)
            &&& response.model_name@ == model
            &&& response.output@ == error.text(model, false)
        },
        None => if pre.gate@.admits() {
            &&& r matches Some(response)
            &&& response.model_name@ == model
            &&& pre.engines@[model].known_reply(prompt) matches Some(text) ==> response.output@
                == text
        } else {
            r is None
        },
    }
}

/// What is to be done about a request for a whole reply.
pub enum InferStep {
    /// The request was refused: this is its response, and no engine is
    /// called.
    Done(InferResponse),
    /// Every slot is taken: the request is to be made again when a slot has
    /// been given back.
    Wait,
    /// The request holds a slot. This engine is to be called, and its outcome
    /// goes to [`finish_infer`] with the permit, whatever it is.
    Call(EngineHandle, Permit),
}

/// What [`begin_infer`] does: it changes nothing but the admission gate, and
/// that only where it lets the request through.
pub open spec fn begin_infer_post(
    pre: &AppState,
    model: Seq<char>,
    post: &AppState,
    r: InferStep,
) -> bool {
    &&& post.registry@ == pre.registry@
    &&& post.engines@ == pre.engines@
    &&& post.max_concurrent_infer == pre.max_concurrent_infer
    &&& match refusal(pre.registry@, pre.engines@, model) {
        Some(error) => {
            &&& r matches InferStep::Done(response)
            &&& response.model_name@ == model
            &&& response.output@ == error.text(model, false)
            &&& post.gate@ == pre.gate@
        },
        None => if pre.gate@.admits() {
            &&& r matches InferStep::Call(engine, _)
            &&& engine == pre.engines@[model]
            &&& post.gate@ == pre.gate@.arrive()
        } else {
            r is Wait && post.gate@ == pre.gate@
        },
    }
}

/// The first half of [`infer`]: checks the request and finds it a slot.
pub fn begin_infer(state: &mut AppState, req: &InferRequest) -> (r: InferStep)
    ensures
        final(state).wf(),
        begin_infer_post(old(state), req.model_name@, final(state), r),
{
    let model_name = req.model_name.as_str();
    match begin_generation(state, model_name) {
        Admission::Rejected(error) => InferStep::Done(
            InferResponse {
                model_name: req.model_name.clone(),
                output: error.message(model_name, false),
            },
        ),
        Admission::Suspended => InferStep::Wait,
        Admission::Admitted(engine, permit) => InferStep::Call(engine, permit),
    }
}

/// The second half of [`infer`]: gives the slot back and puts the outcome of
/// the engine call into the response, a failure as text like any reply.
pub fn finish_infer(
    state: &mut AppState,
    req: &InferRequest,
    permit: Permit,
    outcome: Result<String, String>,
) -> (r: InferResponse)
    ensures
        final(state).wf(),
        end_generation_post(old(state), final(state)),
        r.model_name@ == req.model_name@,
        r.output@ == reply_text(outcome),
{
    end_generation(state, permit);
    InferResponse { model_name: req.model_name.clone(), output: render_generation(outcome) }
}

/// Generates the whole reply to the prompt of `req` with the engine of the
/// model that `req` names. The request is checked, takes a slot, calls the
/// engine and gives the slot back, whatever the engine returned. `None` means
/// that every slot was taken: nothing was done, and the request is to be made
/// again when a slot has been given back.
pub fn infer(state: &mut AppState, req: &InferRequest) -> (r: Option<InferResponse>)
    ensures
        final(state).wf(),
        infer_post(old(state), req.model_name@, req.prompt@, final(state), r),
{
    proof {
        use_type_invariant(&state.gate);
    }
    match begin_infer(state, req) {
        InferStep::Done(response) => Some(response),
        InferStep::Wait => None,
        InferStep::Call(engine, permit) => {
            let outcome = engine.generate(req.prompt.as_str(), GENERATE_TOKEN_BUDGET);
            Some(finish_infer(state, req, permit, outcome))
        },
    }
}

/// What a client reads that asks the streaming operation for a reply that is
/// not streamed.
pub const NOT_STREAMING: &'static str = "stream=false not supported on this endpoint";

/// What [`infer_stream_get`] does. The state is left as it was found. A
/// request that is refused gets one fragment, the text of the refusal. A
/// request that passes the checks gets the fragments of its stream if a slot
/// is free, which for the reference engine are the fragments known of it; it
/// gets nothing if no slot is free, and has to wait.
pub open spec fn stream_post(
    pre: &AppState,
    model: Seq<char>,
    prompt: Seq<char>,
    post: &AppState,
    r: Option<Vec<String>>,
) -> bool {
    &&& post.same_as(pre)
    &&& match refusal(pre.registry@, pre.engines@, model) {
        Some(error) => r matches Some(fragments) && texts(fragments@) == seq![
            error.text(model, true),
        ],
        None => if pre.gate@.admits() {
            &&& r matches Some(fragments)
            &&& pre.engines@[model].known_fragments(prompt) matches Some(known) ==> texts(
                fragments@,
            ) == known
        } else {
            r is None
        },
    }
}

/// What is to be done about a request for a streamed reply.
pub enum StreamStep {
    /// The request was refused: these fragments are its whole stream, and no
    /// engine is called.
    Done(Vec<String>),
    /// Every slot is taken: the request is to be made again when a slot has
    /// been given back.
    Wait,
    /// The request holds a slot. This engine is to be called; the fragments
    /// of its outcome are the stream, and the permit goes back when the last
    /// of them is sent or the sending is given up.
    Call(EngineHandle, Permit),
}

/// What [`begin_stream`] does: it changes nothing but the admission gate, and
/// that only where it lets the request through. A request that does not ask
/// for a stream is told so before anything else is looked at.
pub open spec fn begin_stream_post(
    pre: &AppState,
    model: Seq<char>,
    stream: bool,
    post: &AppState,
    r: StreamStep,
) -> bool {
    &&& post.registry@ == pre.registry@
    &&& post.engines@ == pre.engines@
    &&& post.max_concurrent_infer == pre.max_concurrent_infer
    &&& if !stream {
        &&& r matches StreamStep::Done(fragments)
        &&& texts(fragments@) == seq![NOT_STREAMING@]
        &&& post.gate@ == pre.gate@
    } else {
        match refusal(pre.registry@, pre.engines@, model) {
            Some(error) => {
                &&& r matches StreamStep::Done(fragments)
                &&& texts(fragments@) == seq![error.text(model, true)]
                &&& post.gate@ == pre.gate@
            },
            None => if pre.gate@.admits() {
                &&& r matches StreamStep::Call(engine, _)
                &&& engine == pre.engines@[model]
                &&& post.gate@ == pre.gate@.arrive()
            } else {
                r is Wait && post.gate@ == pre.gate@
            },
        }
    }
}

/// The first half of a stream: checks the request and finds it a slot.
pub fn begin_stream(state: &mut AppState, model_name: &str, stream: bool) -> (r: StreamStep)
    ensures
        final(state).wf(),
        begin_stream_post(old(state), model_name@, stream, final(state), r),
{
    if !stream {
        proof {
            use_type_invariant(&state.registry);
            use_type_invariant(&state.engines);
            use_type_invariant(&state.gate);
        }
        let mut fragments: Vec<String> = Vec::new();
        fragments.push(String::from_str(NOT_STREAMING));
        assert(texts(fragments@) == seq![NOT_STREAMING@]);
        return StreamStep::Done(fragments);
    }
    match begin_generation(state, model_name) {
        Admission::Rejected(error) => {
            let mut fragments: Vec<String> = Vec::new();
            fragments.push(error.message(model_name, true));
            assert(texts(fragments@) == seq![error.text(model_name@, true)]);
            StreamStep::Done(fragments)
        },
        Admission::Suspended => StreamStep::Wait,
        Admission::Admitted(engine, permit) => StreamStep::Call(engine, permit),
    }
}

/// The second half of a stream that nothing cuts short: gives the slot back
/// and returns the fragments of the outcome of the engine call, which are
/// none where the engine failed.
pub fn finish_stream(
    state: &mut AppState,
    permit: Permit,
    outcome: Result<Vec<String>, String>,
) -> (r: Vec<String>)
    ensures
        final(state).wf(),
        end_generation_post(old(state), final(state)),
        r@ == stream_texts(outcome),
{
    let fragments = stream_fragments(outcome);
    end_generation(state, permit);
    fragments
}

/// Streams the reply to the prompt of `req`: the fragments that reach a
/// client which stays to the end. With `stream` unset the one fragment says
/// that the operation only streams, and nothing else is looked at.
pub fn infer_stream(state: &mut AppState, req: &InferRequest, stream: bool) -> (r: Option<
    Vec<String>,
>)
    ensures
        final(state).wf(),
        !stream ==> final(state).same_as(old(state)),
        !stream ==> (r matches Some(fragments) && texts(fragments@) == seq![NOT_STREAMING@]),
        stream ==> stream_post(old(state), req.model_name@, req.prompt@, final(state), r),
{
    proof {
        use_type_invariant(&state.gate);
    }
    match begin_stream(state, req.model_name.as_str(), stream) {
        StreamStep::Done(fragments) => Some(fragments),
        StreamStep::Wait => None,
        StreamStep::Call(engine, permit) => {
            let outcome = engine.generate_stream(req.prompt.as_str(), STREAM_TOKEN_BUDGET);
            Some(finish_stream(state, permit, outcome))
        },
    }
}

/// Streams the reply to `prompt` with the engine of the model `model_name`:
/// the fragments that reach a client which stays to the end. The request is
/// checked, takes a slot, calls the engine and gives the slot back. An engine
/// that fails ends the stream without a fragment. `None` means that every
/// slot was taken: nothing was done, and the request is to be made again when
/// a slot has been given back.
pub fn infer_stream_get(state: &mut AppState, model_name: &str, prompt: &str) -> (r: Option<
    Vec<String>,
>)
    ensures
        final(state).wf(),
        stream_post(old(state), model_name@, prompt@, final(state), r),
{
    proof {
        use_type_invariant(&state.gate);
    }
    match begin_stream(state, model_name, true) {
        StreamStep::Done(fragments) => Some(fragments),
        StreamStep::Wait => None,
        StreamStep::Call(engine, permit) => {
            let outcome = engine.generate_stream(prompt, STREAM_TOKEN_BUDGET);
            Some(finish_stream(state, permit, outcome))
        },
    }
}

/// A request that names no model of the registry is told so, whatever the
/// admission gate holds and whatever engines exist: generating gives the text that the
/// model is not found, whole or as the one fragment of the stream, and
/// loading gives the status `Error` with the reason that the model is not
/// found. Nothing changes.
pub proof fn law_unknown_model_is_not_found(
    pre: AppState,
    model: Seq<char>,
    prompt: Seq<char>,
    after_infer: AppState,
    reply: Option<InferResponse>,
    after_stream: AppState,
    stream: Option<Vec<String>>,
    after_load: AppState,
    loaded: LoadModelResponse,
)
    requires
        lookup(pre.registry@, model) is None,
        infer_post(&pre, model, prompt, &after_infer, reply),
        stream_post(&pre, model, prompt, &after_stream, stream),
        load_model_post(&pre, model, &after_load, loaded),
    ensures
        reply matches Some(response) && response.output@ == GenerationError::NotFound.text(
            model,
            false,
        ),
        stream matches Some(fragments) && texts(fragments@) == seq![
            GenerationError::NotFound.text(model, true),
        ],
        loaded.model_name@ == model,
        loaded.status@ == ModelStatus::Error.label(),
        loaded.message@ == not_found_text(model),
        after_infer.same_as(&pre),
        after_stream.same_as(&pre),
        after_load.same_as(&pre),
{
}

/// A request for a model that is known and not loaded is refused with the
/// model's status, whatever that status is, whatever the admission gate holds and
/// whatever engines exist. No slot is taken and nothing changes, and since the
/// output is the text of the refusal, no engine had a part in it.
pub proof fn law_unloaded_model_is_refused(
    pre: AppState,
    model: Seq<char>,
    prompt: Seq<char>,
    after_infer: AppState,
    reply: Option<InferResponse>,
    after_stream: AppState,
    stream: Option<Vec<String>>,
)
    requires
        lookup(pre.registry@, model) is Some,
        lookup(pre.registry@, model)->0.status != ModelStatus::Loaded,
        infer_post(&pre, model, prompt, &after_infer, reply),
        stream_post(&pre, model, prompt, &after_stream, stream),
    ensures
        reply matches Some(response) && response.output@ == GenerationError::NotLoaded(
            lookup(pre.registry@, model)->0.status,
        ).text(model, false),
        stream matches Some(fragments) && texts(fragments@) == seq![
            GenerationError::NotLoaded(lookup(pre.registry@, model)->0.status).text(model, true),
        ],
        after_infer.same_as(&pre),
        after_stream.same_as(&pre),
{
}

/// A load never leaves a model as loading. Where it succeeds the model is
/// loaded; where it fails, because the library does not build the model's
/// engine, the model is marked as failed and the reason is given.
pub proof fn law_failed_load_is_marked(
    pre: AppState,
    model: Seq<char>,
    post: AppState,
    outcome: Result<ModelMetadata, String>,
)
    requires
        pre.wf(),
        lookup(pre.registry@, model) is Some,
        AppState::load_model_post(&pre, model, &post, outcome),
    ensures
        lookup(post.registry@, model) is Some,
        lookup(post.registry@, model)->0.status != ModelStatus::Loading,
        outcome is Err ==> lookup(post.registry@, model)->0.status == ModelStatus::Error
            && outcome->Err_0@ == load_failed_text(
            model,
            not_built_in_text(lookup(pre.registry@, model)->0.engine_kind),
        ),
        outcome is Ok ==> lookup(post.registry@, model)->0.status == ModelStatus::Loaded,
{
    let meta = lookup(pre.registry@, model)->0;
    if meta.status != ModelStatus::Loaded {
        if meta.engine_kind == EngineKind::Dummy {
            lemma_status_set_keeps_model(
                pre.registry@,
                model,
                ModelStatus::Loaded,
                post.registry@,
            );
        } else {
            lemma_status_set_keeps_model(
                pre.registry@,
                model,
                ModelStatus::Error,
                post.registry@,
            );
        }
    }
}

/// The reference engine from end to end. Loading a model of the reference
/// kind that is not loaded succeeds. After that, while a slot is free, the
/// reply to a prompt is the prompt in upper case behind the model's tag, the
/// stream for it is the marker followed by the words of that reply, and the
/// fragments after the marker, written one after another, are the reply
/// without its whitespace.
pub proof fn law_reference_engine_end_to_end(
    pre: AppState,
    model: Seq<char>,
    prompt: Seq<char>,
    loaded: AppState,
    outcome: Result<ModelMetadata, String>,
    after_infer: AppState,
    reply: Option<InferResponse>,
    after_stream: AppState,
    stream: Option<Vec<String>>,
)
    requires
        pre.wf(),
        lookup(pre.registry@, model) is Some,
        lookup(pre.registry@, model)->0.engine_kind == EngineKind::Dummy,
        lookup(pre.registry@, model)->0.status != ModelStatus::Loaded,
        pre.gate@.admits(),
        AppState::load_model_post(&pre, model, &loaded, outcome),
        infer_post(&loaded, model, prompt, &after_infer, reply),
        stream_post(&loaded, model, prompt, &after_stream, stream),
    ensures
        outcome is Ok,
        outcome->Ok_0.status == ModelStatus::Loaded,
        reply matches Some(response) && response.model_name@ == model && response.output@
            == dummy_reply(model, prompt),
        stream matches Some(fragments) && texts(fragments@) == dummy_fragments(model, prompt),
        stream matches Some(fragments) && reply matches Some(response) && texts(
            fragments@,
        ).skip(1) == words(response.output@) && concat(texts(fragments@).skip(1))
            == without_whitespace(response.output@),
        after_infer.same_as(&loaded),
        after_stream.same_as(&loaded),
{
    lemma_status_set_keeps_model(
        pre.registry@,
        model,
        ModelStatus::Loaded,
        loaded.registry@,
    );
    law_stream_matches_reply(model, prompt);
}

} // verus!
