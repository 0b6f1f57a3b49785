//! The engine capability, and the reference engine that implements it without
//! any model behind it.

use crate::model_registry::EngineKind;
use crate::text::{
    concat, is_white_space, law_unbroken_text_is_one_word, law_whitespace_separates,
    lemma_words_concat, split_words, texts, uppercase, without_whitespace, words,
};
use std::sync::Arc;
use vstd::prelude::*;
use vstd::string::*;

verus! {

/// How long the reference engine lets a client wait, in milliseconds: before
/// a whole reply, and after each fragment of a streamed one.
pub const DUMMY_DELAY_MS: u64 = 50;

/// How long an engine backed by the ML runtime pauses after each fragment of
/// a streamed reply, in milliseconds.
pub const CANDLE_FRAGMENT_DELAY_MS: u64 = 30;

/// The pauses that go with an engine's output. The library never sleeps: the
/// host waits `reply_delay_ms` before it hands out a whole reply, and
/// `fragment_delay_ms` after each fragment that it has sent.
#[derive(Clone, Copy, Debug, PartialEq, Eq, Structural)]
pub struct Pacing {
    pub reply_delay_ms: u64,
    pub fragment_delay_ms: u64,
}

/// The pauses that go with the output of an engine of kind `kind`.
pub open spec fn pacing(kind: EngineKind) -> Pacing {
    match kind {
        EngineKind::Dummy => Pacing {
            reply_delay_ms: DUMMY_DELAY_MS,
            fragment_delay_ms: DUMMY_DELAY_MS,
        },
        EngineKind::Candle => Pacing {
            reply_delay_ms: 0,
            fragment_delay_ms: CANDLE_FRAGMENT_DELAY_MS,
        },
    }
}

/// The pauses that go with the output of an engine of kind `kind`.
pub fn pacing_of(kind: EngineKind) -> (r: Pacing)
    ensures
        r == pacing(kind),
{
    match kind {
        EngineKind::Dummy => Pacing {
            reply_delay_ms: DUMMY_DELAY_MS,
            fragment_delay_ms: DUMMY_DELAY_MS,
        },
        EngineKind::Candle => Pacing {
            reply_delay_ms: 0,
            fragment_delay_ms: CANDLE_FRAGMENT_DELAY_MS,
        },
    }
}

/// What generates text for one model. The gateway makes no assumption on what
/// an engine returns: a reply is passed on as it is, and a failure is reported
/// to the client as text.
pub trait InferenceEngine: Send + Sync {
    /// The whole reply to `prompt`, bounded by `max_tokens`, or why there is
    /// none.
    fn generate(&self, prompt: &str, max_tokens: usize) -> Result<String, String>;

    /// The reply to `prompt` as the fragments to stream, in the order in which
    /// they are to be sent, or why there is none.
    fn generate_stream(&self, prompt: &str, max_tokens: usize) -> Result<Vec<String>, String>;
}

/// `text` behind the tag that the reference engine puts before every reply
/// for the model `model`.
pub open spec fn tagged(model: Seq<char>, text: Seq<char>) -> Seq<char> {
    "["@ + model + " DUMMY] "@ + text
}

/// The reply of the reference engine for the model `model` to `prompt`: the
/// model's tag, then the prompt in upper case.
pub open spec fn dummy_reply(model: Seq<char>, prompt: Seq<char>) -> Seq<char> {
    tagged(model, uppercase(prompt))
}

/// The fragment that opens every stream of the reference engine and names the
/// model.
pub open spec fn dummy_marker(model: Seq<char>) -> Seq<char> {
    "[model="@ + model + "]"@
}

/// The fragments that the reference engine streams for `prompt`: the marker,
/// then the words of its reply.
pub open spec fn dummy_fragments(model: Seq<char>, prompt: Seq<char>) -> Seq<Seq<char>> {
    seq![dummy_marker(model)] + words(dummy_reply(model, prompt))
}

/// The reference engine: it answers every prompt with the prompt itself in
/// upper case, tagged with the model's name. It cannot fail.
pub struct DummyEngine {
    pub model_name: String,
}

impl DummyEngine {
    pub fn new(model_name: &str) -> (r: Arc<Self>)
        ensures
            r.model_name@ == model_name@,
    {
        Arc::new(DummyEngine { model_name: model_name.to_owned() })
    }

    /// Puts the engine's tag before `text`.
    pub fn tag(&self, text: &str) -> (r: String)
        ensures
            r@ == tagged(self.model_name@, text@),
    {
        let mut out = String::from_str("[");
        out.append(self.model_name.as_str());
        out.append(" DUMMY] ");
        out.append(text);
        out
    }

    /// Puts the fragment that names the model before `pieces`.
    pub fn mark(&self, pieces: Vec<String>) -> (r: Vec<String>)
        ensures
            texts(r@) == seq![dummy_marker(self.model_name@)] + texts(pieces@),
    {
        let mut marker = String::from_str("[model=");
        marker.append(self.model_name.as_str());
        marker.append("]");
        let mut fragments = pieces;
        fragments.insert(0, marker);
        assert(texts(fragments@) == seq![dummy_marker(self.model_name@)] + texts(pieces@));
        fragments
    }
}

impl InferenceEngine for DummyEngine {
    fn generate(&self, prompt: &str, max_tokens: usize) -> (r: Result<String, String>)
        ensures
            r matches Ok(text) && text@ == dummy_reply(self.model_name@, prompt@),
    {
        let upper = prompt.to_uppercase();
        Ok(self.tag(upper.as_str()))
    }

    fn generate_stream(&self, prompt: &str, max_tokens: usize) -> (r: Result<Vec<String>, String>)
        ensures
            r matches Ok(fragments) && texts(fragments@) == dummy_fragments(
                self.model_name@,
                prompt@,
            ),
    {
        let upper = prompt.to_uppercase();
        let full = self.tag(upper.as_str());
        Ok(self.mark(split_words(full.as_str())))
    }
}

/// `Arc::clone` returns another pointer to the same value, so what it returns
/// equals what it was given.
#[verifier::external_body]
fn share_arc<T>(shared: &Arc<T>) -> (r: Arc<T>)
    ensures
        r == *shared,
{
    Arc::clone(shared)
}

/// `engine` as an engine of no known kind: the value that a handle to a hosted
/// engine holds.
pub open spec fn hosted<E: InferenceEngine + 'static>(engine: E) -> Box<dyn InferenceEngine> {
    Box::new(engine)
}

/// A shared handle to one engine. Every handle that
/// [`share`](EngineHandle::share) hands out leads to the same engine.
pub enum EngineHandle {
    /// The reference engine, which the library builds itself.
    Dummy(Arc<DummyEngine>),
    /// An engine that the host has built. The library calls it and knows
    /// nothing of what it returns.
    Hosted(Arc<Box<dyn InferenceEngine>>),
}

impl EngineHandle {
    /// The whole reply that the engine is known to give to `prompt`: the
    /// reference engine's is known, a hosted engine's is not.
    pub open spec fn known_reply(self, prompt: Seq<char>) -> Option<Seq<char>> {
        match self {
            EngineHandle::Dummy(engine) => Some(dummy_reply(engine.model_name@, prompt)),
            EngineHandle::Hosted(_) => None,
        }
    }

    /// The fragments that the engine is known to stream for `prompt`: the
    /// reference engine's are known, a hosted engine's are not.
    pub open spec fn known_fragments(self, prompt: Seq<char>) -> Option<Seq<Seq<char>>> {
        match self {
            EngineHandle::Dummy(engine) => Some(dummy_fragments(engine.model_name@, prompt)),
            EngineHandle::Hosted(_) => None,
        }
    }

    /// The first handle to `engine`, an engine of the host's: the handle
    /// holds that engine, as an engine of no known kind.
    pub fn new<E: InferenceEngine + 'static>(engine: E) -> (r: Self)
        ensures
            r matches EngineHandle::Hosted(held) && held == hosted(engine),
    {
        let boxed: Box<dyn InferenceEngine> = Box::new(engine);
        EngineHandle::Hosted(Arc::new(boxed))
    }

    /// The first handle to a new reference engine for the model
    /// `model_name`.
    pub fn dummy(model_name: &str) -> (r: Self)
        ensures
            r matches EngineHandle::Dummy(engine) && engine.model_name@ == model_name@,
    {
        EngineHandle::Dummy(DummyEngine::new(model_name))
    }

    /// Another handle to the same engine.
    pub fn share(&self) -> (r: Self)
        ensures
            r == *self,
    {
        match self {
            EngineHandle::Dummy(engine) => EngineHandle::Dummy(share_arc(engine)),
            EngineHandle::Hosted(engine) => EngineHandle::Hosted(share_arc(engine)),
        }
    }

    /// What the engine replies to `prompt`. The reference engine gives the
    /// reply that is known of it; a hosted engine gives what it gives.
    pub fn generate(&self, prompt: &str, max_tokens: usize) -> (r: Result<String, String>)
        ensures
            self.known_reply(prompt@) matches Some(text) ==> (r matches Ok(reply) && reply@
                == text),
    {
        match self {
            EngineHandle::Dummy(engine) => engine.generate(prompt, max_tokens),
            EngineHandle::Hosted(engine) => engine.generate(prompt, max_tokens),
        }
    }

    /// What the engine streams for `prompt`. The reference engine gives the
    /// fragments that are known of it; a hosted engine gives what it gives.
    pub fn generate_stream(&self, prompt: &str, max_tokens: usize) -> (r: Result<
        Vec<String>,
        String,
    >)
        ensures
            self.known_fragments(prompt@) matches Some(fragments) ==> (r matches Ok(streamed)
                && texts(streamed@) == fragments),
    {
        match self {
            EngineHandle::Dummy(engine) => engine.generate_stream(prompt, max_tokens),
            EngineHandle::Hosted(engine) => engine.generate_stream(prompt, max_tokens),
        }
    }
}

/// What the reference engine streams is what it replies: after the marker, the
/// fragments are the words of the whole reply, in order, and written one after
/// another they are the reply without its whitespace.
pub proof fn law_stream_matches_reply(model: Seq<char>, prompt: Seq<char>)
    ensures
        dummy_fragments(model, prompt).len() >= 1,
        dummy_fragments(model, prompt)[0] == dummy_marker(model),
        dummy_fragments(model, prompt).skip(1) == words(dummy_reply(model, prompt)),
        concat(dummy_fragments(model, prompt).skip(1)) == without_whitespace(
            dummy_reply(model, prompt),
        ),
{
    lemma_words_concat(dummy_reply(model, prompt));
    assert(dummy_fragments(model, prompt).skip(1) == words(dummy_reply(model, prompt)));
}

/// The stream of a model whose name holds no whitespace: the marker, the
/// opening bracket with the model's name, the closing word of the tag, and
/// then the words of the prompt in upper case.
pub proof fn law_stream_names_the_model(model: Seq<char>, prompt: Seq<char>)
    requires
        forall|i: int| 0 <= i < model.len() ==> !is_white_space(#[trigger] model[i]),
    ensures
        dummy_fragments(model, prompt) == seq![dummy_marker(model), "["@ + model, "DUMMY]"@]
            + words(uppercase(prompt)),
{
    reveal_strlit("[");
    reveal_strlit(" DUMMY] ");
    reveal_strlit("DUMMY]");
    let text = uppercase(prompt);
    let head = "["@ + model;
    let tag = "DUMMY]"@;
    assert(tagged(model, text) == head.push(' ') + (tag.push(' ') + text));
    assert(is_white_space(' '));
    assert forall|i: int| 0 <= i < head.len() implies !is_white_space(#[trigger] head[i]) by {
        if i > 0 {
            assert(head[i] == model[i - 1]);
        }
    }
    law_whitespace_separates(head, ' ', tag.push(' ') + text);
    law_whitespace_separates(tag, ' ', text);
    law_unbroken_text_is_one_word(head);
    law_unbroken_text_is_one_word(tag);
    assert(words(tagged(model, text)) == seq![head, tag] + words(text));
    assert(seq![dummy_marker(model)] + (seq![head, tag] + words(text)) == seq![
        dummy_marker(model),
        head,
        tag,
    ] + words(text));
}

} // verus!
