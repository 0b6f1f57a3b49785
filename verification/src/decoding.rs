//! Token-by-token decoding with a quantized llama model: how much of the
//! prompt goes in, when the sampling stops, and what comes out. The tokenizer,
//! the model and the sampler are the caller's, and are called as functions:
//! what they compute is not looked into.

use candle_transformers::models::quantized_llama::MAX_SEQ_LEN;
use vstd::prelude::*;
use vstd::string::*;

verus! {

/// The longest sequence that the model takes.
pub const SEQUENCE_LIMIT: usize = 4096;

/// The constant `MAX_SEQ_LEN` of `quantized_llama`, which is
/// [`SEQUENCE_LIMIT`].
#[verifier::external_body]
fn max_sequence_length() -> (r: usize)
    ensures
        r == SEQUENCE_LIMIT,
{
    MAX_SEQ_LEN
}

/// How many positions of the sequence are kept free of prompt and samples.
pub const SEQUENCE_MARGIN: usize = 10;

/// The seed that every decoding starts its sampler from.
pub const SAMPLING_SEED: u64 = 42;

/// The text of the token that ends a reply, as the vocabulary names it.
pub const EOS_TEXT: &'static str = "</s>";

/// The token that ends a reply where the vocabulary does not name one.
pub const DEFAULT_EOS_TOKEN: u32 = 0;

/// The position of its sequence at which every run of the model starts.
pub const MODEL_POSITION: usize = 0;

/// Why a decoding gave no tokens.
#[derive(Debug)]
pub enum DecodeError {
    /// There was no prompt token to start from.
    EmptyPrompt,
    /// The budget fills the sequence and leaves no room for a prompt token.
    NoRoom,
    /// A run of the model, or the sampling from what it gave, failed with
    /// this text.
    Runtime(String),
}

impl DecodeError {
    /// The error as text.
    pub open spec fn text(self) -> Seq<char> {
        match self {
            DecodeError::EmptyPrompt => "empty prompt"@,
            DecodeError::NoRoom => "token budget leaves no room for the prompt"@,
            DecodeError::Runtime(text) => text@,
        }
    }

    /// The error as text.
    pub fn message(&self) -> (r: String)
        ensures
            r@ == self.text(),
    {
        match self {
            DecodeError::EmptyPrompt => String::from_str("empty prompt"),
            DecodeError::NoRoom => String::from_str("token budget leaves no room for the prompt"),
            DecodeError::Runtime(text) => text.clone(),
        }
    }
}

/// The prompt as the model is given it: between the marks of an instruction.
pub open spec fn instruction(prompt: Seq<char>) -> Seq<char> {
    "[INST] "@ + prompt + " [/INST]"@
}

/// Wraps `prompt` in the marks of an instruction.
pub fn instruct_prompt(prompt: &str) -> (r: String)
    ensures
        r@ == instruction(prompt@),
{
    let mut out = String::from_str("[INST] ");
    out.append(prompt);
    out.append(" [/INST]");
    out
}

/// The end-of-sequence token: the one that the vocabulary has for
/// [`EOS_TEXT`], or [`DEFAULT_EOS_TOKEN`] where it has none.
pub open spec fn end_token(named: Option<u32>) -> u32 {
    match named {
        Some(token) => token,
        None => DEFAULT_EOS_TOKEN,
    }
}

/// The end-of-sequence token: the one that the vocabulary has for
/// [`EOS_TEXT`], or [`DEFAULT_EOS_TOKEN`] where it has none.
pub fn eos_token(named: Option<u32>) -> (r: u32)
    ensures
        r == end_token(named),
{
    match named {
        Some(token) => token,
        None => DEFAULT_EOS_TOKEN,
    }
}

/// How many tokens are sampled after the first one, at most, for a budget of
/// `max_tokens`.
pub open spec fn sample_budget(max_tokens: nat) -> nat {
    if max_tokens == 0 {
        0
    } else {
        (max_tokens - 1) as nat
    }
}

/// How many prompt tokens go into the model at most: what the sequence holds
/// beside its margin and the samples to come.
pub open spec fn room(max_tokens: nat) -> nat {
    if sample_budget(max_tokens) >= SEQUENCE_LIMIT - SEQUENCE_MARGIN {
        0
    } else {
        (SEQUENCE_LIMIT - SEQUENCE_MARGIN - sample_budget(max_tokens)) as nat
    }
}

/// The part of the prompt that goes into the model: the whole prompt where it
/// fits into the room, and else its last tokens, as many as the room holds.
pub open spec fn window(prompt: Seq<u32>, max_tokens: nat) -> Seq<u32> {
    if prompt.len() > room(max_tokens) {
        prompt.skip(prompt.len() - room(max_tokens))
    } else {
        prompt
    }
}

/// Fits the prompt to the model: returns [`window`] of it.
pub fn fit_window(prompt_tokens: Vec<u32>, max_tokens: usize) -> (r: Vec<u32>)
    ensures
        r@ == window(prompt_tokens@, max_tokens as nat),
{
    let to_sample = if max_tokens == 0 {
        0
    } else {
        max_tokens - 1
    };
    let limit = max_sequence_length() - SEQUENCE_MARGIN;
    let room = if to_sample >= limit {
        0
    } else {
        limit - to_sample
    };
    if prompt_tokens.len() <= room {
        return prompt_tokens;
    }
    let first = prompt_tokens.len() - room;
    let mut kept: Vec<u32> = Vec::new();
    let mut i: usize = first;
    while i < prompt_tokens.len()
        invariant
            first <= i <= prompt_tokens.len(),
            kept@ == prompt_tokens@.subrange(first as int, i as int),
        decreases prompt_tokens.len() - i,
    {
        kept.push(prompt_tokens[i]);
        assert(prompt_tokens@.subrange(first as int, i + 1) == prompt_tokens@.subrange(
            first as int,
            i as int,
        ).push(prompt_tokens@[i as int]));
        i = i + 1;
    }
    assert(prompt_tokens@.subrange(first as int, prompt_tokens@.len() as int)
        == prompt_tokens@.skip(first as int));
    kept
}

/// What a decoding is, mathematically: the fitted prompt, the samples that
/// were kept, and whether more are to come.
pub struct DecodingView {
    pub window: Seq<u32>,
    pub kept: Seq<u32>,
    pub budget: nat,
    pub eos: u32,
    pub open: bool,
}

impl DecodingView {
    /// A decoding before its first sample.
    pub open spec fn start(prompt: Seq<u32>, max_tokens: nat, eos: u32) -> DecodingView {
        DecodingView {
            window: window(prompt, max_tokens),
            kept: Seq::empty(),
            budget: sample_budget(max_tokens),
            eos,
            open: true,
        }
    }

    /// The tokens that the model is run on for the next sample: the fitted
    /// prompt for the first, and the sample before it for every other.
    pub open spec fn input(self) -> Seq<u32> {
        if self.kept.len() == 0 {
            self.window
        } else {
            seq![self.kept.last()]
        }
    }

    /// The decoding after `token` was sampled. The end-of-sequence token is
    /// not kept and ends the decoding, whether it comes first or later. Any
    /// other token is kept, and ends the decoding if it uses up the budget.
    /// A decoding that has ended takes no sample.
    pub open spec fn accept(self, token: u32) -> DecodingView {
        if !self.open {
            self
        } else if token == self.eos {
            DecodingView { open: false, ..self }
        } else {
            DecodingView {
                kept: self.kept.push(token),
                open: self.kept.len() < self.budget,
                ..self
            }
        }
    }

    /// The decoding after each of `samples` was sampled, in order.
    pub open spec fn accept_all(self, samples: Seq<u32>) -> DecodingView
        decreases samples.len(),
    {
        if samples.len() == 0 {
            self
        } else {
            self.accept_all(samples.drop_last()).accept(samples.last())
        }
    }

    /// What the decoding returns: the fitted prompt, then the kept samples.
    pub open spec fn output(self) -> Seq<u32> {
        self.window + self.kept
    }

    /// How many samples can still come, at most.
    pub open spec fn remaining(self) -> nat {
        if !self.open {
            0
        } else {
            (self.budget + 1 - self.kept.len()) as nat
        }
    }

    /// What holds of every decoding, whatever was sampled: the prompt is not
    /// empty, the budget is kept, and no sample that was kept is the
    /// end-of-sequence token.
    pub open spec fn valid(self) -> bool {
        &&& self.window.len() > 0
        &&& self.kept.len() <= self.budget + 1
        &&& self.open ==> self.kept.len() <= self.budget
        &&& forall|i: int| 0 <= i < self.kept.len() ==> self.kept[i] != self.eos
    }
}

/// `out` is what a decoding returns for the prompt window `window`, a budget
/// of `budget` samples after the first and the end-of-sequence token `eos`:
/// the window, then at most `budget + 1` samples, none of which is `eos`.
pub open spec fn is_decoding(out: Seq<u32>, window: Seq<u32>, budget: nat, eos: u32) -> bool {
    &&& window.len() <= out.len() <= window.len() + 1 + budget
    &&& out.take(window.len() as int) == window
    &&& forall|i: int| window.len() <= i < out.len() ==> out[i] != eos
}

/// The decisions of one decoding: which samples are kept, and when it ends.
/// It runs no model: the caller samples a token for [`input`](Decoding::input)
/// and hands it to [`accept`](Decoding::accept), as long as the decoding is
/// open.
pub struct Decoding {
    window: Vec<u32>,
    kept: Vec<u32>,
    budget: usize,
    eos: u32,
    stopped: bool,
}

impl View for Decoding {
    type V = DecodingView;

    closed spec fn view(&self) -> DecodingView {
        DecodingView {
            window: self.window@,
            kept: self.kept@,
            budget: self.budget as nat,
            eos: self.eos,
            open: !self.stopped && self.kept@.len() <= self.budget,
        }
    }
}

impl Decoding {
    /// The invariant: see [`DecodingView::valid`].
    #[verifier::type_invariant]
    pub open spec fn wf(&self) -> bool {
        self@.valid()
    }

    /// Starts a decoding of a reply to `prompt_tokens` with a budget of
    /// `max_tokens` tokens. An empty prompt is refused, and so is a budget
    /// that leaves no room for a prompt token.
    pub fn start(prompt_tokens: Vec<u32>, max_tokens: usize, eos_token: u32) -> (r: Result<
        Decoding,
        DecodeError,
    >)
        ensures
            prompt_tokens@.len() == 0 ==> r matches Err(DecodeError::EmptyPrompt),
            prompt_tokens@.len() > 0 && room(max_tokens as nat) == 0 ==> r matches Err(
                DecodeError::NoRoom,
            ),
            prompt_tokens@.len() > 0 && room(max_tokens as nat) > 0 ==> (r matches Ok(decoding)
                && decoding.wf() && decoding@ == DecodingView::start(
                prompt_tokens@,
                max_tokens as nat,
                eos_token,
            )),
    {
        if prompt_tokens.len() == 0 {
            return Err(DecodeError::EmptyPrompt);
        }
        let budget = if max_tokens == 0 {
            0
        } else {
            max_tokens - 1
        };
        let window = fit_window(prompt_tokens, max_tokens);
        if window.len() == 0 {
            return Err(DecodeError::NoRoom);
        }
        Ok(Decoding { window, kept: Vec::new(), budget, eos: eos_token, stopped: false })
    }

    /// Whether another sample is to come.
    pub fn is_open(&self) -> (r: bool)
        ensures
            r == self@.open,
    {
        !self.stopped && self.kept.len() <= self.budget
    }

    /// The tokens to run the model on for the next sample. There is always
    /// one at least.
    pub fn input(&self) -> (r: Vec<u32>)
        ensures
            r@ == self@.input(),
            r@.len() > 0,
    {
        proof {
            use_type_invariant(self);
        }
        let mut tokens: Vec<u32> = Vec::new();
        if self.kept.len() == 0 {
            let mut i: usize = 0;
            while i < self.window.len()
                invariant
                    i <= self.window.len(),
                    tokens@ == self.window@.take(i as int),
                decreases self.window.len() - i,
            {
                tokens.push(self.window[i]);
                assert(self.window@.take(i + 1) == self.window@.take(i as int).push(
                    self.window@[i as int],
                ));
                i = i + 1;
            }
            assert(self.window@.take(self.window@.len() as int) == self.window@);
        } else {
            tokens.push(self.kept[self.kept.len() - 1]);
        }
        tokens
    }

    /// Takes the token that was sampled for [`input`](Decoding::input).
    pub fn accept(&mut self, token: u32)
        ensures
            final(self).wf(),
            final(self)@ == old(self)@.accept(token),
            old(self)@.open ==> final(self)@.remaining() < old(self)@.remaining(),
    {
        proof {
            use_type_invariant(&*self);
        }
        if !self.is_open() {
            return ;
        }
        if token == self.eos {
            self.stopped = true;
        } else {
            let mut kept: Vec<u32> = Vec::new();
            std::mem::swap(&mut self.kept, &mut kept);
            kept.push(token);
            self.kept = kept;
        }
    }

    /// Ends the decoding and returns the fitted prompt followed by the kept
    /// samples.
    pub fn finish(self) -> (r: Vec<u32>)
        ensures
            r@ == self@.output(),
    {
        let mut out = self.window;
        let mut kept = self.kept;
        out.append(&mut kept);
        out
    }
}

/// One step of the runtime: hands `tokens` and `position` to `step`, which
/// runs the model on them and samples the token that follows. A failure of
/// the step becomes a failure of the decoding, with the same text.
fn next_token<S: Fn(&Vec<u32>, usize) -> Result<u32, String>>(
    step: &S,
    tokens: &Vec<u32>,
    position: usize,
) -> (r: Result<u32, DecodeError>)
    requires
        call_requires(*step, (tokens, position)),
    ensures
        r matches Ok(token) ==> call_ensures(
            *step,
            (tokens, position),
            Ok::<u32, String>(token),
        ),
        r matches Err(error) ==> (error matches DecodeError::Runtime(text) && call_ensures(
            *step,
            (tokens, position),
            Err::<u32, String>(text),
        )),
{
    match step(tokens, position) {
        Ok(token) => Ok(token),
        Err(text) => Err(DecodeError::Runtime(text)),
    }
}

/// Whether `step` can fail on some batch of tokens.
pub open spec fn can_fail<S: Fn(&Vec<u32>, usize) -> Result<u32, String>>(step: S) -> bool {
    exists|tokens: &Vec<u32>, position: usize, text: String|
        tokens@.len() > 0 && #[trigger] call_ensures(
            step,
            (tokens, position),
            Err::<u32, String>(text),
        )
}

/// Decodes a reply to `prompt_tokens`. The model and the sampler are the
/// caller's: `step` runs the model on a batch of tokens that starts at a
/// position of its sequence, and samples the token that follows. The prompt
/// is fitted to the model and handed to `step` for the first sample; every
/// other sample comes from `step` on the sample before it. Each batch starts
/// at [`MODEL_POSITION`], and none is empty. At most `max_tokens` tokens are
/// sampled, and one where `max_tokens` is zero. The first sample that is
/// `eos_token` ends the reply and is not kept. The result is the fitted
/// prompt followed by the samples that were kept. A failure of `step` ends
/// the decoding with that failure, and a `step` that cannot fail gives a
/// reply to every prompt that is not refused. An empty prompt, and a budget
/// that leaves no room for the prompt, are refused before `step` is called.
/// All that is asked of `step` is that it takes every batch that is not
/// empty.
pub fn decode<S: Fn(&Vec<u32>, usize) -> Result<u32, String>>(
    step: &S,
    prompt_tokens: Vec<u32>,
    max_tokens: usize,
    eos_token: u32,
) -> (r: Result<Vec<u32>, DecodeError>)
    requires
        forall|tokens: &Vec<u32>, position: usize|
            tokens@.len() > 0 ==> call_requires(*step, (tokens, position)),
    ensures
        r matches Err(DecodeError::EmptyPrompt) <==> prompt_tokens@.len() == 0,
        r matches Err(DecodeError::NoRoom) <==> prompt_tokens@.len() > 0 && room(
            max_tokens as nat,
        ) == 0,
        r matches Err(DecodeError::Runtime(_)) ==> can_fail(*step),
        prompt_tokens@.len() > 0 && room(max_tokens as nat) > 0 && !can_fail(*step) ==> r is Ok,
        r matches Ok(out) ==> is_decoding(
            out@,
            window(prompt_tokens@, max_tokens as nat),
            sample_budget(max_tokens as nat),
            eos_token,
        ),
{
    let mut decoding = match Decoding::start(prompt_tokens, max_tokens, eos_token) {
        Err(error) => {
            return Err(error);
        },
        Ok(decoding) => decoding,
    };
    let ghost begun = decoding@;
    while decoding.is_open()
        invariant
            prompt_tokens@.len() > 0,
            room(max_tokens as nat) > 0,
            forall|tokens: &Vec<u32>, position: usize|
                tokens@.len() > 0 ==> call_requires(*step, (tokens, position)),
            decoding.wf(),
            decoding@.window == begun.window,
            decoding@.budget == begun.budget,
            decoding@.eos == begun.eos,
        decreases decoding@.remaining(),
    {
        let input = decoding.input();
        match next_token(step, &input, MODEL_POSITION) {
            Err(error) => {
                return Err(error);
            },
            Ok(token) => {
                decoding.accept(token);
            },
        }
    }
    proof {
        law_ended_decoding_has_its_shape(decoding@);
    }
    Ok(decoding.finish())
}

/// Why a prompt got no reply from the model.
#[derive(Debug)]
pub enum ReplyError {
    /// The prompt could not be turned into tokens, for this reason.
    Encoding(String),
    /// The decoding failed.
    Decoding(DecodeError),
    /// The tokens of the reply could not be turned into text, for this
    /// reason.
    Detokenizing(String),
}

impl ReplyError {
    /// The error as text.
    pub open spec fn text(self) -> Seq<char> {
        match self {
            ReplyError::Encoding(reason) => "Error encoding tokenizer: "@ + reason@,
            ReplyError::Decoding(error) => error.text(),
            ReplyError::Detokenizing(reason) => "Error decoding: "@ + reason@,
        }
    }

    /// The error as text.
    pub fn message(&self) -> (r: String)
        ensures
            r@ == self.text(),
    {
        match self {
            ReplyError::Encoding(reason) => {
                let mut out = String::from_str("Error encoding tokenizer: ");
                out.append(reason.as_str());
                out
            },
            ReplyError::Decoding(error) => error.message(),
            ReplyError::Detokenizing(reason) => {
                let mut out = String::from_str("Error decoding: ");
                out.append(reason.as_str());
                out
            },
        }
    }
}

/// `text` is a reply to `prompt` that the three functions of the runtime can
/// give together: `encode` gives some tokens for the prompt between the marks
/// of an instruction, `token_of` names or does not name the end-of-sequence
/// token, some decoding of those tokens has the shape that [`decode`]
/// promises, and `detokenize` gives `text` for it. The special tokens are
/// asked for in the encoding, counted in the vocabulary, and left out of the
/// text.
pub open spec fn is_reply<E, V, D>(
    encode: E,
    token_of: V,
    detokenize: D,
    prompt: Seq<char>,
    max_tokens: nat,
    text: String,
) -> bool where
    E: Fn(&str, bool) -> Result<Vec<u32>, String>,
    V: Fn(&str, bool) -> Option<u32>,
    D: Fn(&Vec<u32>, bool) -> Result<String, String>,
 {
    exists|asked: &str, tokens: Vec<u32>, named: Option<u32>, out: &Vec<u32>|
        #![trigger
            call_ensures(encode, (asked, true), Ok::<Vec<u32>, String>(tokens)),
            call_ensures(token_of, (EOS_TEXT, true), named),
            call_ensures(detokenize, (out, true), Ok::<String, String>(text)),
        ]
        {
            &&& asked@ == instruction(prompt)
            &&& call_ensures(encode, (asked, true), Ok::<Vec<u32>, String>(tokens))
            &&& call_ensures(token_of, (EOS_TEXT, true), named)
            &&& is_decoding(
                out@,
                window(tokens@, max_tokens),
                sample_budget(max_tokens),
                end_token(named),
            )
            &&& call_ensures(detokenize, (out, true), Ok::<String, String>(text))
        }
}

/// Generates the model's reply to `prompt`. The tokenizer, the model and the
/// sampler are the caller's, as four functions: `encode` turns a text into
/// tokens, `token_of` looks a text up in the vocabulary, `step` runs the model
/// and samples, and `detokenize` turns tokens into text. The prompt goes to
/// `encode` between the marks of an instruction, with its special tokens
/// asked for. The end-of-sequence token is the one that `token_of` finds for
/// [`EOS_TEXT`], added tokens included, or [`DEFAULT_EOS_TOKEN`]. The tokens
/// are decoded as [`decode`] says, and what comes out, the fitted prompt and
/// the kept samples, goes to `detokenize`, which is asked to leave special
/// tokens out. The first part that fails ends the generation with its error;
/// a budget that leaves no room for the prompt never gives a reply. All that
/// is asked of the four functions is that they take what they are handed:
/// `step` every batch that is not empty, the others every input.
pub fn generate_reply<E, V, S, D>(
    encode: &E,
    token_of: &V,
    step: &S,
    detokenize: &D,
    prompt: &str,
    max_tokens: usize,
) -> (r: Result<String, ReplyError>) where
    E: Fn(&str, bool) -> Result<Vec<u32>, String>,
    V: Fn(&str, bool) -> Option<u32>,
    S: Fn(&Vec<u32>, usize) -> Result<u32, String>,
    D: Fn(&Vec<u32>, bool) -> Result<String, String>,

    requires
        forall|text: &str, special: bool| call_requires(*encode, (text, special)),
        forall|text: &str, added: bool| call_requires(*token_of, (text, added)),
        forall|tokens: &Vec<u32>, position: usize|
            tokens@.len() > 0 ==> call_requires(*step, (tokens, position)),
        forall|tokens: &Vec<u32>, special: bool| call_requires(*detokenize, (tokens, special)),
    ensures
        r matches Ok(text) ==> is_reply(
            *encode,
            *token_of,
            *detokenize,
            prompt@,
            max_tokens as nat,
            text,
        ),
        room(max_tokens as nat) == 0 ==> r is Err,
        r matches Err(ReplyError::Decoding(DecodeError::NoRoom)) ==> room(max_tokens as nat) == 0,
        r matches Err(ReplyError::Decoding(DecodeError::Runtime(_))) ==> can_fail(*step),
{
    let asked = instruct_prompt(prompt);
    let asked: &str = asked.as_str();
    let prompt_tokens = match encode(asked, true) {
        Err(reason) => {
            return Err(ReplyError::Encoding(reason));
        },
        Ok(tokens) => tokens,
    };
    let ghost encoded = prompt_tokens;
    let named = token_of(EOS_TEXT, true);
    let eos = eos_token(named);
    let out = match decode(step, prompt_tokens, max_tokens, eos) {
        Err(error) => {
            return Err(ReplyError::Decoding(error));
        },
        Ok(out) => out,
    };
    match detokenize(&out, true) {
        Err(reason) => Err(ReplyError::Detokenizing(reason)),
        Ok(text) => {
            proof {
                assert(call_ensures(*encode, (asked, true), Ok::<Vec<u32>, String>(encoded)));
                assert(call_ensures(*token_of, (EOS_TEXT, true), named));
                assert(call_ensures(*detokenize, (&out, true), Ok::<String, String>(text)));
            }
            Ok(text)
        },
    }
}

/// The fitted prompt is bounded by the sequence: with the samples to come it
/// leaves the margin free, it is the end of the prompt, and it is the whole
/// prompt exactly where the whole prompt leaves the margin free.
pub proof fn law_window_is_bounded(prompt: Seq<u32>, max_tokens: nat)
    ensures
        window(prompt, max_tokens).len() <= room(max_tokens),
        sample_budget(max_tokens) <= SEQUENCE_LIMIT - SEQUENCE_MARGIN ==> window(
            prompt,
            max_tokens,
        ).len() + sample_budget(max_tokens) <= SEQUENCE_LIMIT - SEQUENCE_MARGIN,
        window(prompt, max_tokens).len() <= prompt.len(),
        window(prompt, max_tokens) == prompt.skip(
            prompt.len() - window(prompt, max_tokens).len(),
        ),
        window(prompt, max_tokens) == prompt <==> prompt.len() <= room(max_tokens),
        prompt.len() + sample_budget(max_tokens) <= SEQUENCE_LIMIT - SEQUENCE_MARGIN ==> window(
            prompt,
            max_tokens,
        ) == prompt,
{
    assert(prompt.skip(0) == prompt);
}

/// Every sample keeps a decoding valid and brings it nearer to its end; the
/// prompt, the budget and the end-of-sequence token stay as they are.
pub proof fn law_decoding_stays_valid(decoding: DecodingView, token: u32)
    requires
        decoding.valid(),
    ensures
        decoding.accept(token).valid(),
        decoding.accept(token).window == decoding.window,
        decoding.accept(token).budget == decoding.budget,
        decoding.accept(token).eos == decoding.eos,
        decoding.open ==> decoding.accept(token).remaining() < decoding.remaining(),
        !decoding.open ==> decoding.accept(token) == decoding,
{
}

/// The end-of-sequence token ends an open decoding at once and is not kept,
/// whether it is the first sample or a later one; after it, no sample is
/// taken.
pub proof fn law_end_token_ends_decoding(decoding: DecodingView, after: u32)
    requires
        decoding.valid(),
        decoding.open,
    ensures
        !decoding.accept(decoding.eos).open,
        decoding.accept(decoding.eos).kept == decoding.kept,
        decoding.accept(decoding.eos).output() == decoding.output(),
        decoding.accept(decoding.eos).accept(after) == decoding.accept(decoding.eos),
{
}

/// A decoding that has ended returns its fitted prompt, then at most as many
/// samples as its budget allows and one more, none of which is the
/// end-of-sequence token.
pub proof fn law_ended_decoding_has_its_shape(decoding: DecodingView)
    requires
        decoding.valid(),
        !decoding.open,
    ensures
        is_decoding(decoding.output(), decoding.window, decoding.budget, decoding.eos),
{
    let out = decoding.output();
    assert(out.take(decoding.window.len() as int) == decoding.window);
    assert forall|i: int| decoding.window.len() <= i < out.len() implies out[i] != decoding.eos by {
        assert(out[i] == decoding.kept[i - decoding.window.len()]);
    }
}

/// A decoding ends after `budget + 1` samples at the latest, whatever they
/// are.
pub proof fn law_decoding_ends_within_budget(decoding: DecodingView, samples: Seq<u32>)
    requires
        decoding.valid(),
        samples.len() >= decoding.remaining(),
    ensures
        !decoding.accept_all(samples).open,
        decoding.accept_all(samples).valid(),
{
    lemma_accept_all(decoding, samples);
}

/// After `samples`, a decoding is valid and has come nearer to its end by one
/// step for each sample, or has ended.
proof fn lemma_accept_all(decoding: DecodingView, samples: Seq<u32>)
    requires
        decoding.valid(),
    ensures
        decoding.accept_all(samples).valid(),
        decoding.accept_all(samples).remaining() + samples.len() <= decoding.remaining()
            || !decoding.accept_all(samples).open,
    decreases samples.len(),
{
    if samples.len() > 0 {
        lemma_accept_all(decoding, samples.drop_last());
        law_decoding_stays_valid(decoding.accept_all(samples.drop_last()), samples.last());
    }
}

} // verus!
