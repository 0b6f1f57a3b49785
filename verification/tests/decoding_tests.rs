use candle_core::quantized::{gguf_file, GgmlDType, QTensor};
use candle_core::{Device, Tensor};
use candle_transformers::generation::LogitsProcessor;
use candle_transformers::models::quantized_llama::ModelWeights;
use inference_gateway::decoding::{
    decode, eos_token, fit_window, generate_reply, instruct_prompt, DecodeError, Decoding,
    ReplyError, DEFAULT_EOS_TOKEN, EOS_TEXT, MODEL_POSITION, SAMPLING_SEED, SEQUENCE_LIMIT,
    SEQUENCE_MARGIN,
};
use std::cell::RefCell;
use std::io::Cursor;
use tokenizers::Tokenizer;

fn prompt(len: usize) -> Vec<u32> {
    (0..len as u32).collect()
}

fn plain(values: Vec<f32>, rows: usize, columns: usize) -> QTensor {
    let tensor = if rows == 1 {
        Tensor::from_vec(values, columns, &Device::Cpu).unwrap()
    } else {
        Tensor::from_vec(values, (rows, columns), &Device::Cpu).unwrap()
    };
    QTensor::quantize(&tensor, GgmlDType::F32).unwrap()
}

/// A model without layers whose most likely token after `t` is
/// `successor[t]`: the embedding of a token is its unit vector, and the output
/// weights send that vector to the unit vector of the successor.
fn chain_model(successor: &[u32]) -> ModelWeights {
    let size = successor.len();
    let mut embedding = vec![0f32; size * size];
    let mut output = vec![0f32; size * size];
    for token in 0..size {
        embedding[token * size + token] = 1.0;
        output[successor[token] as usize * size + token] = 1.0;
    }
    let embedding = plain(embedding, size, size);
    let output = plain(output, size, size);
    let norm = plain(vec![1f32; size], 1, size);

    let one = gguf_file::Value::U32(1);
    let none = gguf_file::Value::U32(0);
    let width = gguf_file::Value::U32(size as u32);
    let rope = gguf_file::Value::U32(2);
    let epsilon = gguf_file::Value::F32(1e-6);
    let metadata = [
        ("llama.attention.head_count", &one),
        ("llama.attention.head_count_kv", &one),
        ("llama.block_count", &none),
        ("llama.embedding_length", &width),
        ("llama.rope.dimension_count", &rope),
        ("llama.attention.layer_norm_rms_epsilon", &epsilon),
    ];
    let tensors = [
        ("token_embd.weight", &embedding),
        ("output_norm.weight", &norm),
        ("output.weight", &output),
    ];
    let mut file = Cursor::new(Vec::new());
    gguf_file::write(&mut file, &metadata, &tensors).unwrap();
    file.set_position(0);
    let content = gguf_file::Content::read(&mut file).unwrap();
    ModelWeights::from_gguf(content, &mut file, &Device::Cpu).unwrap()
}

/// Feeds `samples` to a decoding as long as it is open, and returns what it
/// gives, with the number of samples it took and the inputs it asked for.
fn feed(
    prompt: Vec<u32>,
    max_tokens: usize,
    eos: u32,
    samples: &[u32],
) -> (Vec<u32>, usize, Vec<Vec<u32>>) {
    let mut decoding = Decoding::start(prompt, max_tokens, eos).ok().unwrap();
    let mut taken = 0;
    let mut inputs = Vec::new();
    while decoding.is_open() && taken < samples.len() {
        inputs.push(decoding.input());
        decoding.accept(samples[taken]);
        taken += 1;
    }
    assert!(!decoding.is_open() || taken == samples.len());
    (decoding.finish(), taken, inputs)
}

/// One step of the runtime: runs the model on the tokens as one batch and
/// samples from the logits of the last token.
fn run_step(
    model: &mut ModelWeights,
    sampler: &mut LogitsProcessor,
    tokens: &Vec<u32>,
    position: usize,
) -> Result<u32, String> {
    let input = Tensor::new(tokens.as_slice(), &Device::Cpu)
        .and_then(|tensor| tensor.unsqueeze(0))
        .map_err(|error| error.to_string())?;
    let logits = model
        .forward(&input, position)
        .and_then(|logits| logits.squeeze(0))
        .map_err(|error| error.to_string())?;
    sampler.sample(&logits).map_err(|error| error.to_string())
}

/// Decodes with the library, the model and sampler behind its step function.
fn decode_with(
    model: &mut ModelWeights,
    sampler: LogitsProcessor,
    prompt_tokens: Vec<u32>,
    max_tokens: usize,
    eos: u32,
) -> Result<Vec<u32>, DecodeError> {
    let model = RefCell::new(model);
    let sampler = RefCell::new(sampler);
    let step = |tokens: &Vec<u32>, position: usize| {
        run_step(&mut model.borrow_mut(), &mut sampler.borrow_mut(), tokens, position)
    };
    decode(&step, prompt_tokens, max_tokens, eos)
}

/// Generates with the library, the tokenizer, model and sampler behind its
/// four functions.
fn reply_with(
    tokenizer: &Tokenizer,
    model: &mut ModelWeights,
    sampler: LogitsProcessor,
    prompt: &str,
    max_tokens: usize,
) -> Result<String, ReplyError> {
    let model = RefCell::new(model);
    let sampler = RefCell::new(sampler);
    let encode = |text: &str, special: bool| {
        tokenizer
            .encode(text, special)
            .map(|encoding| encoding.get_ids().to_vec())
            .map_err(|error| error.to_string())
    };
    let token_of = |text: &str, added: bool| tokenizer.get_vocab(added).get(text).copied();
    let step = |tokens: &Vec<u32>, position: usize| {
        run_step(&mut model.borrow_mut(), &mut sampler.borrow_mut(), tokens, position)
    };
    let detokenize = |tokens: &Vec<u32>, special: bool| {
        tokenizer.decode(tokens, special).map_err(|error| error.to_string())
    };
    generate_reply(&encode, &token_of, &step, &detokenize, prompt, max_tokens)
}

fn greedy() -> LogitsProcessor {
    LogitsProcessor::new(SAMPLING_SEED, None, None)
}

#[test]
fn decoding_constants() {
    assert_eq!(SEQUENCE_LIMIT, 4096);
    assert_eq!(SEQUENCE_LIMIT, candle_transformers::models::quantized_llama::MAX_SEQ_LEN);
    assert_eq!(SEQUENCE_MARGIN, 10);
    assert_eq!(SAMPLING_SEED, 42);
    assert_eq!(DEFAULT_EOS_TOKEN, 0);
    assert_eq!(EOS_TEXT, "</s>");
    assert_eq!(MODEL_POSITION, 0);
}

#[test]
fn instruction_marks_surround_the_prompt() {
    assert_eq!(instruct_prompt("hello"), "[INST] hello [/INST]");
    assert_eq!(instruct_prompt(""), "[INST]  [/INST]");
}

#[test]
fn eos_token_defaults_to_zero() {
    assert_eq!(eos_token(Some(2)), 2);
    assert_eq!(eos_token(Some(0)), 0);
    assert_eq!(eos_token(None), 0);
}

#[test]
fn short_prompt_is_kept_whole() {
    assert_eq!(fit_window(prompt(5), 64), prompt(5));
    assert_eq!(fit_window(prompt(0), 64), prompt(0));
    assert_eq!(fit_window(prompt(4023), 64), prompt(4023));
    assert_eq!(fit_window(prompt(4086), 0), prompt(4086));
    assert_eq!(fit_window(prompt(4086), 1), prompt(4086));
    assert_eq!(fit_window(prompt(1), 4086), prompt(1));
}

#[test]
fn long_prompt_keeps_its_last_tokens_as_many_as_fit() {
    let fitted = fit_window(prompt(5000), 64);
    assert_eq!(fitted.len(), 4096 - 10 - 63);
    assert_eq!(fitted, prompt(5000)[977..].to_vec());

    let fitted = fit_window(prompt(9000), 64);
    assert_eq!(fitted.len(), 4023);
    assert_eq!(fitted, prompt(9000)[4977..].to_vec());

    assert_eq!(fit_window(prompt(4024), 64), prompt(4024)[1..].to_vec());
    assert_eq!(fit_window(prompt(4087), 1), prompt(4087)[1..].to_vec());
    assert_eq!(fit_window(prompt(4090), 0), prompt(4090)[4..].to_vec());
    assert_eq!(fit_window(prompt(7000), 4086), vec![6999]);
    assert_eq!(fit_window(prompt(3), 4086), vec![2]);
}

#[test]
fn fitted_prompt_and_budget_leave_the_margin_free() {
    for (length, max_tokens) in [(1, 1), (4086, 1), (4087, 1), (5000, 64), (9000, 64), (50, 4000)] {
        let fitted = fit_window(prompt(length), max_tokens);
        assert!(fitted.len() + (max_tokens - 1) <= 4096 - 10);
        assert_eq!(fitted, prompt(length)[length - fitted.len()..].to_vec());
        if length + (max_tokens - 1) <= 4086 {
            assert_eq!(fitted.len(), length);
        }
    }
}

#[test]
fn budget_that_fills_the_sequence_leaves_no_prompt() {
    assert_eq!(fit_window(prompt(3), 4087), Vec::<u32>::new());
    assert_eq!(fit_window(prompt(3), 5000), Vec::<u32>::new());
    assert_eq!(fit_window(prompt(7000), usize::MAX), Vec::<u32>::new());
    assert!(matches!(Decoding::start(prompt(3), 4087, 0), Err(DecodeError::NoRoom)));
    assert!(matches!(Decoding::start(prompt(3), usize::MAX, 0), Err(DecodeError::NoRoom)));
    assert!(matches!(Decoding::start(Vec::new(), 4087, 0), Err(DecodeError::EmptyPrompt)));
    assert!(Decoding::start(prompt(3), 4086, 0).is_ok());
}

#[test]
fn decode_errors_as_text() {
    assert_eq!(DecodeError::EmptyPrompt.message(), "empty prompt");
    assert_eq!(DecodeError::NoRoom.message(), "token budget leaves no room for the prompt");
    assert_eq!(DecodeError::Runtime("shape mismatch".to_string()).message(), "shape mismatch");
}

#[test]
fn decoding_refuses_an_empty_prompt() {
    assert!(matches!(Decoding::start(Vec::new(), 10, 2), Err(DecodeError::EmptyPrompt)));
    assert!(Decoding::start(vec![1], 0, 2).is_ok());
}

#[test]
fn decoding_keeps_samples_up_to_the_end_token() {
    let (out, taken, inputs) = feed(vec![5, 6], 10, 2, &[7, 8, 2, 9]);
    assert_eq!(out, vec![5, 6, 7, 8]);
    assert_eq!(taken, 3);
    assert_eq!(inputs, vec![vec![5, 6], vec![7], vec![8]]);
}

#[test]
fn decoding_ends_at_an_end_token_that_comes_first() {
    let (out, taken, inputs) = feed(vec![5], 10, 2, &[2, 7, 2, 9]);
    assert_eq!(out, vec![5]);
    assert_eq!(taken, 1);
    assert_eq!(inputs, vec![vec![5]]);
    let (out, taken, _) = feed(vec![5, 6], 0, 2, &[2, 7]);
    assert_eq!(out, vec![5, 6]);
    assert_eq!(taken, 1);
}

#[test]
fn decoding_ends_when_the_budget_is_used_up() {
    let samples = [7, 8, 9, 10, 11];
    assert_eq!(feed(vec![5], 0, 2, &samples), (vec![5, 7], 1, vec![vec![5]]));
    assert_eq!(feed(vec![5], 1, 2, &samples), (vec![5, 7], 1, vec![vec![5]]));
    assert_eq!(feed(vec![5], 2, 2, &samples), (vec![5, 7, 8], 2, vec![vec![5], vec![7]]));
    let (out, taken, _) = feed(vec![5], 4, 2, &samples);
    assert_eq!(out, vec![5, 7, 8, 9, 10]);
    assert_eq!(taken, 4);
    let (out, taken, _) = feed(vec![5], 100, 2, &samples);
    assert_eq!(out, vec![5, 7, 8, 9, 10, 11]);
    assert_eq!(taken, 5);
}

#[test]
fn decoding_that_has_ended_takes_no_sample() {
    let mut decoding = Decoding::start(vec![5], 3, 2).ok().unwrap();
    decoding.accept(7);
    decoding.accept(2);
    assert!(!decoding.is_open());
    decoding.accept(8);
    decoding.accept(9);
    assert!(!decoding.is_open());
    assert_eq!(decoding.finish(), vec![5, 7]);
}

#[test]
fn decoding_runs_the_model_on_the_fitted_prompt_first() {
    let decoding = Decoding::start(prompt(5000), 64, 0).ok().unwrap();
    assert!(decoding.is_open());
    assert_eq!(decoding.input(), prompt(5000)[977..].to_vec());
    assert_eq!(decoding.finish(), prompt(5000)[977..].to_vec());
}

#[test]
fn decode_follows_the_model_until_the_end_token() {
    let mut model = chain_model(&[1, 2, 3, 3]);
    let out = decode_with(&mut model, greedy(), vec![0], 10, 3).unwrap();
    assert_eq!(out, vec![0, 1, 2]);
}

#[test]
fn decode_starts_from_the_last_prompt_token() {
    let mut model = chain_model(&[1, 2, 3, 4, 4]);
    let out = decode_with(&mut model, greedy(), vec![3, 0, 1], 10, 4).unwrap();
    assert_eq!(out, vec![3, 0, 1, 2, 3]);
}

#[test]
fn decode_ends_at_an_end_token_that_comes_first() {
    let mut model = chain_model(&[1, 2, 3, 3]);
    let out = decode_with(&mut model, greedy(), vec![0], 3, 1).unwrap();
    assert_eq!(out, vec![0]);
    let out = decode_with(&mut model, greedy(), vec![2, 0], 0, 1).unwrap();
    assert_eq!(out, vec![2, 0]);
}

#[test]
fn decode_refuses_a_budget_that_leaves_no_room() {
    let mut model = chain_model(&[1, 0]);
    let outcome = decode_with(&mut model, greedy(), vec![0], 4087, 1);
    assert!(matches!(outcome, Err(DecodeError::NoRoom)));
    let outcome = decode_with(&mut model, greedy(), Vec::new(), 4087, 1);
    assert!(matches!(outcome, Err(DecodeError::EmptyPrompt)));
}

#[test]
fn decode_stops_at_the_budget() {
    let mut model = chain_model(&[1, 2, 3, 0]);
    let device = Device::Cpu;
    assert_eq!(decode_with(&mut model, greedy(), vec![0], 0, 9).unwrap(), vec![0, 1]);
    assert_eq!(decode_with(&mut model, greedy(), vec![0], 1, 9).unwrap(), vec![0, 1]);
    assert_eq!(decode_with(&mut model, greedy(), vec![0], 2, 9).unwrap(), vec![0, 1, 2]);
    assert_eq!(
        decode_with(&mut model, greedy(), vec![0], 7, 9).unwrap(),
        vec![0, 1, 2, 3, 0, 1, 2, 3]
    );
}

#[test]
fn decode_refuses_an_empty_prompt() {
    let mut model = chain_model(&[1, 0]);
    let outcome = decode_with(&mut model, greedy(), Vec::new(), 10, 1);
    assert!(matches!(outcome, Err(DecodeError::EmptyPrompt)));
}

#[test]
fn decode_reports_a_failure_of_the_model() {
    let mut model = chain_model(&[1, 0]);
    let outcome = decode_with(&mut model, greedy(), vec![7], 10, 1);
    match outcome {
        Err(DecodeError::Runtime(text)) => assert!(!text.is_empty()),
        _ => panic!("a token outside the vocabulary fails the model"),
    }
}

#[test]
fn decode_with_a_temperature_keeps_its_shape() {
    let mut model = chain_model(&[1, 2, 3, 4, 5, 0]);
    for budget in [0usize, 1, 2, 5, 20] {
        let sampler = LogitsProcessor::new(SAMPLING_SEED, Some(0.8), None);
        let out = decode_with(&mut model, sampler, vec![4, 0], budget, 3).unwrap();
        assert_eq!(out[..2], [4, 0]);
        assert!(out.len() >= 2);
        assert!(out.len() <= 2 + 1 + budget.saturating_sub(1));
        assert!(out[2..].iter().all(|token| *token != 3));
        assert!(out.iter().all(|token| *token < 6));
    }
}

/// A tokenizer that splits at whitespace and punctuation and knows eight
/// words, or seven where it is to have no end token.
fn word_tokenizer(with_end_token: bool) -> Tokenizer {
    let end = if with_end_token { "</s>" } else { "<pad>" };
    let json = format!(
        "{{\"version\":\"1.0\",\"truncation\":null,\"padding\":null,\"added_tokens\":[],\
         \"normalizer\":null,\"pre_tokenizer\":{{\"type\":\"Whitespace\"}},\
         \"post_processor\":null,\"decoder\":null,\"model\":{{\"type\":\"WordLevel\",\
         \"vocab\":{{\"[\":0,\"INST\":1,\"]\":2,\"[/\":3,\"hi\":4,\"{}\":5,\"<unk>\":6,\
         \"there\":7}},\"unk_token\":\"<unk>\"}}}}",
        end
    );
    Tokenizer::from_bytes(json).unwrap()
}

#[test]
fn reply_is_the_text_of_prompt_and_samples() {
    let tokenizer = word_tokenizer(true);
    let mut model = chain_model(&[5, 5, 7, 5, 5, 5, 5, 4]);
    let reply =
        reply_with(&tokenizer, &mut model, greedy(), "hi", 64).unwrap();
    assert_eq!(reply, "[ INST ] hi [/ INST ] there hi");
}

#[test]
fn reply_ends_at_the_default_end_token_where_the_vocabulary_has_none() {
    let tokenizer = word_tokenizer(false);
    let mut model = chain_model(&[5, 5, 7, 5, 5, 5, 5, 0]);
    let reply =
        reply_with(&tokenizer, &mut model, greedy(), "hi", 64).unwrap();
    assert_eq!(reply, "[ INST ] hi [/ INST ] there");
}

#[test]
fn reply_stops_at_the_budget() {
    let tokenizer = word_tokenizer(true);
    let mut model = chain_model(&[5, 5, 7, 5, 7, 5, 5, 4]);
    let reply =
        reply_with(&tokenizer, &mut model, greedy(), "there", 3).unwrap();
    assert_eq!(reply, "[ INST ] there [/ INST ] there hi there");
}

#[test]
fn reply_fails_where_the_model_or_the_budget_fails() {
    let tokenizer = word_tokenizer(true);
    let mut small = chain_model(&[1, 0]);
    match reply_with(&tokenizer, &mut small, greedy(), "hi", 64) {
        Err(ReplyError::Decoding(DecodeError::Runtime(text))) => assert!(!text.is_empty()),
        _ => panic!("tokens outside the model's vocabulary fail the model"),
    }
    let mut model = chain_model(&[5, 5, 7, 5, 5, 5, 5, 4]);
    let outcome = reply_with(&tokenizer, &mut model, greedy(), "hi", 4087);
    match outcome {
        Err(error) => {
            assert!(matches!(error, ReplyError::Decoding(DecodeError::NoRoom)));
            assert_eq!(error.message(), "token budget leaves no room for the prompt");
        }
        Ok(_) => panic!("a budget that fills the sequence gives no reply"),
    }
}

#[test]
fn reply_errors_as_text() {
    assert_eq!(
        ReplyError::Encoding("bad input".to_string()).message(),
        "Error encoding tokenizer: bad input"
    );
    assert_eq!(
        ReplyError::Detokenizing("bad token".to_string()).message(),
        "Error decoding: bad token"
    );
    assert_eq!(ReplyError::Decoding(DecodeError::EmptyPrompt).message(), "empty prompt");
    assert_eq!(
        ReplyError::Decoding(DecodeError::Runtime("shape mismatch".to_string())).message(),
        "shape mismatch"
    );
}

#[test]
fn decode_hands_the_fitted_prompt_and_then_each_sample_to_the_step() {
    let seen: RefCell<Vec<(Vec<u32>, usize)>> = RefCell::new(Vec::new());
    let step = |tokens: &Vec<u32>, position: usize| -> Result<u32, String> {
        seen.borrow_mut().push((tokens.clone(), position));
        Ok(tokens[tokens.len() - 1] + 10)
    };
    let out = decode(&step, vec![1, 2, 3], 3, 33).unwrap();
    assert_eq!(out, vec![1, 2, 3, 13, 23]);
    assert_eq!(
        seen.into_inner(),
        vec![(vec![1, 2, 3], MODEL_POSITION), (vec![13], 0), (vec![23], 0)]
    );
}

#[test]
fn decode_calls_no_step_for_a_prompt_it_refuses() {
    let calls = RefCell::new(0);
    let step = |_tokens: &Vec<u32>, _position: usize| -> Result<u32, String> {
        *calls.borrow_mut() += 1;
        Ok(1)
    };
    assert!(matches!(decode(&step, Vec::new(), 10, 0), Err(DecodeError::EmptyPrompt)));
    assert!(matches!(decode(&step, vec![1], 4087, 0), Err(DecodeError::NoRoom)));
    assert_eq!(*calls.borrow(), 0);
}

#[test]
fn decode_ends_with_the_failure_of_the_step() {
    let calls = RefCell::new(0);
    let step = |_tokens: &Vec<u32>, _position: usize| -> Result<u32, String> {
        *calls.borrow_mut() += 1;
        if *calls.borrow() == 3 {
            Err("device lost".to_string())
        } else {
            Ok(7)
        }
    };
    match decode(&step, vec![1], 10, 0) {
        Err(DecodeError::Runtime(text)) => assert_eq!(text, "device lost"),
        _ => panic!("a failing step fails the decoding"),
    }
    assert_eq!(*calls.borrow(), 3);
}

#[test]
fn reply_hands_each_part_what_it_is_to_work_on() {
    let asked: RefCell<Vec<(String, bool)>> = RefCell::new(Vec::new());
    let looked_up: RefCell<Vec<(String, bool)>> = RefCell::new(Vec::new());
    let detokenized: RefCell<Vec<(Vec<u32>, bool)>> = RefCell::new(Vec::new());
    let encode = |text: &str, special: bool| -> Result<Vec<u32>, String> {
        asked.borrow_mut().push((text.to_string(), special));
        Ok(vec![1, 2])
    };
    let token_of = |text: &str, added: bool| -> Option<u32> {
        looked_up.borrow_mut().push((text.to_string(), added));
        Some(5)
    };
    let step = |tokens: &Vec<u32>, _position: usize| -> Result<u32, String> {
        Ok(tokens[tokens.len() - 1] + 1)
    };
    let detokenize = |tokens: &Vec<u32>, special: bool| -> Result<String, String> {
        detokenized.borrow_mut().push((tokens.clone(), special));
        Ok("done".to_string())
    };
    let reply = generate_reply(&encode, &token_of, &step, &detokenize, "hi", 64).unwrap();
    assert_eq!(reply, "done");
    assert_eq!(asked.into_inner(), vec![("[INST] hi [/INST]".to_string(), true)]);
    assert_eq!(looked_up.into_inner(), vec![("</s>".to_string(), true)]);
    assert_eq!(detokenized.into_inner(), vec![(vec![1, 2, 3, 4], true)]);
}

#[test]
fn reply_fails_with_the_part_that_failed() {
    let fine_encode = |_: &str, _: bool| -> Result<Vec<u32>, String> { Ok(vec![1]) };
    let bad_encode = |_: &str, _: bool| -> Result<Vec<u32>, String> { Err("no model".to_string()) };
    let empty_encode = |_: &str, _: bool| -> Result<Vec<u32>, String> { Ok(Vec::new()) };
    let token_of = |_: &str, _: bool| -> Option<u32> { None };
    let step = |_: &Vec<u32>, _: usize| -> Result<u32, String> { Ok(0) };
    let bad_step = |_: &Vec<u32>, _: usize| -> Result<u32, String> { Err("nan".to_string()) };
    let fine_detokenize = |_: &Vec<u32>, _: bool| -> Result<String, String> { Ok("x".to_string()) };
    let bad_detokenize =
        |_: &Vec<u32>, _: bool| -> Result<String, String> { Err("bad id".to_string()) };

    let outcome = generate_reply(&bad_encode, &token_of, &step, &fine_detokenize, "p", 8);
    assert_eq!(outcome.unwrap_err().message(), "Error encoding tokenizer: no model");
    let outcome = generate_reply(&empty_encode, &token_of, &step, &fine_detokenize, "p", 8);
    assert!(matches!(outcome, Err(ReplyError::Decoding(DecodeError::EmptyPrompt))));
    let outcome = generate_reply(&fine_encode, &token_of, &bad_step, &fine_detokenize, "p", 8);
    assert_eq!(outcome.unwrap_err().message(), "nan");
    let outcome = generate_reply(&fine_encode, &token_of, &step, &bad_detokenize, "p", 8);
    assert_eq!(outcome.unwrap_err().message(), "Error decoding: bad id");
    let outcome = generate_reply(&fine_encode, &token_of, &step, &fine_detokenize, "p", 8);
    assert_eq!(outcome.unwrap(), "x");
}
