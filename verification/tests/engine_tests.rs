use inference_gateway::engine::{
    pacing_of, DummyEngine, EngineHandle, InferenceEngine, Pacing, CANDLE_FRAGMENT_DELAY_MS,
    DUMMY_DELAY_MS,
};
use inference_gateway::model_registry::EngineKind;
use inference_gateway::text::{split_runs, split_words, whitespace_of};

struct Failing;

impl InferenceEngine for Failing {
    fn generate(&self, _prompt: &str, _max_tokens: usize) -> Result<String, String> {
        Err("boom".to_string())
    }

    fn generate_stream(&self, _prompt: &str, _max_tokens: usize) -> Result<Vec<String>, String> {
        Err("boom".to_string())
    }
}

#[test]
fn dummy_engine_keeps_its_model_name() {
    let engine = DummyEngine::new("llama-3b");
    assert_eq!(engine.model_name, "llama-3b");
}

#[test]
fn dummy_generate_uppercases_prompt() {
    let engine = DummyEngine::new("llama-3b");
    assert_eq!(engine.generate("hello", 64), Ok("[llama-3b DUMMY] HELLO".to_string()));
    assert_eq!(engine.generate("", 0), Ok("[llama-3b DUMMY] ".to_string()));
    assert_eq!(
        engine.generate("Mixed Case 42 stra\u{df}e", 1),
        Ok("[llama-3b DUMMY] MIXED CASE 42 STRASSE".to_string())
    );
}

#[test]
fn dummy_generate_ignores_the_token_budget() {
    let engine = DummyEngine::new("m");
    assert_eq!(engine.generate("a b c", 0), engine.generate("a b c", 1000));
}

#[test]
fn dummy_stream_has_marker_then_words() {
    let engine = DummyEngine::new("llama-3b");
    let fragments = engine.generate_stream("a b", 128).unwrap();
    assert_eq!(fragments, vec!["[model=llama-3b]", "[llama-3b", "DUMMY]", "A", "B"]);
}

#[test]
fn dummy_stream_of_empty_prompt_has_marker_and_tag() {
    let engine = DummyEngine::new("m");
    let fragments = engine.generate_stream("", 128).unwrap();
    assert_eq!(fragments, vec!["[model=m]", "[m", "DUMMY]"]);
}

#[test]
fn dummy_stream_words_are_the_words_of_the_reply() {
    let engine = DummyEngine::new("llama-3b");
    for prompt in ["", "hello", "  two  words ", "tab\tand\nnewline", "x y z w"] {
        let whole = engine.generate(prompt, 64).unwrap();
        let fragments = engine.generate_stream(prompt, 128).unwrap();
        assert_eq!(fragments[0], "[model=llama-3b]");
        let expected: Vec<String> = whole.split_whitespace().map(|w| w.to_string()).collect();
        assert_eq!(fragments[1..].to_vec(), expected);
        let joined: String = fragments[1..].concat();
        let squeezed: String = whole.chars().filter(|c| !c.is_whitespace()).collect();
        assert_eq!(joined, squeezed);
    }
}

#[test]
fn dummy_stream_joined_by_spaces_is_the_reply() {
    let engine = DummyEngine::new("llama-3b");
    let whole = engine.generate("one two three", 64).unwrap();
    let fragments = engine.generate_stream("one two three", 128).unwrap();
    assert_eq!(fragments[1..].join(" "), whole);
}

#[test]
fn pacing_goes_by_the_kind_of_engine() {
    assert_eq!(DUMMY_DELAY_MS, 50);
    assert_eq!(CANDLE_FRAGMENT_DELAY_MS, 30);
    assert_eq!(pacing_of(EngineKind::Dummy), Pacing { reply_delay_ms: 50, fragment_delay_ms: 50 });
    assert_eq!(pacing_of(EngineKind::Candle), Pacing { reply_delay_ms: 0, fragment_delay_ms: 30 });
}

#[test]
fn tag_goes_before_any_text() {
    let engine = DummyEngine::new("llama-3b");
    assert_eq!(engine.tag("HELLO"), "[llama-3b DUMMY] HELLO");
    assert_eq!(engine.tag("hello"), "[llama-3b DUMMY] hello");
    assert_eq!(engine.tag(""), "[llama-3b DUMMY] ");
}

#[test]
fn marker_goes_before_any_pieces() {
    let engine = DummyEngine::new("llama-3b");
    assert_eq!(
        engine.mark(vec!["x".to_string(), "y".to_string()]),
        vec!["[model=llama-3b]", "x", "y"]
    );
    assert_eq!(engine.mark(Vec::new()), vec!["[model=llama-3b]"]);
}

#[test]
fn whitespace_is_marked_character_by_character() {
    assert_eq!(whitespace_of("a b\tc"), vec![false, true, false, true, false]);
    assert_eq!(whitespace_of(""), Vec::<bool>::new());
    assert_eq!(whitespace_of("\u{e9}\u{3000}\u{4e16}"), vec![false, true, false]);
}

#[test]
fn split_runs_cuts_at_the_marked_positions() {
    assert_eq!(split_runs("a-b", &vec![false, true, false]), vec!["a", "b"]);
    assert_eq!(split_runs("abcde", &vec![false, false, true, true, false]), vec!["ab", "e"]);
    assert_eq!(split_runs("abc", &vec![true, false, true]), vec!["b"]);
    assert_eq!(split_runs("abc", &vec![true, true, true]), Vec::<String>::new());
    assert_eq!(split_runs("abc", &vec![false, false, false]), vec!["abc"]);
    assert_eq!(split_runs("", &Vec::new()), Vec::<String>::new());
    assert_eq!(
        split_runs("\u{e9}x\u{4e16}", &vec![false, true, false]),
        vec!["\u{e9}", "\u{4e16}"]
    );
}

#[test]
fn split_runs_takes_unmarked_positions_as_text() {
    assert_eq!(split_runs("abcd", &vec![false, true]), vec!["a", "cd"]);
    assert_eq!(split_runs("abcd", &Vec::new()), vec!["abcd"]);
    assert_eq!(split_runs("ab", &vec![false, false, true, true]), vec!["ab"]);
}

#[test]
fn split_words_drops_all_whitespace() {
    assert_eq!(split_words("  a\tb \n c  "), vec!["a", "b", "c"]);
    assert_eq!(split_words("word"), vec!["word"]);
    assert_eq!(split_words("ends with space "), vec!["ends", "with", "space"]);
    assert_eq!(split_words(" x"), vec!["x"]);
    assert_eq!(split_words(""), Vec::<String>::new());
    assert_eq!(split_words("   "), Vec::<String>::new());
    assert_eq!(split_words(" \u{3000} "), Vec::<String>::new());
    assert_eq!(split_words("a\u{a0}b\u{2003}c"), vec!["a", "b", "c"]);
    assert_eq!(split_words("gr\u{fc}n  \u{4e16}\u{754c}"), vec!["gr\u{fc}n", "\u{4e16}\u{754c}"]);
}

#[test]
fn split_words_agrees_with_split_whitespace() {
    for text in ["", " ", "a", "a b", " a  b ", "\t\n", "x\u{85}y", "[m DUMMY] A  B", "no-space"] {
        let expected: Vec<String> = text.split_whitespace().map(|w| w.to_string()).collect();
        assert_eq!(split_words(text), expected);
    }
}

#[test]
fn dummy_handle_holds_the_reference_engine() {
    let handle = EngineHandle::dummy("llama-3b");
    match &handle {
        EngineHandle::Dummy(engine) => assert_eq!(engine.model_name, "llama-3b"),
        EngineHandle::Hosted(_) => panic!("the reference engine is built in"),
    }
    assert_eq!(handle.generate("hello", 64), Ok("[llama-3b DUMMY] HELLO".to_string()));
    assert_eq!(
        handle.share().generate_stream("a b", 128).unwrap(),
        vec!["[model=llama-3b]", "[llama-3b", "DUMMY]", "A", "B"]
    );
}

#[test]
fn handle_calls_the_engine_behind_it() {
    let handle = EngineHandle::new(DummyEngine { model_name: "m".to_string() });
    assert_eq!(handle.generate("hi", 64), Ok("[m DUMMY] HI".to_string()));
    assert_eq!(handle.generate_stream("hi", 128).unwrap(), vec!["[model=m]", "[m", "DUMMY]", "HI"]);
}

#[test]
fn shared_handle_leads_to_the_same_engine() {
    let handle = EngineHandle::new(Failing);
    assert!(matches!(handle, EngineHandle::Hosted(_)));
    let other = handle.share();
    assert_eq!(other.generate("x", 1), Err("boom".to_string()));
    assert_eq!(other.generate_stream("x", 1), Err("boom".to_string()));
    assert_eq!(handle.generate("x", 1), Err("boom".to_string()));
}

fn listed_as_whitespace(code: u32) -> bool {
    matches!(
        code,
        0x0009..=0x000D
            | 0x0020
            | 0x0085
            | 0x00A0
            | 0x1680
            | 0x2000..=0x200A
            | 0x2028
            | 0x2029
            | 0x202F
            | 0x205F
            | 0x3000
    )
}

#[test]
fn whitespace_is_the_listed_characters_and_no_other() {
    let mut count = 0;
    for code in 0..=0x10FFFF_u32 {
        if let Some(c) = char::from_u32(code) {
            assert_eq!(c.is_whitespace(), listed_as_whitespace(code), "U+{:04X}", code);
            if listed_as_whitespace(code) {
                count += 1;
            }
        }
    }
    assert_eq!(count, 25);
}

#[test]
fn every_listed_whitespace_character_separates_words() {
    for code in 0..=0x10FFFF_u32 {
        if let Some(c) = char::from_u32(code) {
            if listed_as_whitespace(code) || code % 4099 == 0 {
                let text = format!("a{}b", c);
                assert_eq!(whitespace_of(&text), vec![false, listed_as_whitespace(code), false]);
                if listed_as_whitespace(code) {
                    assert_eq!(split_words(&text), vec!["a", "b"]);
                } else {
                    assert_eq!(split_words(&text), vec![text.clone()]);
                }
            }
        }
    }
}

#[test]
fn stream_of_a_model_without_whitespace_in_its_name() {
    for (model, prompt) in [("llama-3b", "a b"), ("m", ""), ("x/y", "  one  two "), ("", "z")] {
        let engine = DummyEngine::new(model);
        let mut expected = vec![
            format!("[model={}]", model),
            format!("[{}", model),
            "DUMMY]".to_string(),
        ];
        expected.extend(prompt.to_uppercase().split_whitespace().map(|w| w.to_string()));
        assert_eq!(engine.generate_stream(prompt, 128).unwrap(), expected);
    }
}
