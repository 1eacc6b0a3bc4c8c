use volant_lib::chain::{ModelClient, Prompt, TranslationChain};
use volant_lib::errors::TranslationError;
use volant_lib::params::Params;
use volant_lib::relay::FragmentSink;
use volant_lib::surface::{
    default_model_identifier, chunk_event_name, fanout_languages, fanout_params,
    fanout_template, single_target_params, single_target_template, translate, translate_fanout,
    translate_params, translate_stream, two_language_template,
};
use volant_lib::template::PromptTemplate;

/// A fake model that answers every completion with a fixed text and
/// streams a fixed script, while recording how it was used.
struct ScriptedModel {
    answer: Result<String, String>,
    begin_result: Result<(), String>,
    script: Vec<Option<Result<String, String>>>,
    complete_calls: usize,
    begin_calls: usize,
    pulls: usize,
    last_prompt: Option<(String, String)>,
}

impl ScriptedModel {
    fn answering(text: &str) -> ScriptedModel {
        ScriptedModel {
            answer: Ok(text.to_string()),
            begin_result: Ok(()),
            script: Vec::new(),
            complete_calls: 0,
            begin_calls: 0,
            pulls: 0,
            last_prompt: None,
        }
    }

    fn streaming(script: Vec<Option<Result<String, String>>>) -> ScriptedModel {
        ScriptedModel {
            answer: Ok(String::new()),
            begin_result: Ok(()),
            script,
            complete_calls: 0,
            begin_calls: 0,
            pulls: 0,
            last_prompt: None,
        }
    }
}

impl ModelClient for ScriptedModel {
    fn complete(&mut self, prompt: &Prompt) -> Result<String, String> {
        self.complete_calls += 1;
        self.last_prompt = Some((prompt.system.clone(), prompt.human.clone()));
        self.answer.clone()
    }

    fn begin_stream(&mut self, prompt: &Prompt) -> Result<(), String> {
        self.begin_calls += 1;
        self.last_prompt = Some((prompt.system.clone(), prompt.human.clone()));
        self.begin_result.clone()
    }

    fn next_fragment(&mut self) -> Option<Result<String, String>> {
        let i = self.pulls;
        self.pulls += 1;
        if i < self.script.len() {
            self.script[i].clone()
        } else {
            None
        }
    }
}

/// A fake model that echoes the substituted human turn back.
struct EchoModel {
    complete_calls: usize,
}

impl ModelClient for EchoModel {
    fn complete(&mut self, prompt: &Prompt) -> Result<String, String> {
        self.complete_calls += 1;
        Ok(prompt.human.clone())
    }

    fn begin_stream(&mut self, _prompt: &Prompt) -> Result<(), String> {
        Ok(())
    }

    fn next_fragment(&mut self) -> Option<Result<String, String>> {
        None
    }
}

/// A fake presentation sink that records fragments and can be told to
/// refuse every emit from some point on.
struct RecordingSink {
    received: Vec<String>,
    accept_at_most: usize,
}

impl RecordingSink {
    fn open() -> RecordingSink {
        RecordingSink { received: Vec::new(), accept_at_most: usize::MAX }
    }

    fn closing_after(n: usize) -> RecordingSink {
        RecordingSink { received: Vec::new(), accept_at_most: n }
    }
}

impl FragmentSink for RecordingSink {
    fn emit(&mut self, fragment: &String) -> Result<(), String> {
        if self.received.len() >= self.accept_at_most {
            Err("presentation channel closed".to_string())
        } else {
            self.received.push(fragment.clone());
            Ok(())
        }
    }
}

fn two_language_chain() -> TranslationChain {
    let template = two_language_template().expect("startup template must build");
    TranslationChain::new(template, "llama3.2")
}

#[test]
fn template_extracts_placeholders_in_order() {
    let template = two_language_template().expect("startup template must build");
    let names = template.placeholder_names();
    assert_eq!(names.len(), 3);
    assert_eq!(names[0], "sentence");
    assert_eq!(names[1], "slang");
    assert_eq!(names[2], "tlang");
}

#[test]
fn template_rejects_unbalanced_braces() {
    assert!(matches!(
        PromptTemplate::new("sys", "hello {oops"),
        Err(TranslationError::TemplateConstruction(_))
    ));
    assert!(matches!(
        PromptTemplate::new("sys", "stray } brace"),
        Err(TranslationError::TemplateConstruction(_))
    ));
    assert!(matches!(
        PromptTemplate::new("sys", "empty {} name"),
        Err(TranslationError::TemplateConstruction(_))
    ));
    assert!(matches!(
        PromptTemplate::new("sys", "nested {a{b}}"),
        Err(TranslationError::TemplateConstruction(_))
    ));
}

#[test]
fn substitution_replaces_every_placeholder() {
    let template = two_language_template().expect("startup template must build");
    let params = translate_params("Hello", "English", "French");
    let text = template.substitute(&params).expect("all placeholders bound");
    assert_eq!(text, "将 Hello 从English翻译成French");
}

#[test]
fn substitution_ignores_extra_parameters() {
    let template = single_target_template().expect("startup template must build");
    let mut params = Params::new();
    params.set("sentence", "Good morning");
    params.set("tlang", "German");
    params.set("unused", "whatever");
    let text = template.substitute(&params).expect("all placeholders bound");
    assert_eq!(text, "将 Good morning 翻译成German");
}

#[test]
fn substitution_names_first_missing_placeholder() {
    let template = two_language_template().expect("startup template must build");
    let mut params = Params::new();
    params.set("sentence", "Hello");
    params.set("tlang", "French");
    match template.substitute(&params) {
        Err(TranslationError::MissingParameter(name)) => assert_eq!(name, "slang"),
        other => panic!("expected MissingParameter, got {:?}", other),
    }
}

#[test]
fn invoke_returns_the_model_output_verbatim() {
    let chain = two_language_chain();
    let mut model = ScriptedModel::answering("Bonjour le monde");
    let result = translate(&chain, &mut model, "Hello world", "English", "French");
    assert_eq!(result, Ok("Bonjour le monde".to_string()));
    assert_eq!(model.complete_calls, 1);
    let (system, human) = model.last_prompt.expect("model saw the prompt");
    assert_eq!(human, "将 Hello world 从English翻译成French");
    assert!(!system.is_empty());
}

#[test]
fn invoke_substituted_prompt_reaches_the_model_exactly() {
    let chain = two_language_chain();
    let mut model = EchoModel { complete_calls: 0 };
    let result = translate(&chain, &mut model, "Hi", "English", "German");
    assert_eq!(result, Ok("将 Hi 从English翻译成German".to_string()));
}

#[test]
fn invoke_missing_parameter_makes_no_model_call() {
    let chain = two_language_chain();
    let mut model = ScriptedModel::answering("never seen");
    let mut params = Params::new();
    params.set("sentence", "Hello");
    match chain.invoke(&mut model, &params) {
        Err(TranslationError::MissingParameter(name)) => assert_eq!(name, "slang"),
        other => panic!("expected MissingParameter, got {:?}", other),
    }
    assert_eq!(model.complete_calls, 0);
    assert_eq!(model.begin_calls, 0);
}

#[test]
fn stream_missing_parameter_makes_no_model_call() {
    let chain = two_language_chain();
    let mut model = ScriptedModel::streaming(vec![Some(Ok("x".to_string()))]);
    let mut sink = RecordingSink::open();
    let params = Params::new();
    let (relay, outcome) = chain.stream(&mut model, &mut sink, &params, 100);
    match outcome {
        Err(TranslationError::MissingParameter(name)) => assert_eq!(name, "sentence"),
        other => panic!("expected MissingParameter, got {:?}", other),
    }
    assert_eq!(model.begin_calls, 0);
    assert_eq!(model.pulls, 0);
    assert!(sink.received.is_empty());
    assert!(relay.forwarded().is_empty());
}

#[test]
fn stream_delivers_fragments_in_order_exactly_once() {
    let chain = two_language_chain();
    let mut model = ScriptedModel::streaming(vec![
        Some(Ok("Bon".to_string())),
        Some(Ok("jour".to_string())),
        Some(Ok(" le".to_string())),
        Some(Ok(" monde".to_string())),
        None,
    ]);
    let mut sink = RecordingSink::open();
    let (relay, outcome) =
        translate_stream(&chain, &mut model, &mut sink, "Hello", "English", "French", 100);
    assert_eq!(outcome, Ok(()));
    assert_eq!(sink.received, vec!["Bon", "jour", " le", " monde"]);
    assert_eq!(relay.forwarded().clone(), sink.received);
    assert!(!relay.is_live());
    assert_eq!(relay.outcome(), Ok(()));
}

#[test]
fn stream_of_zero_fragments_completes_cleanly() {
    let chain = two_language_chain();
    let mut model = ScriptedModel::streaming(vec![None]);
    let mut sink = RecordingSink::open();
    let (relay, outcome) =
        translate_stream(&chain, &mut model, &mut sink, "Hello", "English", "French", 100);
    assert_eq!(outcome, Ok(()));
    assert!(sink.received.is_empty());
    assert!(relay.forwarded().is_empty());
    assert_eq!(relay.outcome(), Ok(()));
}

#[test]
fn stream_failure_after_two_fragments_keeps_them() {
    let chain = two_language_chain();
    let mut model = ScriptedModel::streaming(vec![
        Some(Ok("partial ".to_string())),
        Some(Ok("result".to_string())),
        Some(Err("inference failed".to_string())),
        Some(Ok("never delivered".to_string())),
    ]);
    let mut sink = RecordingSink::open();
    let (relay, outcome) =
        translate_stream(&chain, &mut model, &mut sink, "Hello", "English", "French", 100);
    match outcome {
        Err(TranslationError::StreamInterrupted(d)) => assert_eq!(d, "inference failed"),
        other => panic!("expected StreamInterrupted, got {:?}", other),
    }
    assert_eq!(sink.received, vec!["partial ", "result"]);
    assert_eq!(relay.forwarded().clone(), sink.received);
    assert!(matches!(
        relay.outcome(),
        Err(TranslationError::StreamInterrupted(_))
    ));
    assert_eq!(model.pulls, 3);
}

#[test]
fn stream_open_failure_carries_the_model_description() {
    let chain = two_language_chain();
    let mut model = ScriptedModel::streaming(vec![Some(Ok("never".to_string()))]);
    model.begin_result = Err("runtime unreachable".to_string());
    let mut sink = RecordingSink::open();
    let (relay, outcome) =
        translate_stream(&chain, &mut model, &mut sink, "Hello", "English", "French", 100);
    match outcome {
        Err(TranslationError::ModelInvocation(d)) => assert_eq!(d, "runtime unreachable"),
        other => panic!("expected ModelInvocation, got {:?}", other),
    }
    assert!(sink.received.is_empty());
    assert!(relay.forwarded().is_empty());
    assert_eq!(model.pulls, 0, "no fragment is pulled after the stream failed to open");
}

#[test]
fn stream_failure_before_any_fragment_reports_empty_partial() {
    let chain = two_language_chain();
    let mut model = ScriptedModel::streaming(vec![Some(Err("gone".to_string()))]);
    let mut sink = RecordingSink::open();
    let (relay, outcome) =
        translate_stream(&chain, &mut model, &mut sink, "Hello", "English", "French", 100);
    assert!(matches!(outcome, Err(TranslationError::StreamInterrupted(_))));
    assert!(sink.received.is_empty());
    assert!(relay.forwarded().is_empty());
}

#[test]
fn sink_refusal_aborts_the_stream_at_once() {
    let chain = two_language_chain();
    let mut model = ScriptedModel::streaming(vec![
        Some(Ok("one".to_string())),
        Some(Ok("two".to_string())),
        Some(Ok("three".to_string())),
        None,
    ]);
    let mut sink = RecordingSink::closing_after(1);
    let (relay, outcome) =
        translate_stream(&chain, &mut model, &mut sink, "Hello", "English", "French", 100);
    match outcome {
        Err(TranslationError::SinkUnavailable(d)) => assert_eq!(d, "presentation channel closed"),
        other => panic!("expected SinkUnavailable, got {:?}", other),
    }
    assert_eq!(sink.received, vec!["one"]);
    assert_eq!(relay.forwarded().clone(), sink.received);
    assert_eq!(model.pulls, 2, "no fragment is pulled after the sink refused one");
}

#[test]
fn cancellation_bound_stops_the_pulling() {
    let chain = two_language_chain();
    let mut model = ScriptedModel::streaming(vec![
        Some(Ok("a".to_string())),
        Some(Ok("b".to_string())),
        Some(Ok("c".to_string())),
        None,
    ]);
    let mut sink = RecordingSink::open();
    let (relay, outcome) =
        translate_stream(&chain, &mut model, &mut sink, "Hello", "English", "French", 2);
    assert_eq!(outcome, Ok(()));
    assert_eq!(sink.received, vec!["a", "b"]);
    assert!(relay.is_live(), "a cancelled session is cut off, not completed");
    assert_eq!(model.pulls, 2);
}

#[test]
fn fanout_parses_the_labeled_block_in_configured_order() {
    let template = fanout_template().expect("startup template must build");
    let chain = TranslationChain::new(template, "llama3.2");
    let mut model =
        ScriptedModel::answering("English: spring\nFrench: printemps\nJapanese: はる\nKorean: 봄\n");
    let result = translate_fanout(&chain, &mut model, "春").expect("block matches");
    assert_eq!(result, vec!["spring", "printemps", "はる", "봄"]);
    assert_eq!(result.len(), fanout_languages().len());
}

#[test]
fn fanout_rejects_a_block_out_of_order() {
    let template = fanout_template().expect("startup template must build");
    let chain = TranslationChain::new(template, "llama3.2");
    let mut model =
        ScriptedModel::answering("French: printemps\nEnglish: spring\nJapanese: はる\nKorean: 봄");
    assert!(matches!(
        translate_fanout(&chain, &mut model, "春"),
        Err(TranslationError::ModelInvocation(_))
    ));
}

#[test]
fn fanout_rejects_a_block_with_a_missing_line() {
    let template = fanout_template().expect("startup template must build");
    let chain = TranslationChain::new(template, "llama3.2");
    let mut model = ScriptedModel::answering("English: spring\nFrench: printemps");
    assert!(matches!(
        translate_fanout(&chain, &mut model, "春"),
        Err(TranslationError::ModelInvocation(_))
    ));
}

#[test]
fn model_failure_surfaces_as_model_invocation() {
    let chain = two_language_chain();
    let mut model = ScriptedModel::answering("unused");
    model.answer = Err("runtime unreachable".to_string());
    match translate(&chain, &mut model, "Hello", "English", "French") {
        Err(TranslationError::ModelInvocation(d)) => assert_eq!(d, "runtime unreachable"),
        other => panic!("expected ModelInvocation, got {:?}", other),
    }
}

#[test]
fn single_target_command_substitutes_without_source_language() {
    let template = single_target_template().expect("startup template must build");
    let chain = TranslationChain::new(template, "llama3.2");
    let mut model = EchoModel { complete_calls: 0 };
    let params = single_target_params("Hello", "Japanese");
    let result = chain.invoke(&mut model, &params);
    assert_eq!(result, Ok("将 Hello 翻译成Japanese".to_string()));
}

#[test]
fn error_descriptions_are_prefixed() {
    let e = TranslationError::MissingParameter("slang".to_string());
    assert_eq!(e.describe(), "missing parameter: slang");
    let e = TranslationError::SinkUnavailable("window closed".to_string());
    assert_eq!(e.describe(), "sink unavailable: window closed");
}

#[test]
fn fixed_configuration_values() {
    assert_eq!(default_model_identifier(), "llama3.2");
    assert_eq!(chunk_event_name(), "translation-chunk");
    assert_eq!(fanout_languages(), vec!["English", "French", "Japanese", "Korean"]);
    let p = fanout_params("春");
    assert_eq!(p.len(), 1);
}

#[test]
fn chain_keeps_its_template_and_model() {
    let chain = two_language_chain();
    assert_eq!(chain.model_identifier(), "llama3.2");
    assert_eq!(chain.template().human_pattern(), "将 {sentence} 从{slang}翻译成{tlang}");
    assert!(!chain.template().system_prompt().is_empty());
}
