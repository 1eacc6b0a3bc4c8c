use vstd::prelude::*;
use crate::chain::{ModelClient, TranslationChain};
use crate::errors::TranslationError;
use crate::fanout::{block_lines, block_matches, block_values, parse_fanout_block};
use crate::params::{covers, first_unbound, Params};
use crate::relay::{FragmentSink, RelayStanding, StreamRelay};
use crate::template::PromptTemplate;

verus! {

// ---------------------------------------------------------------------------
// The command surface: the two entry points the presentation layer
// calls, with the fixed startup configuration — template texts, model
// identifier, fan-out language set — all decided here.
// ---------------------------------------------------------------------------
/// The parameter mapping of a two-language translation command.
pub open spec fn translate_pairs(sentence: Seq<char>, slang: Seq<char>, tlang: Seq<char>) -> Seq<
    (Seq<char>, Seq<char>),
> {
    seq![("sentence"@, sentence), ("slang"@, slang), ("tlang"@, tlang)]
}

/// Builds the parameter mapping of the two-language command: the
/// sentence, the source language and the target language.
pub fn translate_params(sentence: &str, source_language: &str, target_language: &str) -> (r:
    Params)
    ensures
        r@ == translate_pairs(sentence@, source_language@, target_language@),
{
    let mut p = Params::new();
    p.set("sentence", sentence);
    p.set("slang", source_language);
    p.set("tlang", target_language);
    proof {
        assert(p@ =~= translate_pairs(sentence@, source_language@, target_language@));
    }
    p
}

/// The parameter mapping of a single-target translation command.
pub open spec fn single_target_pairs(sentence: Seq<char>, tlang: Seq<char>) -> Seq<
    (Seq<char>, Seq<char>),
> {
    seq![("sentence"@, sentence), ("tlang"@, tlang)]
}

/// Builds the parameter mapping of the single-target command, where the
/// source language is left for the model to detect.
pub fn single_target_params(sentence: &str, target_language: &str) -> (r: Params)
    ensures
        r@ == single_target_pairs(sentence@, target_language@),
{
    let mut p = Params::new();
    p.set("sentence", sentence);
    p.set("tlang", target_language);
    proof {
        assert(p@ =~= single_target_pairs(sentence@, target_language@));
    }
    p
}

/// The parameter mapping of a fan-out translation command.
pub open spec fn fanout_pairs(sentence: Seq<char>) -> Seq<(Seq<char>, Seq<char>)> {
    seq![("sentence"@, sentence)]
}

/// Builds the parameter mapping of the fan-out command: the sentence
/// alone; the target languages are fixed configuration.
pub fn fanout_params(sentence: &str) -> (r: Params)
    ensures
        r@ == fanout_pairs(sentence@),
{
    let mut p = Params::new();
    p.set("sentence", sentence);
    proof {
        assert(p@ =~= fanout_pairs(sentence@));
    }
    p
}

/// The identifier of the locally-hosted model every chain is bound to.
pub fn default_model_identifier() -> (r: String)
    ensures
        r@ == "llama3.2"@,
{
    String::from_str("llama3.2")
}

/// The event name under which stream fragments reach the presentation
/// layer.
pub fn chunk_event_name() -> (r: String)
    ensures
        r@ == "translation-chunk"@,
{
    String::from_str("translation-chunk")
}

/// The fixed target languages of fan-out mode, in the order the
/// response block must follow.
pub fn fanout_languages() -> (r: Vec<String>)
    ensures
        r.deep_view() == seq!["English"@, "French"@, "Japanese"@, "Korean"@],
{
    let mut v: Vec<String> = Vec::new();
    v.push(String::from_str("English"));
    v.push(String::from_str("French"));
    v.push(String::from_str("Japanese"));
    v.push(String::from_str("Korean"));
    proof {
        assert(v.deep_view() =~= seq!["English"@, "French"@, "Japanese"@, "Korean"@]);
    }
    v
}

/// Law: the two-language startup template text is well formed and its
/// placeholders are exactly the three names the command surface binds,
/// in order — so a two-language command with all three values supplied
/// never fails for a missing parameter.
#[verifier::rlimit(100)]
pub proof fn lemma_two_language_pattern()
    ensures
        crate::template::well_formed("将 {sentence} 从{slang}翻译成{tlang}"@),
        crate::template::placeholders("将 {sentence} 从{slang}翻译成{tlang}"@) == seq![
            "sentence"@,
            "slang"@,
            "tlang"@,
        ],
{
    reveal_strlit("将 {sentence} 从{slang}翻译成{tlang}");
    reveal_strlit("sentence");
    reveal_strlit("slang");
    reveal_strlit("tlang");
    assert(crate::template::well_formed("将 {sentence} 从{slang}翻译成{tlang}"@)) by {
        reveal_with_fuel(crate::template::scan_ok, 40);
    }
    assert(crate::template::placeholders("将 {sentence} 从{slang}翻译成{tlang}"@) =~~= seq![
        "sentence"@,
        "slang"@,
        "tlang"@,
    ]) by {
        reveal_with_fuel(crate::template::scan_names, 40);
        reveal_strlit("sentence");
        reveal_strlit("slang");
        reveal_strlit("tlang");
    }
}

/// The startup template of the two-language command: translate the
/// sentence from the source language into the target language, output
/// the translation alone.
pub fn two_language_template() -> (r: Result<PromptTemplate, TranslationError>)
    ensures
        r matches Ok(t) && t.wf() && t.human_text() == "将 {sentence} 从{slang}翻译成{tlang}"@
            && t.system_text() == "将句子从一种语言翻译为另一种语言。仅仅输出翻译后的句子，不输出其他内容。"@,
{
    proof {
        lemma_two_language_pattern();
    }
    PromptTemplate::new(
        "将句子从一种语言翻译为另一种语言。仅仅输出翻译后的句子，不输出其他内容。",
        "将 {sentence} 从{slang}翻译成{tlang}",
    )
}

/// Law: a two-language command that supplies a value for all three of
/// its parameters covers the startup template's placeholders, so such a
/// call is never refused for a missing parameter.
pub proof fn lemma_standard_params_cover(sentence: Seq<char>, slang: Seq<char>, tlang: Seq<char>)
    ensures
        covers(
            translate_pairs(sentence, slang, tlang),
            crate::template::placeholders("将 {sentence} 从{slang}翻译成{tlang}"@),
        ),
{
    lemma_two_language_pattern();
    reveal_strlit("sentence");
    reveal_strlit("slang");
    reveal_strlit("tlang");
    let ps = translate_pairs(sentence, slang, tlang);
    let names = seq!["sentence"@, "slang"@, "tlang"@];
    assert(crate::params::lookup(ps, "sentence"@) is Some) by {
        reveal_with_fuel(crate::params::lookup, 4);
    }
    assert(crate::params::lookup(ps, "slang"@) is Some) by {
        reveal_with_fuel(crate::params::lookup, 4);
        assert(ps.drop_first()[0] == ("slang"@, slang));
        assert("sentence"@.len() != "slang"@.len());
    }
    assert(crate::params::lookup(ps, "tlang"@) is Some) by {
        reveal_with_fuel(crate::params::lookup, 4);
        assert(ps.drop_first()[0] == ("slang"@, slang));
        assert(ps.drop_first().drop_first()[0] == ("tlang"@, tlang));
        assert("sentence"@.len() != "tlang"@.len());
        assert("slang"@[0] != "tlang"@[0]);
    }
    assert forall|k: int| 0 <= k < names.len() implies crate::params::lookup(
        ps,
        #[trigger] names[k],
    ) is Some by {
        if k == 0 {
            assert(names[k] == "sentence"@);
        } else if k == 1 {
            assert(names[k] == "slang"@);
        } else {
            assert(names[k] == "tlang"@);
        }
    }
}

/// Law: the single-target startup template text is well formed and its
/// placeholders are exactly the two names that command binds, in order.
#[verifier::rlimit(100)]
pub proof fn lemma_single_target_pattern()
    ensures
        crate::template::well_formed("将 {sentence} 翻译成{tlang}"@),
        crate::template::placeholders("将 {sentence} 翻译成{tlang}"@) == seq![
            "sentence"@,
            "tlang"@,
        ],
{
    reveal_strlit("将 {sentence} 翻译成{tlang}");
    reveal_strlit("sentence");
    reveal_strlit("tlang");
    assert(crate::template::well_formed("将 {sentence} 翻译成{tlang}"@)) by {
        reveal_with_fuel(crate::template::scan_ok, 30);
    }
    assert(crate::template::placeholders("将 {sentence} 翻译成{tlang}"@) =~~= seq![
        "sentence"@,
        "tlang"@,
    ]) by {
        reveal_with_fuel(crate::template::scan_names, 30);
        reveal_strlit("sentence");
        reveal_strlit("tlang");
    }
}

/// The startup template of the single-target command.
pub fn single_target_template() -> (r: Result<PromptTemplate, TranslationError>)
    ensures
        r matches Ok(t) && t.wf() && t.human_text() == "将 {sentence} 翻译成{tlang}"@
            && t.system_text() == "将句子翻译为指定的语言。仅仅输出翻译后的句子，不输出其他内容。"@,
{
    proof {
        lemma_single_target_pattern();
    }
    PromptTemplate::new(
        "将句子翻译为指定的语言。仅仅输出翻译后的句子，不输出其他内容。",
        "将 {sentence} 翻译成{tlang}",
    )
}

/// Law: the fan-out startup template text is well formed and asks for
/// the sentence alone, so the one-placeholder fan-out mapping always
/// covers it.
#[verifier::rlimit(100)]
pub proof fn lemma_fanout_pattern()
    ensures
        crate::template::well_formed("将 {sentence} 翻译成下列语言，每行输出「语言: 译文」：English、French、Japanese、Korean"@),
        crate::template::placeholders("将 {sentence} 翻译成下列语言，每行输出「语言: 译文」：English、French、Japanese、Korean"@)
            == seq!["sentence"@],
{
    reveal_strlit("将 {sentence} 翻译成下列语言，每行输出「语言: 译文」：English、French、Japanese、Korean");
    reveal_strlit("sentence");
    assert(crate::template::well_formed("将 {sentence} 翻译成下列语言，每行输出「语言: 译文」：English、French、Japanese、Korean"@))
        by {
        reveal_with_fuel(crate::template::scan_ok, 80);
    }
    assert(crate::template::placeholders("将 {sentence} 翻译成下列语言，每行输出「语言: 译文」：English、French、Japanese、Korean"@)
        =~~= seq!["sentence"@]) by {
        reveal_with_fuel(crate::template::scan_names, 80);
        reveal_strlit("sentence");
    }
}

/// The startup template of fan-out mode: one labeled line per
/// configured target language, in the configured order.
pub fn fanout_template() -> (r: Result<PromptTemplate, TranslationError>)
    ensures
        r matches Ok(t) && t.wf() && t.human_text()
            == "将 {sentence} 翻译成下列语言，每行输出「语言: 译文」：English、French、Japanese、Korean"@
            && t.system_text() == "将句子翻译成每种给出的语言。每行输出一种语言，格式为「语言: 译文」，不输出其他内容。"@,
{
    proof {
        lemma_fanout_pattern();
    }
    PromptTemplate::new(
        "将句子翻译成每种给出的语言。每行输出一种语言，格式为「语言: 译文」，不输出其他内容。",
        "将 {sentence} 翻译成下列语言，每行输出「语言: 译文」：English、French、Japanese、Korean",
    )
}

/// The blocking entry point of the command surface: builds the
/// two-language parameter mapping and runs one chain invocation against
/// the model; the model's answer, or the failure, is handed back as is.
pub fn translate<M: ModelClient>(
    chain: &TranslationChain,
    model: &mut M,
    sentence: &str,
    source_language: &str,
    target_language: &str,
) -> (r: Result<String, TranslationError>)
    requires
        chain.wf(),
    ensures
        !covers(
            translate_pairs(sentence@, source_language@, target_language@),
            chain.needed(),
        ) ==> (r matches Err(TranslationError::MissingParameter(m)) && m@ == first_unbound(
            translate_pairs(sentence@, source_language@, target_language@),
            chain.needed(),
        )),
        covers(translate_pairs(sentence@, source_language@, target_language@), chain.needed())
            ==> (r is Ok || (r matches Err(e) && e is ModelInvocation)),
{
    let params = translate_params(sentence, source_language, target_language);
    chain.invoke(model, &params)
}

/// The streaming entry point of the command surface: builds the
/// two-language parameter mapping, streams the chain's fragments to the
/// sink in production order, and hands back the session record beside
/// the outcome. `cancel_after` bounds how many fragments are pulled, so
/// an abandoned caller stops consuming promptly.
pub fn translate_stream<M: ModelClient, S: FragmentSink>(
    chain: &TranslationChain,
    model: &mut M,
    sink: &mut S,
    sentence: &str,
    source_language: &str,
    target_language: &str,
    cancel_after: usize,
) -> (r: (StreamRelay, Result<(), TranslationError>))
    requires
        chain.wf(),
    ensures
        !covers(
            translate_pairs(sentence@, source_language@, target_language@),
            chain.needed(),
        ) ==> (r.1 matches Err(TranslationError::MissingParameter(m)) && m@ == first_unbound(
            translate_pairs(sentence@, source_language@, target_language@),
            chain.needed(),
        ) && r.0@ == crate::relay::relay_init()),
        covers(translate_pairs(sentence@, source_language@, target_language@), chain.needed())
            ==> match r.1 {
            Ok(_) => r.0@.standing is Completed || r.0@.standing is Streaming,
            Err(e) => {
                ||| (e is ModelInvocation && r.0@ == crate::relay::relay_init())
                ||| (e matches TranslationError::StreamInterrupted(d) && r.0@.standing
                    == RelayStanding::Interrupted(d@))
                ||| (e matches TranslationError::SinkUnavailable(d) && r.0@.standing
                    == RelayStanding::SinkClosed(d@))
            },
        },
        r.1 is Ok ==> (r.0@.standing is Completed || r.0@.standing is Streaming),
{
    let params = translate_params(sentence, source_language, target_language);
    chain.stream(model, sink, &params, cancel_after)
}

/// The fan-out entry point: builds the one-placeholder mapping, runs
/// one invocation, and checks the model's answer against the configured
/// language block; a matching block comes back as one translation per
/// configured language, in the configured order.
pub fn translate_fanout<M: ModelClient>(chain: &TranslationChain, model: &mut M, sentence: &str)
    -> (r: Result<Vec<String>, TranslationError>)
    requires
        chain.wf(),
    ensures
        !covers(fanout_pairs(sentence@), chain.needed()) ==> (r matches Err(
            TranslationError::MissingParameter(m),
        ) && m@ == first_unbound(fanout_pairs(sentence@), chain.needed())),
        covers(fanout_pairs(sentence@), chain.needed()) ==> (r is Ok || (r matches Err(e)
            && e is ModelInvocation)),
        r matches Ok(vs) ==> vs.deep_view().len() == 4 && (exists|b: Seq<char>|
            block_matches(block_lines(b), seq!["English"@, "French"@, "Japanese"@, "Korean"@])
                && vs.deep_view() == block_values(
                block_lines(b),
                seq!["English"@, "French"@, "Japanese"@, "Korean"@],
            )),
{
    let params = fanout_params(sentence);
    match chain.invoke(model, &params) {
        Err(e) => Err(e),
        Ok(block) => {
            let languages = fanout_languages();
            let res = parse_fanout_block(block.as_str(), &languages);
            proof {
                if res is Ok {
                    assert(languages.deep_view() =~= seq![
                        "English"@,
                        "French"@,
                        "Japanese"@,
                        "Korean"@,
                    ]);
                    assert(block_matches(block_lines(block@), languages.deep_view()));
                    assert(block_values(
                        block_lines(block@),
                        languages.deep_view(),
                    ).len() == 4);
                    assert(res->Ok_0.deep_view() == block_values(
                        block_lines(block@),
                        seq!["English"@, "French"@, "Japanese"@, "Korean"@],
                    ));
                }
            }
            res
        },
    }
}

} // verus!
