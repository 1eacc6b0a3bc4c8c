use vstd::prelude::*;
use crate::errors::TranslationError;
use crate::params::{covers, first_unbound, Params};
use crate::relay::{FragmentSink, RelayStanding, StreamRelay};
use crate::template::{placeholders, substituted, PromptTemplate};

verus! {

/// A fully-substituted two-message prompt: the fixed system instruction
/// plus the substituted human turn.
pub struct Prompt {
    pub system: String,
    pub human: String,
}

/// The handle to the language-model backend, configured elsewhere with
/// the model identifier. The runtime behind it is an outside
/// collaborator: implementations live with the process glue, or with a
/// test's fake, and nothing is assumed of what they hand back.
pub trait ModelClient {
    /// One complete inference: the whole output text, or a failure
    /// description.
    fn complete(&mut self, prompt: &Prompt) -> Result<String, String>;

    /// Opens a fragment stream for the prompt.
    fn begin_stream(&mut self, prompt: &Prompt) -> Result<(), String>;

    /// The next fragment of the open stream: `Some(Ok(text))` for a
    /// fragment, `Some(Err(description))` for a mid-stream failure,
    /// `None` for a clean end of output.
    fn next_fragment(&mut self) -> Option<Result<String, String>>;
}

/// The unit of invocation: one validated prompt template bound to the
/// identifier of the model that will serve it. Stateless across calls.
pub struct TranslationChain {
    template: PromptTemplate,
    model_id: String,
}

impl TranslationChain {
    /// The bound template.
    pub closed spec fn template_spec(&self) -> PromptTemplate {
        self.template
    }

    /// The configured model identifier.
    pub closed spec fn model_name(&self) -> Seq<char> {
        self.model_id@
    }

    /// Validity: the bound template is validated.
    pub open spec fn wf(&self) -> bool {
        self.template_spec().wf()
    }

    /// The placeholder names an invocation must bind.
    pub open spec fn needed(&self) -> Seq<Seq<char>> {
        placeholders(self.template_spec().human_text())
    }

    /// Binds a validated template to a model identifier.
    pub fn new(template: PromptTemplate, model_id: &str) -> (r: TranslationChain)
        requires
            template.wf(),
        ensures
            r.wf(),
            r.template_spec() == template,
            r.model_name() == model_id@,
    {
        TranslationChain { template, model_id: model_id.to_owned() }
    }

    /// The bound template.
    pub fn template(&self) -> (r: &PromptTemplate)
        ensures
            *r == self.template_spec(),
    {
        &self.template
    }

    /// The configured model identifier.
    pub fn model_identifier(&self) -> (r: String)
        ensures
            r@ == self.model_name(),
    {
        self.model_id.clone()
    }

    /// Substitutes every placeholder and assembles the two-message
    /// prompt. Fails with `MissingParameter`, naming the first unbound
    /// placeholder, exactly when one is unbound; no model call is made
    /// here or after such a failure.
    pub fn render(&self, params: &Params) -> (r: Result<Prompt, TranslationError>)
        requires
            self.wf(),
        ensures
            covers(params@, self.needed()) ==> (r matches Ok(p) && p.human@ == substituted(
                self.template_spec().human_text(),
                params@,
            ) && p.system@ == self.template_spec().system_text()),
            !covers(params@, self.needed()) ==> (r matches Err(
                TranslationError::MissingParameter(m),
            ) && m@ == first_unbound(params@, self.needed())),
    {
        match self.template.substitute(params) {
            Ok(human) => Ok(Prompt { system: self.template.system_prompt(), human }),
            Err(e) => Err(e),
        }
    }

    /// What `invoke` hands back for each possible answer of the model
    /// runtime: the output text verbatim on success — no post-processing
    /// — and the failure as a `ModelInvocation` error otherwise.
    pub fn absorb_completion(outcome: Result<String, String>) -> (r: Result<
        String,
        TranslationError,
    >)
        ensures
            outcome matches Ok(t) ==> (r matches Ok(u) && u == t),
            outcome matches Err(d) ==> (r matches Err(TranslationError::ModelInvocation(m)) && m
                == d),
    {
        match outcome {
            Ok(t) => Ok(t),
            Err(d) => Err(TranslationError::ModelInvocation(d)),
        }
    }

    /// What `stream` hands back for each possible answer to opening the
    /// model's fragment stream: success as is, the failure description
    /// as a `ModelInvocation` error.
    pub fn absorb_stream_start(outcome: Result<(), String>) -> (r: Result<(), TranslationError>)
        ensures
            outcome is Ok ==> r is Ok,
            outcome matches Err(d) ==> (r matches Err(TranslationError::ModelInvocation(m)) && m
                == d),
    {
        match outcome {
            Ok(_) => Ok(()),
            Err(d) => Err(TranslationError::ModelInvocation(d)),
        }
    }

    /// The blocking request/response operation: substitutes every
    /// placeholder, sends the two-message prompt to the model once, and
    /// returns its answer through `absorb_completion` — verbatim output,
    /// no retry. When a placeholder is unbound it fails with
    /// `MissingParameter` before any model call.
    pub fn invoke<M: ModelClient>(&self, model: &mut M, params: &Params) -> (r: Result<
        String,
        TranslationError,
    >)
        requires
            self.wf(),
        ensures
            !covers(params@, self.needed()) ==> (r matches Err(
                TranslationError::MissingParameter(m),
            ) && m@ == first_unbound(params@, self.needed())),
            covers(params@, self.needed()) ==> (r is Ok || (r matches Err(e)
                && e is ModelInvocation)),
    {
        match self.render(params) {
            Err(e) => Err(e),
            Ok(prompt) => Self::absorb_completion(model.complete(&prompt)),
        }
    }

    /// The streaming operation: substitutes like `invoke`, opens the
    /// model's fragment stream, and forwards each produced fragment to
    /// the sink in receipt order, until the model ends its output, the
    /// model fails mid-stream, the sink refuses a fragment, or the
    /// cancellation bound is reached. The session record is handed back
    /// beside the outcome, so a caller sees the forwarded fragments even
    /// of a partial session.
    ///
    /// `cancel_after` is the cancellation hook: the driver stops pulling
    /// fragments once that many have been handled, so an abandoned
    /// caller never consumes the stream forever. A session cut off by
    /// the bound comes back with a live record and a success outcome.
    pub fn stream<M: ModelClient, S: FragmentSink>(
        &self,
        model: &mut M,
        sink: &mut S,
        params: &Params,
        cancel_after: usize,
    ) -> (r: (StreamRelay, Result<(), TranslationError>))
        requires
            self.wf(),
        ensures
            !covers(params@, self.needed()) ==> (r.1 matches Err(
                TranslationError::MissingParameter(m),
            ) && m@ == first_unbound(params@, self.needed()) && r.0@ == crate::relay::relay_init()),
            covers(params@, self.needed()) ==> match r.1 {
                Ok(_) => r.0@.standing is Completed || r.0@.standing is Streaming,
                Err(e) => {
                    ||| (e is ModelInvocation && r.0@ == crate::relay::relay_init())
                    ||| (e matches TranslationError::StreamInterrupted(d) && r.0@.standing
                        == RelayStanding::Interrupted(d@))
                    ||| (e matches TranslationError::SinkUnavailable(d) && r.0@.standing
                        == RelayStanding::SinkClosed(d@))
                },
            },
            r.1 is Ok ==> (r.0@.standing is Completed || r.0@.standing is Streaming),
    {
        let mut relay = StreamRelay::begin();
        let prompt = match self.render(params) {
            Err(e) => {
                return (relay, Err(e));
            },
            Ok(p) => p,
        };
        match Self::absorb_stream_start(model.begin_stream(&prompt)) {
            Err(e) => {
                return (relay, Err(e));
            },
            Ok(_) => {},
        }
        let mut pulled: usize = 0;
        while pulled < cancel_after
            invariant
                self.wf(),
                covers(params@, self.needed()),
                relay@.standing is Streaming,
                pulled <= cancel_after,
            decreases cancel_after - pulled,
        {
            match model.next_fragment() {
                None => {
                    relay.on_end();
                    return (relay, Ok(()));
                },
                Some(Err(d)) => {
                    let description = d.clone();
                    relay.on_model_failure(d);
                    return (relay, Err(TranslationError::StreamInterrupted(description)));
                },
                Some(Ok(frag)) => {
                    match sink.emit(&frag) {
                        Ok(_) => {
                            relay.on_fragment(&frag, Ok(()));
                        },
                        Err(d) => {
                            let description = d.clone();
                            relay.on_fragment(&frag, Err(d));
                            return (relay, Err(TranslationError::SinkUnavailable(description)));
                        },
                    }
                },
            }
            pulled = pulled + 1;
        }
        (relay, Ok(()))
    }
}

} // verus!
