use volant_lib::chain::{ModelClient, Prompt, TranslationChain};
use volant_lib::errors::TranslationError;
use volant_lib::handle::{ChainPhase, Directive, SharedChainHandle};
use volant_lib::surface::{translate, two_language_template};
use volant_lib::template::PromptTemplate;

/// A fake model that counts how many completions are in flight at once,
/// so a test can observe whether two invocations ever overlap.
struct OverlapProbe {
    in_flight: usize,
    max_in_flight: usize,
    calls: usize,
}

impl OverlapProbe {
    fn new() -> OverlapProbe {
        OverlapProbe { in_flight: 0, max_in_flight: 0, calls: 0 }
    }

    fn enter(&mut self) {
        self.in_flight += 1;
        if self.in_flight > self.max_in_flight {
            self.max_in_flight = self.in_flight;
        }
    }

    fn leave(&mut self) {
        self.in_flight -= 1;
    }
}

impl ModelClient for OverlapProbe {
    fn complete(&mut self, _prompt: &Prompt) -> Result<String, String> {
        self.calls += 1;
        Ok("done".to_string())
    }

    fn begin_stream(&mut self, _prompt: &Prompt) -> Result<(), String> {
        Ok(())
    }

    fn next_fragment(&mut self) -> Option<Result<String, String>> {
        None
    }
}

fn build_chain() -> Result<TranslationChain, TranslationError> {
    let template = two_language_template()?;
    Ok(TranslationChain::new(template, "llama3.2"))
}

#[test]
fn first_caller_constructs_then_serves() {
    let mut handle = SharedChainHandle::new();
    assert_eq!(handle.phase(), ChainPhase::Uninitialized);
    assert!(matches!(handle.request(0), Directive::Construct));
    assert_eq!(handle.phase(), ChainPhase::Initializing);
    handle.finish_initialization(build_chain());
    assert_eq!(handle.phase(), ChainPhase::Ready);
    assert!(matches!(handle.request(0), Directive::Proceed));
    let mut model = OverlapProbe::new();
    let result = translate(handle.chain(), &mut model, "Hello", "English", "French");
    assert_eq!(result, Ok("done".to_string()));
    handle.release();
}

#[test]
fn ten_concurrent_callers_are_serialized_in_arrival_order() {
    let mut handle = SharedChainHandle::new();
    assert!(matches!(handle.request(0), Directive::Construct));
    handle.finish_initialization(build_chain());

    let mut probe = OverlapProbe::new();

    // Ten callers arrive while the chain may be busy: the first is
    // granted at once, the rest must queue.
    assert!(matches!(handle.request(0), Directive::Proceed));
    for caller in 1u64..10 {
        assert!(matches!(handle.request(caller), Directive::Wait));
    }

    // Serve the first caller, then each queued caller as the handle
    // grants it; the probe sees every model call strictly one at a time.
    let mut served: Vec<u64> = Vec::new();
    let mut current: u64 = 0;
    loop {
        probe.enter();
        let result = translate(handle.chain(), &mut probe, "Hello", "English", "French");
        assert_eq!(result, Ok("done".to_string()));
        probe.leave();
        served.push(current);
        handle.release();
        match handle.grant_next() {
            Some(next) => current = next,
            None => break,
        }
    }

    assert_eq!(served, vec![0, 1, 2, 3, 4, 5, 6, 7, 8, 9]);
    assert_eq!(probe.calls, 10, "every issued call reached the model exactly once");
    assert_eq!(probe.max_in_flight, 1, "no two calls were in flight simultaneously");
}

#[test]
fn arrivals_during_initialization_wait_for_one_construction() {
    let mut handle = SharedChainHandle::new();
    assert!(matches!(handle.request(7), Directive::Construct));
    // Later arrivals must not trigger a second construction.
    assert!(matches!(handle.request(8), Directive::Wait));
    assert!(matches!(handle.request(9), Directive::Wait));
    assert_eq!(handle.phase(), ChainPhase::Initializing);
    handle.finish_initialization(build_chain());
    assert_eq!(handle.phase(), ChainPhase::Ready);
    // The queued callers are granted one at a time, in arrival order.
    assert_eq!(handle.grant_next(), Some(8));
    handle.release();
    assert_eq!(handle.grant_next(), Some(9));
    handle.release();
    assert_eq!(handle.grant_next(), None);
}

#[test]
fn construction_failure_is_cached_and_replayed() {
    let mut handle = SharedChainHandle::new();
    assert!(matches!(handle.request(0), Directive::Construct));

    // The startup template text is malformed: construction fails and
    // the chain (with its model client) is never built.
    let mut chain_constructions: usize = 0;
    let outcome = match PromptTemplate::new("sys", "broken {sentence") {
        Ok(template) => {
            chain_constructions += 1;
            Ok(TranslationChain::new(template, "llama3.2"))
        }
        Err(e) => Err(e),
    };
    let expected = match &outcome {
        Err(e) => e.describe(),
        Ok(_) => panic!("the malformed template must not build"),
    };
    handle.finish_initialization(outcome);
    assert_eq!(handle.phase(), ChainPhase::Failed);
    assert_eq!(chain_constructions, 0);

    // Every subsequent caller gets the same cached error; nothing is
    // retried and no construction ever happens.
    for caller in 1u64..6 {
        match handle.request(caller) {
            Directive::Fail(e) => assert_eq!(e.describe(), expected),
            other => panic!("expected the cached failure, got {:?}", directive_name(&other)),
        }
    }
    assert_eq!(handle.phase(), ChainPhase::Failed);
    assert_eq!(chain_constructions, 0);
}

fn directive_name(d: &Directive) -> &'static str {
    match d {
        Directive::Construct => "Construct",
        Directive::Wait => "Wait",
        Directive::Proceed => "Proceed",
        Directive::Fail(_) => "Fail",
    }
}
