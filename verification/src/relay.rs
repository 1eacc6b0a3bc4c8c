use vstd::prelude::*;
use crate::errors::TranslationError;

verus! {

/// The destination to which streamed fragments are forwarded, owned by
/// the presentation layer. Implementations live with the process glue,
/// or with a test's fake; nothing is assumed of their answers. A failure
/// means the presentation channel is unusable.
pub trait FragmentSink {
    /// Hands one fragment to the presentation layer; an error carries a
    /// description of why the channel refused it.
    fn emit(&mut self, fragment: &String) -> Result<(), String>;
}

/// One step of a streaming session, for stating laws about whole
/// sessions: a fragment the sink accepted, a fragment the sink refused,
/// a mid-stream model failure, or the clean end of output.
pub enum TraceStep {
    Delivered(Seq<char>),
    Refused(Seq<char>, Seq<char>),
    Failed(Seq<char>),
    Ended,
}

/// The standing of one streaming session.
pub enum RelayStatus {
    /// Fragments may still arrive.
    Streaming,
    /// The model signalled a clean end of output.
    Completed,
    /// The model failed mid-stream; fragments already forwarded remain
    /// valid, the result is partial.
    Interrupted(String),
    /// The sink refused a fragment; the session was aborted.
    SinkClosed(String),
}

/// The standing of a session, over mathematical values.
pub enum RelayStanding {
    Streaming,
    Completed,
    Interrupted(Seq<char>),
    SinkClosed(Seq<char>),
}

/// The abstract record of one session: the fragments forwarded to the
/// sink, in forwarding order, and the session's standing.
pub struct RelayView {
    pub forwarded: Seq<Seq<char>>,
    pub standing: RelayStanding,
}

/// The abstraction of an exec `RelayStatus`.
pub open spec fn standing_of(s: RelayStatus) -> RelayStanding {
    match s {
        RelayStatus::Streaming => RelayStanding::Streaming,
        RelayStatus::Completed => RelayStanding::Completed,
        RelayStatus::Interrupted(d) => RelayStanding::Interrupted(d@),
        RelayStatus::SinkClosed(d) => RelayStanding::SinkClosed(d@),
    }
}

/// The record of a session that has not begun.
pub open spec fn relay_init() -> RelayView {
    RelayView { forwarded: Seq::empty(), standing: RelayStanding::Streaming }
}

/// One step of the session machine: a terminal session absorbs every
/// further event; a live one appends a delivered fragment, and turns
/// terminal on a refusal, a model failure or the end of output.
pub open spec fn relay_step(v: RelayView, ev: TraceStep) -> RelayView {
    if !(v.standing is Streaming) {
        v
    } else {
        match ev {
            TraceStep::Delivered(f) => (RelayView {
                forwarded: v.forwarded.push(f),
                standing: RelayStanding::Streaming,
            }),
            TraceStep::Refused(f, d) => (RelayView {
                forwarded: v.forwarded,
                standing: RelayStanding::SinkClosed(d),
            }),
            TraceStep::Failed(d) => (RelayView {
                forwarded: v.forwarded,
                standing: RelayStanding::Interrupted(d),
            }),
            TraceStep::Ended => (RelayView {
                forwarded: v.forwarded,
                standing: RelayStanding::Completed,
            }),
        }
    }
}

/// The session machine folded over a whole event sequence.
pub open spec fn relay_run_from(v: RelayView, evs: Seq<TraceStep>) -> RelayView
    decreases evs.len(),
{
    if evs.len() == 0 {
        v
    } else {
        relay_run_from(relay_step(v, evs[0]), evs.drop_first())
    }
}

/// The session machine run from the initial record.
pub open spec fn relay_run(evs: Seq<TraceStep>) -> RelayView {
    relay_run_from(relay_init(), evs)
}

/// The event sequence of a run of fragments that the sink all accepted.
pub open spec fn deliveries(frags: Seq<Seq<char>>) -> Seq<TraceStep> {
    frags.map_values(|f: Seq<char>| TraceStep::Delivered(f))
}

proof fn lemma_run_deliveries_from(v: RelayView, frags: Seq<Seq<char>>)
    requires
        v.standing is Streaming,
    ensures
        relay_run_from(v, deliveries(frags)) == (RelayView {
            forwarded: v.forwarded + frags,
            standing: RelayStanding::Streaming,
        }),
    decreases frags.len(),
{
    if frags.len() == 0 {
        assert(deliveries(frags).len() == 0);
        assert(v.forwarded + frags =~= v.forwarded);
    } else {
        let ev0 = deliveries(frags)[0];
        assert(ev0 == TraceStep::Delivered(frags[0]));
        let v1 = relay_step(v, ev0);
        assert(deliveries(frags).drop_first() =~= deliveries(frags.drop_first()));
        lemma_run_deliveries_from(v1, frags.drop_first());
        assert(v.forwarded.push(frags[0]) + frags.drop_first() =~= v.forwarded + frags);
    }
}

proof fn lemma_run_append(v: RelayView, a: Seq<TraceStep>, b: Seq<TraceStep>)
    ensures
        relay_run_from(v, a + b) == relay_run_from(relay_run_from(v, a), b),
    decreases a.len(),
{
    if a.len() == 0 {
        assert(a + b =~= b);
    } else {
        assert((a + b)[0] == a[0]);
        assert((a + b).drop_first() =~= a.drop_first() + b);
        lemma_run_append(relay_step(v, a[0]), a.drop_first(), b);
    }
}

proof fn lemma_run_one(v: RelayView, ev: TraceStep)
    ensures
        relay_run_from(v, seq![ev]) == relay_step(v, ev),
{
    let s = seq![ev];
    assert(s.drop_first().len() == 0);
    assert(relay_run_from(relay_step(v, s[0]), s.drop_first()) == relay_step(v, s[0]));
}

/// Law: a session that has turned terminal never changes again — no
/// later event adds, retracts or reorders a fragment, and the standing
/// is kept.
pub proof fn lemma_terminal_absorbs(v: RelayView, evs: Seq<TraceStep>)
    requires
        !(v.standing is Streaming),
    ensures
        relay_run_from(v, evs) == v,
    decreases evs.len(),
{
    if evs.len() > 0 {
        lemma_terminal_absorbs(relay_step(v, evs[0]), evs.drop_first());
    }
}

/// Law: when the sink accepts every fragment and the model ends its
/// output cleanly, the session record holds exactly the produced
/// fragments, in production order, each exactly once, and the session
/// completes.
pub proof fn lemma_stream_delivers_in_order(frags: Seq<Seq<char>>)
    ensures
        relay_run(deliveries(frags) + seq![TraceStep::Ended]) == (RelayView {
            forwarded: frags,
            standing: RelayStanding::Completed,
        }),
{
    lemma_run_append(relay_init(), deliveries(frags), seq![TraceStep::Ended]);
    lemma_run_deliveries_from(relay_init(), frags);
    assert(Seq::<Seq<char>>::empty() + frags =~= frags);
    lemma_run_one(relay_run_from(relay_init(), deliveries(frags)), TraceStep::Ended);
}

/// Law: when the model fails after the sink accepted the first
/// fragments, the record holds exactly those fragments and then the
/// failure — nothing is retracted, nothing further is forwarded, and the
/// failure is distinguishable from a clean end.
pub proof fn lemma_interrupted_stream_keeps_prefix(frags: Seq<Seq<char>>, d: Seq<char>)
    ensures
        relay_run(deliveries(frags) + seq![TraceStep::Failed(d)]) == (RelayView {
            forwarded: frags,
            standing: RelayStanding::Interrupted(d),
        }),
{
    lemma_run_append(relay_init(), deliveries(frags), seq![TraceStep::Failed(d)]);
    lemma_run_deliveries_from(relay_init(), frags);
    assert(Seq::<Seq<char>>::empty() + frags =~= frags);
    lemma_run_one(relay_run_from(relay_init(), deliveries(frags)), TraceStep::Failed(d));
}

/// Law: when the sink refuses a fragment, the session aborts at that
/// point: the refused fragment is not recorded as forwarded, and no
/// later event changes the record.
pub proof fn lemma_sink_refusal_aborts(
    frags: Seq<Seq<char>>,
    f: Seq<char>,
    d: Seq<char>,
    later: Seq<TraceStep>,
)
    ensures
        relay_run(deliveries(frags) + seq![TraceStep::Refused(f, d)] + later) == (RelayView {
            forwarded: frags,
            standing: RelayStanding::SinkClosed(d),
        }),
{
    let refusal = seq![TraceStep::Refused(f, d)];
    lemma_run_append(relay_init(), deliveries(frags) + refusal, later);
    lemma_run_append(relay_init(), deliveries(frags), refusal);
    lemma_run_deliveries_from(relay_init(), frags);
    assert(Seq::<Seq<char>>::empty() + frags =~= frags);
    lemma_run_one(relay_run_from(relay_init(), deliveries(frags)), TraceStep::Refused(f, d));
    lemma_terminal_absorbs(relay_run(deliveries(frags) + refusal), later);
}

/// The live record of one streaming session: which fragments went to
/// the sink, in order, and how the session stands.
pub struct StreamRelay {
    forwarded: Vec<String>,
    status: RelayStatus,
}

impl View for StreamRelay {
    type V = RelayView;

    closed spec fn view(&self) -> RelayView {
        RelayView { forwarded: self.forwarded.deep_view(), standing: standing_of(self.status) }
    }
}

impl StreamRelay {
    /// A fresh session: nothing forwarded, fragments may arrive.
    pub fn begin() -> (r: StreamRelay)
        ensures
            r@ == relay_init(),
    {
        let r = StreamRelay { forwarded: Vec::new(), status: RelayStatus::Streaming };
        proof {
            assert(r@.forwarded =~= Seq::<Seq<char>>::empty());
        }
        r
    }

    /// Whether fragments may still arrive.
    pub fn is_live(&self) -> (r: bool)
        ensures
            r == (self@.standing is Streaming),
    {
        match &self.status {
            RelayStatus::Streaming => true,
            _ => false,
        }
    }

    /// The fragments forwarded so far, in forwarding order.
    pub fn forwarded(&self) -> (r: &Vec<String>)
        ensures
            r.deep_view() == self@.forwarded,
    {
        &self.forwarded
    }

    /// Records one produced fragment together with the sink's answer:
    /// an accepted fragment is appended to the record and the session
    /// stays live; a refused one is not recorded and closes the session.
    /// The result says whether the driver may keep pulling fragments.
    pub fn on_fragment(&mut self, fragment: &String, sink_result: Result<(), String>) -> (go_on:
        bool)
        requires
            old(self)@.standing is Streaming,
        ensures
            final(self)@ == relay_step(
                old(self)@,
                match sink_result {
                    Ok(_) => TraceStep::Delivered(fragment@),
                    Err(d) => TraceStep::Refused(fragment@, d@),
                },
            ),
            go_on == (sink_result is Ok),
    {
        match sink_result {
            Ok(_) => {
                let ghost old_f = self.forwarded.deep_view();
                self.forwarded.push(fragment.clone());
                proof {
                    assert(self.forwarded.deep_view() =~= old_f.push(fragment@));
                }
                true
            },
            Err(d) => {
                self.status = RelayStatus::SinkClosed(d);
                false
            },
        }
    }

    /// Records a mid-stream model failure: the session turns terminal,
    /// the fragments already forwarded remain recorded.
    pub fn on_model_failure(&mut self, description: String)
        requires
            old(self)@.standing is Streaming,
        ensures
            final(self)@ == relay_step(old(self)@, TraceStep::Failed(description@)),
    {
        self.status = RelayStatus::Interrupted(description);
    }

    /// Records the model's clean end of output.
    pub fn on_end(&mut self)
        requires
            old(self)@.standing is Streaming,
        ensures
            final(self)@ == relay_step(old(self)@, TraceStep::Ended),
    {
        self.status = RelayStatus::Completed;
    }

    /// The outcome a caller is handed for a finished session: success
    /// for a clean end, the distinguishing error otherwise.
    pub fn outcome(&self) -> (r: Result<(), TranslationError>)
        requires
            !(self@.standing is Streaming),
        ensures
            self@.standing is Completed <==> r is Ok,
            self@.standing matches RelayStanding::Interrupted(d) ==> (r matches Err(
                TranslationError::StreamInterrupted(m),
            ) && m@ == d),
            self@.standing matches RelayStanding::SinkClosed(d) ==> (r matches Err(
                TranslationError::SinkUnavailable(m),
            ) && m@ == d),
    {
        match &self.status {
            RelayStatus::Streaming => {
                proof {
                    assert(false);
                }
                Ok(())
            },
            RelayStatus::Completed => Ok(()),
            RelayStatus::Interrupted(d) => Err(TranslationError::StreamInterrupted(d.clone())),
            RelayStatus::SinkClosed(d) => Err(TranslationError::SinkUnavailable(d.clone())),
        }
    }
}

} // verus!
