use vstd::prelude::*;
use crate::actor::{is_fatal, next, run, ActorState, ConfigView, EffectView, EventView, Operation};

verus! {

/// Number of acknowledgements of `tag` among `effs`.
pub open spec fn ack_count(effs: Seq<EffectView>, tag: u64) -> nat
    decreases effs.len(),
{
    if effs.len() == 0 {
        0
    } else {
        (if effs[0] == (EffectView::Ack { delivery_tag: tag }) { 1nat } else { 0nat })
            + ack_count(effs.drop_first(), tag)
    }
}

/// Number of deliveries tagged `tag` among `evs`.
pub open spec fn delivery_count(evs: Seq<EventView>, tag: u64) -> nat
    decreases evs.len(),
{
    if evs.len() == 0 {
        0
    } else {
        (if evs[0] is Delivery && evs[0]->Delivery_delivery_tag == tag { 1nat } else { 0nat })
            + delivery_count(evs.drop_first(), tag)
    }
}

/// Handling is serialised: the effects of items that arrive as `a` then `b`
/// are the effects of `a`, followed by those of `b` handled from the state
/// that `a` left, with nothing reordered across the two.
pub proof fn lemma_arrival_order(s: ActorState, cfg: ConfigView, a: Seq<EventView>, b: Seq<EventView>)
    ensures
        run(s, cfg, a + b).0 == run(run(s, cfg, a).0, cfg, b).0,
        run(s, cfg, a + b).1 == run(s, cfg, a).1 + run(run(s, cfg, a).0, cfg, b).1,
    decreases a.len(),
{
    if a.len() == 0 {
        assert(a + b =~= b);
        assert(Seq::<EffectView>::empty() + run(s, cfg, b).1 =~= run(s, cfg, b).1);
    } else {
        let s1 = next(s, cfg, a[0]).0;
        let e1 = next(s, cfg, a[0]).1;
        assert((a + b)[0] == a[0]);
        assert((a + b).drop_first() =~= a.drop_first() + b);
        lemma_arrival_order(s1, cfg, a.drop_first(), b);
        let mid = run(s1, cfg, a.drop_first());
        assert(e1 + (mid.1 + run(mid.0, cfg, b).1) =~= (e1 + mid.1) + run(mid.0, cfg, b).1);
    }
}

proof fn lemma_ack_count_concat(x: Seq<EffectView>, y: Seq<EffectView>, tag: u64)
    ensures
        ack_count(x + y, tag) == ack_count(x, tag) + ack_count(y, tag),
    decreases x.len(),
{
    if x.len() == 0 {
        assert(x + y =~= y);
    } else {
        assert((x + y)[0] == x[0]);
        assert((x + y).drop_first() =~= x.drop_first() + y);
        lemma_ack_count_concat(x.drop_first(), y, tag);
    }
}

/// While nothing stops a running actor, each delivery is acknowledged
/// exactly once: the acknowledgements of a tag match its deliveries one for
/// one, whether or not the payload decodes, and the actor keeps running.
pub proof fn lemma_ack_exactly_once(cfg: ConfigView, evs: Seq<EventView>, tag: u64)
    requires
        forall|i: int| 0 <= i < evs.len() ==> !is_fatal(#[trigger] evs[i]),
    ensures
        run(ActorState::Running, cfg, evs).0 == ActorState::Running,
        ack_count(run(ActorState::Running, cfg, evs).1, tag) == delivery_count(evs, tag),
    decreases evs.len(),
{
    if evs.len() > 0 {
        let e = evs[0];
        assert(!is_fatal(evs[0]));
        let rest = evs.drop_first();
        assert forall|i: int| 0 <= i < rest.len() implies !is_fatal(#[trigger] rest[i]) by {
            assert(rest[i] == evs[i + 1]);
        }
        lemma_ack_exactly_once(cfg, rest, tag);
        let e1 = next(ActorState::Running, cfg, e).1;
        lemma_ack_count_concat(e1, run(ActorState::Running, cfg, rest).1, tag);
        let one = if e is Delivery && e->Delivery_delivery_tag == tag { 1nat } else { 0nat };
        assert(ack_count(e1, tag) == one) by {
            reveal_with_fuel(ack_count, 4);
        }
    }
}

/// Over a window in which the timer fires `k` times and nothing else
/// arrives, a running actor publishes exactly `k` heartbeats, all to the
/// configured exchange and routing key.
pub proof fn lemma_heartbeat_cadence(cfg: ConfigView, k: nat)
    ensures
        run(ActorState::Running, cfg, Seq::new(k, |i: int| EventView::Tick)).0 == ActorState::Running,
        run(ActorState::Running, cfg, Seq::new(k, |i: int| EventView::Tick)).1
            == Seq::new(k, |i: int| EffectView::Publish(cfg.heartbeat)),
    decreases k,
{
    let ticks = Seq::new(k, |i: int| EventView::Tick);
    if k == 0 {
        assert(Seq::new(k, |i: int| EffectView::Publish(cfg.heartbeat)) =~= Seq::<EffectView>::empty());
    } else {
        let k1 = (k - 1) as nat;
        lemma_heartbeat_cadence(cfg, k1);
        assert(ticks.drop_first() =~= Seq::new(k1, |i: int| EventView::Tick));
        assert(seq![EffectView::Publish(cfg.heartbeat)] + Seq::new(k1, |i: int| EffectView::Publish(cfg.heartbeat))
            =~= Seq::new(k, |i: int| EffectView::Publish(cfg.heartbeat)));
    }
}

/// A broker call of a running actor that fails stops it, with the stop as
/// its only effect, unless the call was a publish: then the failure is only
/// reported and the actor keeps running.
pub proof fn lemma_failed_call(cfg: ConfigView, op: Operation)
    ensures
        op != Operation::Publish ==> next(ActorState::Running, cfg, EventView::BrokerError(op))
            == (ActorState::Stopping, seq![EffectView::Stop]),
        op == Operation::Publish ==> next(ActorState::Running, cfg, EventView::BrokerError(op))
            == (ActorState::Running, seq![EffectView::ReportPublishFailure]),
{
}

/// A stopping or stopped actor handles nothing more: whatever arrives, it
/// asks for no effect and does not run again.
pub proof fn lemma_stopped_is_silent(s: ActorState, cfg: ConfigView, evs: Seq<EventView>)
    requires
        s == ActorState::Stopping || s == ActorState::Stopped,
    ensures
        run(s, cfg, evs).0 == ActorState::Stopping || run(s, cfg, evs).0 == ActorState::Stopped,
        run(s, cfg, evs).1 == Seq::<EffectView>::empty(),
    decreases evs.len(),
{
    if evs.len() > 0 {
        lemma_stopped_is_silent(next(s, cfg, evs[0]).0, cfg, evs.drop_first());
        assert(Seq::<EffectView>::empty() + Seq::<EffectView>::empty() =~= Seq::<EffectView>::empty());
    }
}

/// An error item on the delivery stream of a running actor stops it: its
/// only effect is the stop, and nothing that arrives afterwards has any.
pub proof fn lemma_stream_error_is_fatal(cfg: ConfigView, rest: Seq<EventView>)
    ensures
        run(ActorState::Running, cfg, seq![EventView::StreamError] + rest).1 == seq![EffectView::Stop],
{
    let evs = seq![EventView::StreamError] + rest;
    assert(evs[0] == EventView::StreamError);
    assert(evs.drop_first() =~= rest);
    lemma_stopped_is_silent(ActorState::Stopping, cfg, rest);
    assert(seq![EffectView::Stop] + Seq::<EffectView>::empty() =~= seq![EffectView::Stop]);
}

} // verus!
