//! What follows from the model of the runtime, whatever the effects do.

use crate::runtime::{lemma_without, notifies, propagates, runs, sets, without, Effect, State};
use vstd::prelude::*;

verus! {

/// A read outside any effect leaves the runtime as it was: it can be repeated
/// any number of times without touching the subscription graph.
pub proof fn read_outside_effect_changes_nothing<T, E>(pre: State<T, E>, signal: int)
    requires
        pre.running is None,
    ensures
        pre.read(signal) == pre,
{
}

/// A read never changes a value, a registered effect or the running effect,
/// and reading twice subscribes no more than reading once.
pub proof fn read_is_idempotent<T, E>(pre: State<T, E>, signal: int)
    requires
        0 <= signal < pre.subscribers.len(),
    ensures
        pre.read(signal).values == pre.values,
        pre.read(signal).effects == pre.effects,
        pre.read(signal).running == pre.running,
        pre.read(signal).read(signal) == pre.read(signal),
{
    match pre.running {
        Some(e) => {
            if !pre.subscribers[signal].contains(e) {
                let list = pre.subscribers[signal].push(e);
                assert(list[list.len() - 1] == e);
                assert(list.contains(e));
            }
        },
        None => {},
    }
}

/// A read inside an effect leaves that effect subscribed to the signal, keeps
/// every subscription there was, and touches no other signal.
pub proof fn read_subscribes_running_effect<T, E>(pre: State<T, E>, signal: int, effect: usize)
    requires
        0 <= signal < pre.subscribers.len(),
        pre.running == Some(effect),
    ensures
        pre.read(signal).subscribers[signal].contains(effect),
        forall|e: usize|
            pre.subscribers[signal].contains(e) ==> pre.read(signal).subscribers[signal].contains(e),
        forall|e: usize|
            pre.read(signal).subscribers[signal].contains(e) ==> e == effect
                || pre.subscribers[signal].contains(e),
        forall|s: int|
            0 <= s < pre.subscribers.len() && s != signal ==> pre.read(signal).subscribers[s]
                == pre.subscribers[s],
{
    let old_list = pre.subscribers[signal];
    if !old_list.contains(effect) {
        let list = old_list.push(effect);
        assert(list[list.len() - 1] == effect);
        assert forall|e: usize| old_list.contains(e) implies list.contains(e) by {
            let i = choose|i: int| 0 <= i < old_list.len() && old_list[i] == e;
            assert(list[i] == e);
        }
        assert forall|e: usize| list.contains(e) implies e == effect || old_list.contains(e) by {
            let i = choose|i: int| 0 <= i < list.len() && list[i] == e;
            if i < old_list.len() {
                assert(old_list[i] == e);
            }
        }
    }
}

/// Right after a write, the signal holds the value written, and nothing but
/// that value differs.
pub proof fn write_then_read<T, E>(pre: State<T, E>, signal: int, value: T)
    requires
        0 <= signal < pre.values.len(),
    ensures
        pre.write(signal, value).values[signal] == value,
        pre.write(signal, value).values.len() == pre.values.len(),
        forall|s: int|
            0 <= s < pre.values.len() && s != signal ==> pre.write(signal, value).values[s]
                == pre.values[s],
        pre.write(signal, value).subscribers == pre.subscribers,
        pre.write(signal, value).effects == pre.effects,
        pre.write(signal, value).running == pre.running,
{
}

/// Every step of the model keeps a well-formed state well-formed.
pub proof fn steps_keep_well_formed<T, E>(
    pre: State<T, E>,
    signal: int,
    value: T,
    effect: usize,
    f: E,
    prev: Option<usize>,
)
    requires
        pre.wf(),
    ensures
        State::<T, E>::empty().wf(),
        pre.add_signal(value).wf(),
        pre.add_effect(f).wf(),
        0 <= signal < pre.values.len() ==> pre.read(signal).wf(),
        0 <= signal < pre.values.len() ==> pre.write(signal, value).wf(),
        pre.enter(effect).wf(),
        pre.leave(effect, f, prev).wf(),
{
    let added = pre.add_signal(value);
    assert forall|s: int| 0 <= s < added.subscribers.len() implies (
    #[trigger] added.subscribers[s]).no_duplicates() by {
        if s < pre.subscribers.len() {
            assert(pre.subscribers[s].no_duplicates());
        }
    }
    if 0 <= signal < pre.values.len() {
        let after = pre.read(signal);
        assert forall|s: int| 0 <= s < after.subscribers.len() implies (
        #[trigger] after.subscribers[s]).no_duplicates() by {
            assert(pre.subscribers[s].no_duplicates());
        }
    }
    let entered = pre.enter(effect);
    assert forall|s: int| 0 <= s < entered.subscribers.len() implies (
    #[trigger] entered.subscribers[s]).no_duplicates() by {
        assert(pre.subscribers[s].no_duplicates());
        lemma_without(pre.subscribers[s], effect);
    }
}

/// When a run of an effect starts, the effect is subscribed to nothing: what
/// it is subscribed to after the run is what it read during the run. The
/// subscriptions of the other effects are kept as they were.
pub proof fn enter_drops_own_subscriptions<T, E>(pre: State<T, E>, effect: usize, signal: int)
    requires
        0 <= signal < pre.subscribers.len(),
    ensures
        !pre.enter(effect).subscribers[signal].contains(effect),
        forall|e: usize|
            e != effect ==> (pre.enter(effect).subscribers[signal].contains(e)
                <==> pre.subscribers[signal].contains(e)),
        !pre.subscribers[signal].contains(effect) ==> pre.enter(effect).subscribers[signal]
            == pre.subscribers[signal],
        pre.enter(effect).values == pre.values,
        pre.enter(effect).running == Some(effect),
{
    lemma_without(pre.subscribers[signal], effect);
    assert(pre.enter(effect).subscribers[signal] == without(pre.subscribers[signal], effect));
}

/// A run gives the reads back to whoever had them before it: the bookkeeping
/// of the running effect survives a run, however deep the runs nested in it.
pub proof fn run_restores_running_effect<T, E: Effect<T>>(
    pre: State<T, E>,
    effect: usize,
    post: State<T, E>,
)
    requires
        runs(pre, effect, post),
    ensures
        post.running == pre.running,
{
}

/// A request to run an effect that is executing already is dropped: an effect
/// that writes a signal it reads does not recurse into itself.
pub proof fn run_of_executing_effect_is_dropped<T, E: Effect<T>>(
    pre: State<T, E>,
    effect: usize,
    post: State<T, E>,
)
    requires
        pre.effects[effect as int] is None,
        runs(pre, effect, post),
    ensures
        post == pre,
{
}

/// While the body of an effect executes, the effect counts as executing and
/// the reads are attributed to it.
pub proof fn body_runs_as_its_effect<T, E>(pre: State<T, E>, effect: usize)
    requires
        effect < pre.effects.len(),
    ensures
        pre.enter(effect).running == Some(effect),
        pre.enter(effect).effects[effect as int] is None,
        pre.enter(effect).effects.len() == pre.effects.len(),
        forall|e: int|
            0 <= e < pre.effects.len() && e != effect ==> pre.enter(effect).effects[e]
                == pre.effects[e],
{
}

/// Notifying nobody does nothing.
pub proof fn propagates_nothing<T, E: Effect<T>>(pre: State<T, E>, post: State<T, E>)
    ensures
        propagates(pre, Seq::empty(), post) <==> post == pre,
{
}

/// Notifying a single effect is one notification of it.
pub proof fn propagates_one<T, E: Effect<T>>(pre: State<T, E>, effect: usize, post: State<T, E>)
    ensures
        propagates(pre, seq![effect], post) <==> notifies(pre, effect, post),
{
    let batch = seq![effect];
    assert(batch.drop_last() =~= Seq::<usize>::empty());
    assert(batch.last() == effect);
    if notifies(pre, effect, post) {
        assert(propagates(pre, batch.drop_last(), pre));
    }
    if propagates(pre, batch, post) {
        let mid = choose|mid: State<T, E>|
            propagates(pre, batch.drop_last(), mid) && #[trigger] notifies(mid, batch.last(), post);
        assert(mid == pre);
    }
}

/// Two batches notified one after the other are the joined batch notified.
pub proof fn propagates_join<T, E: Effect<T>>(
    pre: State<T, E>,
    first: Seq<usize>,
    mid: State<T, E>,
    second: Seq<usize>,
    post: State<T, E>,
)
    requires
        propagates(pre, first, mid),
        propagates(mid, second, post),
    ensures
        propagates(pre, first + second, post),
    decreases second.len(),
{
    if second.len() == 0 {
        assert(first + second =~= first);
    } else {
        let before_last = choose|s: State<T, E>|
            propagates(mid, second.drop_last(), s) && #[trigger] notifies(s, second.last(), post);
        propagates_join(pre, first, mid, second.drop_last(), before_last);
        assert((first + second).drop_last() =~= first + second.drop_last());
        assert((first + second).last() == second.last());
    }
}

/// A joined batch notified is its first part notified, then its second part,
/// on the state that the first part left.
pub proof fn propagates_split<T, E: Effect<T>>(
    pre: State<T, E>,
    first: Seq<usize>,
    second: Seq<usize>,
    post: State<T, E>,
) -> (mid: State<T, E>)
    requires
        propagates(pre, first + second, post),
    ensures
        propagates(pre, first, mid),
        propagates(mid, second, post),
    decreases second.len(),
{
    if second.len() == 0 {
        assert(first + second =~= first);
        post
    } else {
        let all = first + second;
        assert(all.drop_last() =~= first + second.drop_last());
        assert(all.last() == second.last());
        let before_last = choose|s: State<T, E>|
            propagates(pre, all.drop_last(), s) && #[trigger] notifies(s, all.last(), post);
        let mid = propagates_split(pre, first, second.drop_last(), before_last);
        mid
    }
}

/// What every notification of a batch keeps, the batch keeps. Only the
/// effects named in the batch are asked about: a write concerns no other.
pub proof fn propagates_keeps<T, E: Effect<T>>(
    pre: State<T, E>,
    batch: Seq<usize>,
    post: State<T, E>,
    kept: spec_fn(State<T, E>) -> bool,
)
    requires
        propagates(pre, batch, post),
        kept(pre),
        forall|a: State<T, E>, i: int, b: State<T, E>|
            0 <= i < batch.len() && kept(a) && #[trigger] notifies(a, batch[i], b) ==> kept(b),
    ensures
        kept(post),
    decreases batch.len(),
{
    if batch.len() > 0 {
        let mid = choose|mid: State<T, E>|
            propagates(pre, batch.drop_last(), mid) && #[trigger] notifies(mid, batch.last(), post);
        let head = batch.drop_last();
        assert forall|a: State<T, E>, i: int, b: State<T, E>|
            0 <= i < head.len() && kept(a) && #[trigger] notifies(a, head[i], b) implies kept(b) by {
            assert(head[i] == batch[i]);
        }
        propagates_keeps(pre, head, mid, kept);
        assert(notifies(mid, batch[batch.len() - 1], post));
    }
}

/// A whole wave of notifications gives the reads back to whoever had them
/// before it.
pub proof fn propagates_restores_running_effect<T, E: Effect<T>>(
    pre: State<T, E>,
    batch: Seq<usize>,
    post: State<T, E>,
)
    requires
        propagates(pre, batch, post),
    ensures
        post.running == pre.running,
    decreases batch.len(),
{
    if batch.len() > 0 {
        let mid = choose|mid: State<T, E>|
            propagates(pre, batch.drop_last(), mid) && #[trigger] notifies(mid, batch.last(), post);
        propagates_restores_running_effect(pre, batch.drop_last(), mid);
    }
}

/// A write gives the reads back to whoever had them before it.
pub proof fn set_restores_running_effect<T, E: Effect<T>>(
    pre: State<T, E>,
    signal: int,
    value: T,
    post: State<T, E>,
)
    requires
        sets(pre, signal, value, post),
    ensures
        post.running == pre.running,
{
    propagates_restores_running_effect(pre.write(signal, value), pre.subscribers[signal], post);
}

/// A write to a signal that nobody is subscribed to runs no effect: it stores
/// the value and does nothing else, so a read that follows returns it.
pub proof fn set_without_subscribers<T, E: Effect<T>>(
    pre: State<T, E>,
    signal: int,
    value: T,
    post: State<T, E>,
)
    requires
        0 <= signal < pre.values.len(),
        pre.subscribers[signal].len() == 0,
    ensures
        sets(pre, signal, value, post) <==> post == pre.write(signal, value),
        sets(pre, signal, value, post) ==> post.values[signal] == value && post.subscribers
            == pre.subscribers && post.effects == pre.effects,
{
}

/// A write to a signal with one subscriber notifies that effect once, on the
/// state that holds the new value: the effect runs once for each write, and
/// sees the value written.
pub proof fn set_with_one_subscriber<T, E: Effect<T>>(
    pre: State<T, E>,
    signal: int,
    value: T,
    effect: usize,
    post: State<T, E>,
)
    requires
        0 <= signal < pre.values.len(),
        pre.subscribers[signal] == seq![effect],
    ensures
        sets(pre, signal, value, post) <==> notifies(pre.write(signal, value), effect, post),
        pre.write(signal, value).enter(effect).values[signal] == value,
{
    propagates_one(pre.write(signal, value), effect, post);
}

/// A write keeps whatever each effect subscribed to the signal keeps, on a
/// state that holds the new value. An effect that is not subscribed to the
/// signal is not asked: the write does not run it.
pub proof fn set_keeps<T, E: Effect<T>>(
    pre: State<T, E>,
    signal: int,
    value: T,
    post: State<T, E>,
    kept: spec_fn(State<T, E>) -> bool,
)
    requires
        sets(pre, signal, value, post),
        kept(pre.write(signal, value)),
        forall|a: State<T, E>, i: int, b: State<T, E>|
            0 <= i < pre.subscribers[signal].len() && kept(a) && #[trigger] notifies(
                a,
                pre.subscribers[signal][i],
                b,
            ) ==> kept(b),
    ensures
        kept(post),
{
    propagates_keeps(pre.write(signal, value), pre.subscribers[signal], post, kept);
}

/// A read that follows a write returns the value written, provided that no
/// effect subscribed to the signal writes the signal itself while it is
/// notified.
pub proof fn set_then_read<T, E: Effect<T>>(
    pre: State<T, E>,
    signal: int,
    value: T,
    post: State<T, E>,
)
    requires
        0 <= signal < pre.values.len(),
        sets(pre, signal, value, post),
        forall|a: State<T, E>, i: int, b: State<T, E>|
            0 <= i < pre.subscribers[signal].len() && signal < a.values.len() && a.values[signal]
                == value && #[trigger] notifies(a, pre.subscribers[signal][i], b) ==> signal
                < b.values.len() && b.values[signal] == value,
    ensures
        signal < post.values.len(),
        post.values[signal] == value,
        post.read(signal).values[signal] == value,
{
    let kept = |s: State<T, E>| signal < s.values.len() && s.values[signal] == value;
    set_keeps(pre, signal, value, post, kept);
}

/// Every step of the model keeps the effect ids in the state naming
/// registered effects.
pub proof fn steps_keep_naming_effects<T, E>(
    pre: State<T, E>,
    signal: int,
    value: T,
    effect: usize,
    f: E,
    prev: Option<usize>,
)
    requires
        pre.names_effects(),
    ensures
        State::<T, E>::empty().names_effects(),
        pre.add_signal(value).names_effects(),
        pre.add_effect(f).names_effects(),
        0 <= signal < pre.subscribers.len() ==> pre.read(signal).names_effects(),
        pre.write(signal, value).names_effects(),
        effect < pre.effects.len() ==> pre.enter(effect).names_effects(),
        (prev matches Some(e) ==> e < pre.effects.len()) ==> pre.leave(
            effect,
            f,
            prev,
        ).names_effects(),
{
    let added = pre.add_signal(value);
    assert forall|s: int, i: int|
        0 <= s < added.subscribers.len() && 0 <= i < added.subscribers[s].len() implies (
    #[trigger] added.subscribers[s][i]) < added.effects.len() by {
        if s < pre.subscribers.len() {
            assert(pre.subscribers[s][i] < pre.effects.len());
        }
    }
    let registered = pre.add_effect(f);
    assert forall|s: int, i: int|
        0 <= s < registered.subscribers.len() && 0 <= i < registered.subscribers[s].len() implies (
    #[trigger] registered.subscribers[s][i]) < registered.effects.len() by {
        assert(pre.subscribers[s][i] < pre.effects.len());
    }
    if 0 <= signal < pre.subscribers.len() {
        let after = pre.read(signal);
        assert forall|s: int, i: int|
            0 <= s < after.subscribers.len() && 0 <= i < after.subscribers[s].len() implies (
        #[trigger] after.subscribers[s][i]) < after.effects.len() by {
            if s == signal && i == pre.subscribers[signal].len() {
            } else {
                assert(pre.subscribers[s][i] < pre.effects.len());
            }
        }
    }
    if effect < pre.effects.len() {
        let entered = pre.enter(effect);
        assert forall|s: int, i: int|
            0 <= s < entered.subscribers.len() && 0 <= i < entered.subscribers[s].len() implies (
        #[trigger] entered.subscribers[s][i]) < entered.effects.len() by {
            let kept = without(pre.subscribers[s], effect);
            let e = kept[i];
            lemma_without(pre.subscribers[s], effect);
            assert(kept.contains(e));
            assert(pre.subscribers[s].contains(e));
            let j = choose|j: int| 0 <= j < pre.subscribers[s].len() && pre.subscribers[s][j] == e;
            assert(pre.subscribers[s][j] < pre.effects.len());
        }
    }
    if prev matches Some(e) ==> e < pre.effects.len() {
        let left = pre.leave(effect, f, prev);
        assert forall|s: int, i: int|
            0 <= s < left.subscribers.len() && 0 <= i < left.subscribers[s].len() implies (
        #[trigger] left.subscribers[s][i]) < left.effects.len() by {
            assert(pre.subscribers[s][i] < pre.effects.len());
        }
    }
}

/// A run keeps the effect ids naming registered effects, provided the body
/// does and unregisters nothing. Such effects are never skipped when they are
/// notified.
pub proof fn run_keeps_naming_effects<T, E: Effect<T>>(
    pre: State<T, E>,
    effect: usize,
    post: State<T, E>,
)
    requires
        pre.names_effects(),
        effect < pre.effects.len(),
        runs(pre, effect, post),
        forall|mid: State<T, E>| #[trigger]
            pre.effects[effect as int]->0.transition(pre.enter(effect), mid)
                ==> mid.names_effects() && mid.effects.len() >= pre.effects.len(),
    ensures
        post.names_effects(),
        post.effects.len() >= pre.effects.len(),
{
    match pre.effects[effect as int] {
        Some(f) => {
            let mid = choose|mid: State<T, E>| #[trigger]
                f.transition(pre.enter(effect), mid) && post == mid.leave(effect, f, pre.running);
            steps_keep_naming_effects(mid, 0, arbitrary(), effect, f, pre.running);
        },
        None => {},
    }
}

} // verus!
