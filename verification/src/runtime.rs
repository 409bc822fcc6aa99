//! The reactive runtime: signal cells, registered effects, the subscription
//! graph between them, and the protocol that re-runs effects when a signal
//! they read is written.

use std::marker::PhantomData;
use vstd::prelude::*;

verus! {

/// Mathematical model of a runtime. Every contract of this module is stated
/// over it.
#[verifier::ext_equal]
pub struct State<T, E> {
    /// The value of each signal, by signal id.
    pub values: Seq<T>,
    /// For each signal, the ids of the effects to re-run when it is written,
    /// oldest subscription first.
    pub subscribers: Seq<Seq<usize>>,
    /// The registered effects, by effect id. An entry is `None` for as long
    /// as that effect's body is executing.
    pub effects: Seq<Option<E>>,
    /// The effect to which signal reads are currently attributed, if any.
    pub running: Option<usize>,
}

/// `list` with every occurrence of `effect` taken out, order kept.
pub open spec fn without(list: Seq<usize>, effect: usize) -> Seq<usize> {
    list.filter(|e: usize| e != effect)
}

impl<T, E> State<T, E> {
    /// Every signal has a subscriber list, and no list names an effect twice.
    pub open spec fn wf(self) -> bool {
        &&& self.subscribers.len() == self.values.len()
        &&& forall|s: int|
            0 <= s < self.subscribers.len() ==> (#[trigger] self.subscribers[s]).no_duplicates()
    }

    /// Every effect id in the state names a registered effect: the running
    /// effect, and each subscriber of each signal.
    pub open spec fn names_effects(self) -> bool {
        &&& self.running matches Some(e) ==> e < self.effects.len()
        &&& forall|s: int, i: int|
            0 <= s < self.subscribers.len() && 0 <= i < self.subscribers[s].len() ==> (
            #[trigger] self.subscribers[s][i]) < self.effects.len()
    }

    /// The state of a runtime that holds nothing.
    pub open spec fn empty() -> Self {
        State { values: Seq::empty(), subscribers: Seq::empty(), effects: Seq::empty(), running: None }
    }

    /// A new signal holding `value`, with no subscriber, behind the ones there are.
    pub open spec fn add_signal(self, value: T) -> Self {
        State {
            values: self.values.push(value),
            subscribers: self.subscribers.push(Seq::empty()),
            ..self
        }
    }

    /// A new effect `f`, behind the ones there are.
    pub open spec fn add_effect(self, f: E) -> Self {
        State { effects: self.effects.push(Some(f)), ..self }
    }

    /// What a read of `signal` leaves behind: the running effect, if there is
    /// one and it is not subscribed yet, becomes the signal's newest
    /// subscriber. A read outside any effect changes nothing.
    pub open spec fn read(self, signal: int) -> Self {
        match self.running {
            Some(e) if !self.subscribers[signal].contains(e) => State {
                subscribers: self.subscribers.update(signal, self.subscribers[signal].push(e)),
                ..self
            },
            _ => self,
        }
    }

    /// `signal` holds `value`; nothing else differs.
    pub open spec fn write(self, signal: int, value: T) -> Self {
        State { values: self.values.update(signal, value), ..self }
    }

    /// The state handed to the body of `effect` when a run of it starts: reads
    /// are attributed to it, it is marked as executing, and every subscription
    /// it held from earlier runs is dropped.
    pub open spec fn enter(self, effect: usize) -> Self {
        State {
            values: self.values,
            subscribers: Seq::new(
                self.subscribers.len(),
                |s: int| without(self.subscribers[s], effect),
            ),
            effects: self.effects.update(effect as int, None),
            running: Some(effect),
        }
    }

    /// The state a run of `effect` ends in, given the state `self` that its
    /// body `f` left: reads are attributed to `prev` again, and `f` is back in
    /// its slot if the slot is still there and still vacant.
    pub open spec fn leave(self, effect: usize, f: E, prev: Option<usize>) -> Self {
        State {
            effects: if effect < self.effects.len() && self.effects[effect as int] is None {
                self.effects.update(effect as int, Some(f))
            } else {
                self.effects
            },
            running: prev,
            ..self
        }
    }
}

/// A computation that a runtime re-runs whenever a signal it read on its
/// latest run is written. The body reads and writes signals through the
/// handles it holds and the runtime it is given.
pub trait Effect<T>: Sized {
    /// What one execution of the body may do to the runtime it is given.
    /// Unless an effect says more, anything.
    open spec fn transition(&self, pre: State<T, Self>, post: State<T, Self>) -> bool {
        true
    }

    /// Executes the body once.
    fn run(&self, rt: &mut Runtime<T, Self>)
        ensures
            self.transition(old(rt)@, final(rt)@),
    ;
}

/// One run of `effect` leads from `pre` to `post`. An effect that is
/// executing already is not entered again: the request is dropped.
pub open spec fn runs<T, E: Effect<T>>(pre: State<T, E>, effect: usize, post: State<T, E>) -> bool {
    match pre.effects[effect as int] {
        Some(f) => exists|mid: State<T, E>|
            #[trigger] f.transition(pre.enter(effect), mid) && post == mid.leave(
                effect,
                f,
                pre.running,
            ),
        None => post == pre,
    }
}

/// What one entry of a notification batch does: a run of `effect`, or nothing
/// where no such effect is registered any more.
pub open spec fn notifies<T, E: Effect<T>>(pre: State<T, E>, effect: usize, post: State<T, E>) -> bool {
    if effect < pre.effects.len() {
        runs(pre, effect, post)
    } else {
        post == pre
    }
}

/// The effects of `batch` are notified one after the other, in order, each on
/// the state that the former left, leading from `pre` to `post`.
pub open spec fn propagates<T, E: Effect<T>>(
    pre: State<T, E>,
    batch: Seq<usize>,
    post: State<T, E>,
) -> bool
    decreases batch.len(),
{
    if batch.len() == 0 {
        post == pre
    } else {
        exists|mid: State<T, E>|
            propagates(pre, batch.drop_last(), mid) && #[trigger] notifies(mid, batch.last(), post)
    }
}

/// A write of `value` to `signal` leads from `pre` to `post`: the value is
/// stored, then the effects subscribed at that moment are notified.
pub open spec fn sets<T, E: Effect<T>>(
    pre: State<T, E>,
    signal: int,
    value: T,
    post: State<T, E>,
) -> bool {
    propagates(pre.write(signal, value), pre.subscribers[signal], post)
}

struct SignalCell<T> {
    value: T,
    subscribers: Vec<usize>,
}

/// Owner of the signal cells, the effects and the subscription graph.
pub struct Runtime<T, E> {
    signals: Vec<SignalCell<T>>,
    effects: Vec<Option<E>>,
    running_effect: Option<usize>,
}

impl<T, E> View for Runtime<T, E> {
    type V = State<T, E>;

    closed spec fn view(&self) -> State<T, E> {
        State {
            values: Seq::new(self.signals@.len(), |s: int| self.signals@[s].value),
            subscribers: Seq::new(self.signals@.len(), |s: int| self.signals@[s].subscribers@),
            effects: self.effects@,
            running: self.running_effect,
        }
    }
}

impl<T, E> Runtime<T, E> {
    #[verifier::type_invariant]
    spec fn inv(self) -> bool {
        forall|s: int|
            0 <= s < self.signals@.len() ==> (#[trigger] self.signals@[s]).subscribers@.no_duplicates()
    }

    proof fn lemma_inv_wf(self)
        requires
            self.inv(),
        ensures
            self@.wf(),
    {
        assert forall|s: int| 0 <= s < self@.subscribers.len() implies (
        #[trigger] self@.subscribers[s]).no_duplicates() by {
            assert(self.signals@[s].subscribers@.no_duplicates());
        }
    }

    /// A runtime with no signal and no effect.
    pub fn new() -> (rt: Self)
        ensures
            rt@ == State::<T, E>::empty(),
            rt@.wf(),
    {
        Runtime { signals: Vec::new(), effects: Vec::new(), running_effect: None }
    }

    /// Number of signals created so far.
    pub fn signal_count(&self) -> (n: usize)
        ensures
            n == self@.values.len(),
            self@.wf(),
    {
        proof {
            use_type_invariant(self);
            self.lemma_inv_wf();
        }
        self.signals.len()
    }

    /// Whether `signal` names a signal of this runtime.
    pub fn contains(&self, signal: &Signal<T>) -> (known: bool)
        ensures
            known == (signal.id() < self@.values.len()),
            self@.wf(),
    {
        proof {
            use_type_invariant(self);
            self.lemma_inv_wf();
        }
        signal.id < self.signals.len()
    }

    /// Number of effects registered so far.
    pub fn effect_count(&self) -> (n: usize)
        ensures
            n == self@.effects.len(),
    {
        self.effects.len()
    }

    /// The effect to which reads are attributed at the moment.
    pub fn running_effect(&self) -> (running: Option<usize>)
        ensures
            running == self@.running,
    {
        self.running_effect
    }

    /// Whether the body of `effect` is executing at the moment.
    pub fn is_executing(&self, effect: usize) -> (executing: bool)
        requires
            effect < self@.effects.len(),
        ensures
            executing == (self@.effects[effect as int] is None),
    {
        self.effects[effect].is_none()
    }

    /// The effects subscribed to `signal`, oldest subscription first.
    pub fn subscribers(&self, signal: &Signal<T>) -> (list: Vec<usize>)
        requires
            signal.id() < self@.values.len(),
        ensures
            list@ == self@.subscribers[signal.id() as int],
            list@.no_duplicates(),
    {
        proof {
            use_type_invariant(self);
        }
        snapshot(&self.signals[signal.id].subscribers)
    }
}

impl<T, E> Default for Runtime<T, E> {
    fn default() -> (rt: Self)
        ensures
            rt@ == State::<T, E>::empty(),
            rt@.wf(),
    {
        Runtime::new()
    }
}

/// `without` on a list that grew by one entry.
pub proof fn lemma_without_push(list: Seq<usize>, last: usize, effect: usize)
    ensures
        without(list.push(last), effect) == if last != effect {
            without(list, effect).push(last)
        } else {
            without(list, effect)
        },
{
    reveal(Seq::filter);
    assert(list.push(last).drop_last() =~= list);
}

/// Facts about `without`: what it drops, what it keeps, and that it keeps a
/// list free of duplicates so.
pub proof fn lemma_without(list: Seq<usize>, effect: usize)
    ensures
        !without(list, effect).contains(effect),
        forall|e: usize| e != effect ==> (without(list, effect).contains(e) <==> list.contains(e)),
        list.no_duplicates() ==> without(list, effect).no_duplicates(),
        !list.contains(effect) ==> without(list, effect) == list,
        without(list, effect).len() <= list.len(),
    decreases list.len(),
{
    if list.len() == 0 {
        reveal(Seq::filter);
    } else {
        let head = list.drop_last();
        let last = list.last();
        let kept = without(head, effect);
        let all = without(list, effect);
        lemma_without(head, effect);
        assert(list =~= head.push(last));
        lemma_without_push(head, last, effect);
        assert forall|e: usize| list.contains(e) <==> (head.contains(e) || e == last) by {
            if list.contains(e) {
                let i = choose|i: int| 0 <= i < list.len() && list[i] == e;
                if i < head.len() {
                    assert(head[i] == e);
                }
            }
            if head.contains(e) {
                let i = choose|i: int| 0 <= i < head.len() && head[i] == e;
                assert(list[i] == e);
            }
            if e == last {
                assert(list[list.len() - 1] == e);
            }
        }
        if last != effect {
            assert(all == kept.push(last));
            assert forall|e: usize| all.contains(e) <==> (kept.contains(e) || e == last) by {
                if all.contains(e) {
                    let i = choose|i: int| 0 <= i < all.len() && all[i] == e;
                    if i < kept.len() {
                        assert(kept[i] == e);
                    }
                }
                if kept.contains(e) {
                    let i = choose|i: int| 0 <= i < kept.len() && kept[i] == e;
                    assert(all[i] == e);
                }
                if e == last {
                    assert(all[all.len() - 1] == e);
                }
            }
            if list.no_duplicates() {
                assert(head.no_duplicates());
                assert(!head.contains(last)) by {
                    if head.contains(last) {
                        let i = choose|i: int| 0 <= i < head.len() && head[i] == last;
                        assert(list[i] == list[list.len() - 1]);
                    }
                }
                assert(!kept.contains(last));
                assert(all.no_duplicates());
            }
        } else {
            assert(all == kept);
            if list.no_duplicates() {
                assert(head.no_duplicates());
            }
        }
        if !list.contains(effect) {
            assert(all =~= list);
        }
    }
}

/// Whether `list` names `effect`.
fn subscribed(list: &Vec<usize>, effect: usize) -> (found: bool)
    ensures
        found == list@.contains(effect),
{
    let mut i: usize = 0;
    while i < list.len()
        invariant
            i <= list.len(),
            forall|k: int| 0 <= k < i ==> list@[k] != effect,
        decreases list.len() - i,
    {
        if list[i] == effect {
            return true;
        }
        i += 1;
    }
    false
}

/// `list` without `effect`.
fn unsubscribed(list: &Vec<usize>, effect: usize) -> (kept: Vec<usize>)
    ensures
        kept@ == without(list@, effect),
{
    let mut kept: Vec<usize> = Vec::new();
    let mut i: usize = 0;
    proof {
        reveal(Seq::filter);
        assert(list@.take(0) =~= Seq::<usize>::empty());
    }
    while i < list.len()
        invariant
            i <= list.len(),
            kept@ == without(list@.take(i as int), effect),
        decreases list.len() - i,
    {
        let e = list[i];
        proof {
            lemma_without_push(list@.take(i as int), e, effect);
            assert(list@.take(i + 1) =~= list@.take(i as int).push(e));
        }
        if e != effect {
            kept.push(e);
        }
        i += 1;
    }
    proof {
        assert(list@.take(list@.len() as int) =~= list@);
    }
    kept
}

/// A copy of `list`.
fn snapshot(list: &Vec<usize>) -> (copy: Vec<usize>)
    ensures
        copy@ == list@,
{
    let mut copy: Vec<usize> = Vec::new();
    let mut i: usize = 0;
    while i < list.len()
        invariant
            i <= list.len(),
            copy@ == list@.take(i as int),
        decreases list.len() - i,
    {
        copy.push(list[i]);
        proof {
            assert(list@.take(i + 1) =~= list@.take(i as int).push(list@[i as int]));
        }
        i += 1;
    }
    proof {
        assert(list@.take(list@.len() as int) =~= list@);
    }
    copy
}

/// Handle to one signal of a runtime: the signal's id and the type of its value.
pub struct Signal<T> {
    id: usize,
    ty: PhantomData<T>,
}

impl<T> Clone for Signal<T> {
    fn clone(&self) -> (copy: Self)
        ensures
            copy == *self,
    {
        Signal { id: self.id, ty: PhantomData }
    }
}

impl<T> Copy for Signal<T> {

}

impl<T> Signal<T> {
    /// The id of the signal: its position among the signals of its runtime.
    #[verifier::when_used_as_spec(spec_id)]
    pub fn id(&self) -> (id: usize)
        ensures
            id == self.spec_id(),
    {
        self.id
    }

    pub closed spec fn spec_id(&self) -> usize {
        self.id
    }
}

impl<T, E> Runtime<T, E> {
    /// Creates a signal that holds `value`. Its id is the number of signals
    /// created before it.
    pub fn create_signal(&mut self, value: T) -> (signal: Signal<T>)
        ensures
            signal.id() == old(self)@.values.len(),
            final(self)@ == old(self)@.add_signal(value),
            final(self)@.wf(),
    {
        proof {
            use_type_invariant(&*self);
        }
        let mut signals: Vec<SignalCell<T>> = Vec::new();
        std::mem::swap(&mut signals, &mut self.signals);
        let id = signals.len();
        signals.push(SignalCell { value, subscribers: Vec::new() });
        self.signals = signals;
        proof {
            let post = self@;
            let want = old(self)@.add_signal(value);
            assert(post.values =~= want.values);
            assert(post.subscribers =~= want.subscribers);
            self.lemma_inv_wf();
        }
        Signal { id, ty: PhantomData }
    }
}

impl<T, E> Runtime<T, E> {
    /// First half of the run protocol. Where `effect` is not executing yet,
    /// takes its body out of its slot, drops the subscriptions it holds and
    /// attributes the reads to come to it. Where it is executing, does
    /// nothing and returns `None`.
    fn enter(&mut self, effect: usize) -> (body: Option<E>)
        requires
            effect < old(self)@.effects.len(),
        ensures
            body == old(self)@.effects[effect as int],
            body is Some ==> final(self)@ == old(self)@.enter(effect),
            body is None ==> final(self)@ == old(self)@,
    {
        proof {
            use_type_invariant(&*self);
        }
        if self.effects[effect].is_none() {
            return None;
        }
        let mut effects: Vec<Option<E>> = Vec::new();
        std::mem::swap(&mut effects, &mut self.effects);
        let body = effects[effect].take();
        self.effects = effects;

        let mut signals: Vec<SignalCell<T>> = Vec::new();
        std::mem::swap(&mut signals, &mut self.signals);
        let ghost before = signals@;
        let mut s: usize = 0;
        while s < signals.len()
            invariant
                s <= signals@.len(),
                signals@.len() == before.len(),
                forall|k: int| 0 <= k < before.len() ==> (#[trigger] before[k]).subscribers@.no_duplicates(),
                forall|k: int| 0 <= k < signals@.len() ==> (#[trigger] signals@[k]).value == before[k].value,
                forall|k: int|
                    0 <= k < s ==> (#[trigger] signals@[k]).subscribers@ == without(
                        before[k].subscribers@,
                        effect,
                    ),
                forall|k: int| s <= k < signals@.len() ==> #[trigger] signals@[k] == before[k],
            decreases signals@.len() - s,
        {
            let kept = unsubscribed(&signals[s].subscribers, effect);
            signals[s].subscribers = kept;
            s += 1;
        }
        proof {
            assert forall|k: int| 0 <= k < signals@.len() implies (
            #[trigger] signals@[k]).subscribers@.no_duplicates() by {
                lemma_without(before[k].subscribers@, effect);
            }
        }
        self.signals = signals;
        self.running_effect = Some(effect);
        proof {
            let post = self@;
            let want = old(self)@.enter(effect);
            assert(post.values =~= want.values);
            assert(post.subscribers =~= want.subscribers);
            assert(post.effects =~= want.effects);
        }
        body
    }

    /// Second half of the run protocol: puts `body` back in the slot of
    /// `effect`, if the slot is still there and vacant, and attributes reads
    /// to `prev` again.
    fn leave(&mut self, effect: usize, body: E, prev: Option<usize>)
        ensures
            final(self)@ == old(self)@.leave(effect, body, prev),
    {
        proof {
            use_type_invariant(&*self);
        }
        if effect < self.effects.len() && self.effects[effect].is_none() {
            let mut effects: Vec<Option<E>> = Vec::new();
            std::mem::swap(&mut effects, &mut self.effects);
            effects[effect] = Some(body);
            self.effects = effects;
        }
        self.running_effect = prev;
        proof {
            let post = self@;
            let want = old(self)@.leave(effect, body, prev);
            assert(post.effects =~= want.effects);
        }
    }
}

impl<T, E: Effect<T>> Runtime<T, E> {
    /// Runs `effect` once: enters it, executes its body, leaves it. While the
    /// body executes, the signals it reads subscribe it; what it was
    /// subscribed to before is forgotten. A request to run an effect that is
    /// executing is dropped.
    pub fn run_effect(&mut self, effect: usize)
        requires
            effect < old(self)@.effects.len(),
        ensures
            runs(old(self)@, effect, final(self)@),
            final(self)@.wf(),
    {
        let prev = self.running_effect;
        match self.enter(effect) {
            Some(body) => {
                body.run(self);
                let ghost mid = self@;
                self.leave(effect, body, prev);
                assert(body.transition(old(self)@.enter(effect), mid));
            },
            None => {},
        }
        proof {
            use_type_invariant(&*self);
            self.lemma_inv_wf();
        }
    }

    /// Registers `f` as the next effect and runs it once right away, which
    /// subscribes it to the signals it reads.
    pub fn create_effect(&mut self, f: E)
        ensures
            runs(old(self)@.add_effect(f), old(self)@.effects.len() as usize, final(self)@),
            final(self)@.wf(),
    {
        proof {
            use_type_invariant(&*self);
        }
        let mut effects: Vec<Option<E>> = Vec::new();
        std::mem::swap(&mut effects, &mut self.effects);
        let id = effects.len();
        effects.push(Some(f));
        self.effects = effects;
        assert(self@ == old(self)@.add_effect(f));
        self.run_effect(id);
    }
}

impl<T: Clone> Signal<T> {
    /// Reads the signal in `rt`: returns a clone of its value, and subscribes
    /// the running effect, if there is one. A read outside any effect leaves
    /// the runtime as it was.
    pub fn get<E>(&self, rt: &mut Runtime<T, E>) -> (value: T)
        requires
            self.id() < old(rt)@.values.len(),
        ensures
            cloned(old(rt)@.values[self.id() as int], value),
            final(rt)@ == old(rt)@.read(self.id() as int),
            final(rt)@.wf(),
    {
        proof {
            use_type_invariant(&*rt);
        }
        let running = rt.running_effect;
        let mut signals: Vec<SignalCell<T>> = Vec::new();
        std::mem::swap(&mut signals, &mut rt.signals);
        let ghost before = signals@;
        match running {
            Some(e) => {
                if !subscribed(&signals[self.id].subscribers, e) {
                    signals[self.id].subscribers.push(e);
                }
            },
            None => {},
        }
        let value = signals[self.id].value.clone();
        proof {
            assert forall|k: int| 0 <= k < signals@.len() implies (
            #[trigger] signals@[k]).subscribers@.no_duplicates() by {
                assert(before[k].subscribers@.no_duplicates());
            }
        }
        rt.signals = signals;
        proof {
            let post = rt@;
            let want = old(rt)@.read(self.id as int);
            assert(post.values =~= want.values);
            assert(post.subscribers =~= want.subscribers);
            rt.lemma_inv_wf();
        }
        value
    }
}

impl<T> Signal<T> {
    /// Writes `value` to the signal in `rt`, then notifies the effects that
    /// were subscribed to it at that moment, oldest subscription first. The
    /// call returns when all of them have run.
    pub fn set<E: Effect<T>>(&self, rt: &mut Runtime<T, E>, value: T)
        requires
            self.id() < old(rt)@.values.len(),
        ensures
            sets(old(rt)@, self.id() as int, value, final(rt)@),
            final(rt)@.wf(),
    {
        proof {
            use_type_invariant(&*rt);
        }
        let mut signals: Vec<SignalCell<T>> = Vec::new();
        std::mem::swap(&mut signals, &mut rt.signals);
        signals[self.id].value = value;
        let batch = snapshot(&signals[self.id].subscribers);
        rt.signals = signals;
        let ghost start = rt@;
        proof {
            let want = old(rt)@.write(self.id as int, value);
            assert(start.values =~= want.values);
            assert(start.subscribers =~= want.subscribers);
            assert(batch@.take(0) =~= Seq::<usize>::empty());
        }
        let mut i: usize = 0;
        while i < batch.len()
            invariant
                i <= batch.len(),
                propagates(start, batch@.take(i as int), rt@),
            decreases batch.len() - i,
        {
            let ghost mid = rt@;
            let effect = batch[i];
            if effect < rt.effect_count() {
                rt.run_effect(effect);
            }
            proof {
                let done = batch@.take(i + 1);
                assert(done.drop_last() =~= batch@.take(i as int));
                assert(done.last() == effect);
                assert(notifies(mid, effect, rt@));
            }
            i += 1;
        }
        proof {
            assert(batch@.take(batch@.len() as int) =~= batch@);
            use_type_invariant(&*rt);
            rt.lemma_inv_wf();
        }
    }
}

} // verus!
