//! A lazy sequence that yields exactly one value and then signals exhaustion.
//!
//! A `Singleton` lets a single value be treated wherever a sequence producer is
//! expected, without allocating a multi-element container. It is created
//! holding exactly one value; the first produce step hands that value out and
//! leaves the sequence permanently exhausted.

use vstd::prelude::*;

verus! {

/// A sequence producer that yields its element once, then reports
/// end-of-sequence forever after.
pub struct Singleton<A> {
    elt: Option<A>,
}

impl<A> View for Singleton<A> {
    type V = Seq<A>;

    /// The elements not yet produced: one before the produce step, none after.
    closed spec fn view(&self) -> Seq<A> {
        match self.elt {
            Some(v) => seq![v],
            None => Seq::empty(),
        }
    }
}

/// What a produce step from the front yields on a sequence with remaining
/// elements `s`: the first element, or end-of-sequence when `s` is empty.
pub open spec fn produced_value<A>(s: Seq<A>) -> Option<A> {
    if s.len() == 0 {
        None
    } else {
        Some(s[0])
    }
}

/// The remaining elements after a produce step from the front: the first
/// element is gone, and an empty sequence stays empty.
pub open spec fn after_produce<A>(s: Seq<A>) -> Seq<A> {
    if s.len() == 0 {
        s
    } else {
        s.drop_first()
    }
}

/// What a produce step from the back yields: the last element, or
/// end-of-sequence when `s` is empty.
pub open spec fn produced_value_back<A>(s: Seq<A>) -> Option<A> {
    if s.len() == 0 {
        None
    } else {
        Some(s[s.len() - 1])
    }
}

/// The remaining elements after a produce step from the back.
pub open spec fn after_produce_back<A>(s: Seq<A>) -> Seq<A> {
    if s.len() == 0 {
        s
    } else {
        s.drop_last()
    }
}

/// Create a sequence that produces `element` once. Allows for promoting a
/// value to a sequence producer.
pub fn singleton<A>(element: A) -> (s: Singleton<A>)
    ensures
        s@ == seq![element],
{
    Singleton { elt: Some(element) }
}

impl<A> Singleton<A> {
    /// Produce the next value from the front: the pending element the first
    /// time, end-of-sequence on every later call.
    pub fn next(&mut self) -> (r: Option<A>)
        ensures
            r == produced_value(old(self)@),
            final(self)@ == after_produce(old(self)@),
    {
        let r = self.elt.take();
        proof {
            assert(self@ =~= after_produce(old(self)@));
        }
        r
    }

    /// Fold the remaining elements from the front. The combining function is
    /// applied at most once, to `init` and the pending element.
    pub fn fold<B, F: FnOnce(B, A) -> B>(self, init: B, f: F) -> (r: B)
        requires
            self@.len() == 1 ==> call_requires(f, (init, self@[0])),
        ensures
            self@.len() == 0 ==> r == init,
            self@.len() == 1 ==> call_ensures(f, (init, self@[0]), r),
    {
        match self.elt {
            Some(v) => f(init, v),
            None => init,
        }
    }
}

impl<A: Clone> Singleton<A> {
    /// Produce the next value from the back. Over a single element this
    /// observes exactly what a produce step from the front would, so it is an
    /// alias of `next`, not distinct logic.
    pub fn next_back(&mut self) -> (r: Option<A>)
        ensures
            r == produced_value_back(old(self)@),
            final(self)@ == after_produce_back(old(self)@),
    {
        proof {
            lemma_remaining_at_most_one(&*self);
            lemma_forward_backward_equiv(self@);
        }
        self.next()
    }

    /// Fold the remaining elements from the back. Element order over at most
    /// one element is immaterial, so this shares the forward fold.
    pub fn rfold<B, F: FnOnce(B, A) -> B>(self, init: B, f: F) -> (r: B)
        requires
            self@.len() == 1 ==> call_requires(f, (init, self@[0])),
        ensures
            self@.len() == 0 ==> r == init,
            self@.len() == 1 ==> call_ensures(f, (init, self@[0]), r),
    {
        self.fold(init, f)
    }

    /// The exact count of elements still to be produced: 1 before the produce
    /// step, 0 after.
    pub fn len(&self) -> (n: usize)
        ensures
            n == self@.len(),
    {
        if self.elt.is_some() {
            1
        } else {
            0
        }
    }
}

/// Promote a value to a sequence that produces it once. A convenience entry
/// point with no behaviour beyond delegating to `singleton`.
pub trait IntoSingleton<A>: Sized {
    /// The element the promoted sequence will hold.
    spec fn as_element(self) -> A;

    fn singleton(self) -> (s: Singleton<A>)
        ensures
            s@ == seq![self.as_element()],
    ;
}

impl<A> IntoSingleton<A> for A {
    open spec fn as_element(self) -> A {
        self
    }

    fn singleton(self) -> (s: Singleton<A>) {
        singleton(self)
    }
}

/// A sequence holds at most one element in every state: one while pending,
/// none once exhausted.
pub proof fn lemma_remaining_at_most_one<A>(s: &Singleton<A>)
    ensures
        s@.len() <= 1,
{
}

/// Law: a freshly constructed sequence produces exactly its value, and is
/// thereafter exhausted.
pub proof fn lemma_first_produce_yields_value<A>(v: A)
    ensures
        produced_value(seq![v]) == Some(v),
        after_produce(seq![v]).len() == 0,
{
    assert(after_produce(seq![v]) =~= Seq::<A>::empty());
}

/// Law: a second produce step, after the one that yielded the value, always
/// reports end-of-sequence.
pub proof fn lemma_second_produce_exhausted<A>(v: A)
    ensures
        produced_value(after_produce(seq![v])) == None::<A>,
{
    lemma_first_produce_yields_value(v);
}

/// The remaining elements after `n` produce steps from the front.
pub open spec fn after_produce_n<A>(s: Seq<A>, n: nat) -> Seq<A>
    decreases n,
{
    if n == 0 {
        s
    } else {
        after_produce(after_produce_n(s, (n - 1) as nat))
    }
}

/// Law: exhaustion is idempotent. Over any number of produce steps after
/// construction, only the first yields a value; the `n`th step for every
/// `n >= 2` (taken on the state after `n - 1` steps) reports end-of-sequence,
/// however large `n` grows.
pub proof fn lemma_exhaustion_idempotent<A>(v: A, n: nat)
    requires
        n >= 1,
    ensures
        after_produce_n(seq![v], n).len() == 0,
        produced_value(after_produce_n(seq![v], n)) == None::<A>,
    decreases n,
{
    assert(after_produce_n(seq![v], n) == after_produce(after_produce_n(seq![v], (n - 1) as nat)));
    if n == 1 {
        assert(after_produce_n(seq![v], 0nat) == seq![v]);
        lemma_first_produce_yields_value(v);
    } else {
        lemma_exhaustion_idempotent(v, (n - 1) as nat);
    }
}

/// Law: the size contract. Immediately after construction one element
/// remains; immediately after one produce step, none does.
pub proof fn lemma_size_contract<A>(v: A)
    ensures
        seq![v].len() == 1,
        after_produce(seq![v]).len() == 0,
{
    lemma_first_produce_yields_value(v);
}

/// Law: forward/backward equivalence. On any state a sequence can reach (at
/// most one element remaining), a produce step from the back yields the same
/// value and leaves the same state as a produce step from the front.
pub proof fn lemma_forward_backward_equiv<A>(s: Seq<A>)
    requires
        s.len() <= 1,
    ensures
        produced_value_back(s) == produced_value(s),
        after_produce_back(s) == after_produce(s),
{
    if s.len() == 1 {
        assert(after_produce_back(s) =~= after_produce(s));
    }
}

/// Law: the conversion capability agrees with direct construction. Promoting
/// a value yields a sequence with the same remaining elements as constructing
/// one, so every produce step on the two observes the same result.
pub proof fn lemma_conversion_equivalent<A>(v: A)
    ensures
        seq![v.as_element()] == seq![v],
        produced_value(seq![v.as_element()]) == produced_value(seq![v]),
{
}

} // verus!
