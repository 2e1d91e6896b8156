use vstd::prelude::*;
use vstd::std_specs::cmp::{PartialEqSpec, PartialOrdSpec};

verus! {

/// The abstract state of a [`HistoryStack`]: the saved values, oldest first, and the
/// live value.
pub struct SavedStack<T> {
    /// Saved values, oldest first; the last one comes back on the next pop.
    pub saved: Seq<T>,
    /// The live value.
    pub current: T,
}

impl<T> SavedStack<T> {
    /// The state after the live value is saved and replaced by `v`.
    pub open spec fn push_value(self, v: T) -> SavedStack<T> {
        SavedStack { saved: self.saved.push(self.current), current: v }
    }

    /// The state after `v` is saved, the live value staying as it is.
    pub open spec fn push_saved(self, v: T) -> SavedStack<T> {
        SavedStack { saved: self.saved.push(v), current: self.current }
    }

    /// The state after a pop: the last saved value becomes live; unchanged when nothing is
    /// saved.
    pub open spec fn pop(self) -> SavedStack<T> {
        if self.saved.len() == 0 {
            self
        } else {
            SavedStack { saved: self.saved.drop_last(), current: self.saved.last() }
        }
    }

    /// The state after `k` pops in a row.
    pub open spec fn pop_n(self, k: nat) -> SavedStack<T>
        decreases k,
    {
        if k == 0 {
            self
        } else {
            self.pop_n((k - 1) as nat).pop()
        }
    }

    /// What a pop hands back: the live value it replaced, if anything was saved.
    pub open spec fn popped(self) -> Option<T> {
        if self.saved.len() == 0 {
            None
        } else {
            Some(self.current)
        }
    }
}

/// Popping right after `push_value(v)` hands `v` back and restores the state from before
/// the push; popping right after a clone `c` was saved makes `c` current again.
pub proof fn lemma_pop_undoes_push<T>(s: SavedStack<T>, v: T)
    ensures
        s.push_value(v).pop() == s,
        s.push_value(v).popped() == Some(v),
        s.push_saved(v).pop() == (SavedStack { saved: s.saved, current: v }),
{
    assert(s.push_value(v).saved.drop_last() =~= s.saved);
    assert(s.push_saved(v).saved.drop_last() =~= s.saved);
}

/// Saved values come back in LIFO order: when `vs` lies on top of the saved values, the
/// `k`-th pop in a row succeeds, makes the `k`-th value of `vs` from the top current, and
/// leaves the values below it saved.
pub proof fn lemma_pops_are_lifo<T>(s: SavedStack<T>, vs: Seq<T>, k: nat)
    requires
        1 <= k <= vs.len(),
    ensures
        (SavedStack { saved: s.saved + vs, current: s.current }).pop_n(k) == (SavedStack {
            saved: s.saved + vs.take(vs.len() - k),
            current: vs[vs.len() - k],
        }),
        (SavedStack { saved: s.saved + vs, current: s.current }).pop_n((k - 1) as nat).popped() is Some,
    decreases k,
{
    let t = SavedStack { saved: s.saved + vs, current: s.current };
    let n = vs.len();
    if k == 1 {
        assert(t.pop_n(0) == t);
        assert((s.saved + vs).drop_last() =~= s.saved + vs.take(n - 1));
    } else {
        lemma_pops_are_lifo(s, vs, (k - 1) as nat);
        let prev = t.pop_n((k - 1) as nat);
        assert(prev.saved.len() > 0);
        assert(prev.saved.last() == vs[n - k]);
        assert(prev.saved.drop_last() =~= s.saved + vs.take(n - k));
    }
}

/// A value of `T` with a LIFO stack of saved values of `T` behind it.
///
/// [`push`](HistoryStack::push) and [`push_value`](HistoryStack::push_value) save a value;
/// [`pop`](HistoryStack::pop) makes the most recently saved value live again. The wrapper
/// compares like its current value: the saved values play no part in `==` or `<`.
#[derive(Clone, Default, Debug)]
pub struct HistoryStack<T> {
    /// Saved values, oldest first.
    stack: Vec<T>,
    /// The live value.
    current: T,
}

impl<T> View for HistoryStack<T> {
    type V = SavedStack<T>;

    closed spec fn view(&self) -> SavedStack<T> {
        SavedStack { saved: self.stack@, current: self.current }
    }
}

impl<T> HistoryStack<T> {
    /// Creates a stack whose current value is `v`, with nothing saved.
    pub fn new(v: T) -> (r: Self)
        ensures
            r@ == (SavedStack { saved: Seq::<T>::empty(), current: v }),
    {
        HistoryStack { stack: Vec::new(), current: v }
    }

    /// Makes the last saved value current again and returns the value it replaced.
    ///
    /// With nothing saved, returns `None` and leaves the stack as it is.
    pub fn pop(&mut self) -> (r: Option<T>)
        ensures
            final(self)@ == old(self)@.pop(),
            r == old(self)@.popped(),
            r is None <==> old(self)@.saved.len() == 0,
    {
        match self.stack.pop() {
            Some(last) => {
                let mut prev = last;
                core::mem::swap(&mut self.current, &mut prev);
                Some(prev)
            },
            None => None,
        }
    }

    /// Saves the current value and makes `v` current.
    pub fn push_value(&mut self, v: T)
        ensures
            final(self)@ == old(self)@.push_value(v),
    {
        let mut prev = v;
        core::mem::swap(&mut self.current, &mut prev);
        self.stack.push(prev);
    }

    /// Saves a clone of the current value, which stays current.
    pub fn push(&mut self) where T: Clone
        ensures
            final(self)@ == old(self)@.push_saved(final(self)@.saved.last()),
            cloned(old(self)@.current, final(self)@.saved.last()),
    {
        let c = self.current.clone();
        self.stack.push(c);
    }

    /// The current value.
    pub fn get(&self) -> (r: &T)
        ensures
            *r == self@.current,
    {
        &self.current
    }

    /// Mutable access to the current value; the saved values stay as they are.
    pub fn get_mut(&mut self) -> (r: &mut T)
        ensures
            *r == old(self)@.current,
            final(self)@ == (SavedStack { saved: old(self)@.saved, current: *final(r) }),
    {
        &mut self.current
    }
}

impl<T> core::ops::Deref for HistoryStack<T> {
    type Target = T;

    /// The current value.
    fn deref(&self) -> (r: &T) {
        &self.current
    }
}

impl<T> core::ops::DerefMut for HistoryStack<T> {
    /// Mutable access to the current value.
    fn deref_mut(&mut self) -> (r: &mut T) {
        &mut self.current
    }
}

impl<T: PartialEq> PartialEq<T> for HistoryStack<T> {
    /// Compares the current value with `other`.
    fn eq(&self, other: &T) -> (r: bool) {
        self.current.eq(other)
    }
}

impl<T: PartialEq> vstd::std_specs::cmp::PartialEqSpecImpl<T> for HistoryStack<T> {
    open spec fn obeys_eq_spec() -> bool {
        <T as PartialEqSpec<T>>::obeys_eq_spec()
    }

    open spec fn eq_spec(&self, other: &T) -> bool {
        self@.current.eq_spec(other)
    }
}

impl<T: PartialEq> PartialEq for HistoryStack<T> {
    /// Compares the two current values; the saved values play no part.
    fn eq(&self, other: &HistoryStack<T>) -> (r: bool) {
        self.current.eq(&other.current)
    }
}

impl<T: PartialEq> vstd::std_specs::cmp::PartialEqSpecImpl for HistoryStack<T> {
    open spec fn obeys_eq_spec() -> bool {
        <T as PartialEqSpec<T>>::obeys_eq_spec()
    }

    open spec fn eq_spec(&self, other: &HistoryStack<T>) -> bool {
        self@.current.eq_spec(&other@.current)
    }
}

impl<T: Eq> Eq for HistoryStack<T> {}

impl<T: PartialOrd> PartialOrd<T> for HistoryStack<T> {
    /// Orders the current value against `other`.
    fn partial_cmp(&self, other: &T) -> (r: Option<core::cmp::Ordering>) {
        self.current.partial_cmp(other)
    }
}

impl<T: PartialOrd> vstd::std_specs::cmp::PartialOrdSpecImpl<T> for HistoryStack<T> {
    open spec fn obeys_partial_cmp_spec() -> bool {
        <T as PartialOrdSpec<T>>::obeys_partial_cmp_spec()
    }

    open spec fn partial_cmp_spec(&self, other: &T) -> Option<core::cmp::Ordering> {
        self@.current.partial_cmp_spec(other)
    }
}

impl<T: PartialOrd> PartialOrd for HistoryStack<T> {
    /// Orders the two current values; the saved values play no part.
    fn partial_cmp(&self, other: &HistoryStack<T>) -> (r: Option<core::cmp::Ordering>) {
        self.current.partial_cmp(&other.current)
    }
}

impl<T: PartialOrd> vstd::std_specs::cmp::PartialOrdSpecImpl for HistoryStack<T> {
    open spec fn obeys_partial_cmp_spec() -> bool {
        <T as PartialOrdSpec<T>>::obeys_partial_cmp_spec()
    }

    open spec fn partial_cmp_spec(&self, other: &HistoryStack<T>) -> Option<core::cmp::Ordering> {
        self@.current.partial_cmp_spec(&other@.current)
    }
}

/// A stack compares and orders exactly like its current value, against a bare value or
/// against another stack, whatever either has saved; and it obeys those specifications
/// exactly when `T` does.
pub proof fn lemma_history_compares_like_current<T: PartialOrd>(
    s: HistoryStack<T>,
    t: HistoryStack<T>,
    v: T,
)
    ensures
        <HistoryStack<T> as PartialEqSpec<T>>::obeys_eq_spec()
            == <T as PartialEqSpec<T>>::obeys_eq_spec(),
        <HistoryStack<T> as PartialEqSpec>::obeys_eq_spec()
            == <T as PartialEqSpec<T>>::obeys_eq_spec(),
        <HistoryStack<T> as PartialOrdSpec<T>>::obeys_partial_cmp_spec()
            == <T as PartialOrdSpec<T>>::obeys_partial_cmp_spec(),
        <HistoryStack<T> as PartialOrdSpec>::obeys_partial_cmp_spec()
            == <T as PartialOrdSpec<T>>::obeys_partial_cmp_spec(),
        s.eq_spec(&v) == s@.current.eq_spec(&v),
        s.eq_spec(&t) == s@.current.eq_spec(&t@.current),
        s.partial_cmp_spec(&v) == s@.current.partial_cmp_spec(&v),
        s.partial_cmp_spec(&t) == s@.current.partial_cmp_spec(&t@.current),
{
}

} // verus!
