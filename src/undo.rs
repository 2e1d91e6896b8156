use vstd::prelude::*;
use vstd::std_specs::cmp::{PartialEqSpec, PartialOrdSpec};

verus! {

/// The abstract state of an [`UndoStack`]: every retained value, oldest first, and the index
/// of the live one. Entries before the cursor can be undone to, entries after it redone to.
pub struct Timeline<T> {
    /// Every retained value, oldest first.
    pub history: Seq<T>,
    /// Index of the live value in `history`.
    pub cursor: nat,
}

impl<T> Timeline<T> {
    /// The history is non-empty and the cursor indexes into it.
    pub open spec fn wf(self) -> bool {
        self.cursor < self.history.len()
    }

    /// The live value.
    pub open spec fn current(self) -> T {
        self.history[self.cursor as int]
    }

    /// The same timeline with the live value replaced by `v`.
    pub open spec fn set_current(self, v: T) -> Timeline<T> {
        Timeline { history: self.history.update(self.cursor as int, v), cursor: self.cursor }
    }

    /// The timeline after `v` is committed: the future is dropped, `v` is appended and becomes
    /// live.
    pub open spec fn push(self, v: T) -> Timeline<T> {
        Timeline { history: self.history.take(self.cursor + 1 as int).push(v), cursor: self.cursor + 1 }
    }

    /// There is an earlier value to go back to.
    pub open spec fn can_undo(self) -> bool {
        self.cursor > 0
    }

    /// There is a later value to go forward to.
    pub open spec fn can_redo(self) -> bool {
        self.cursor + 1 < self.history.len()
    }

    /// The timeline after an undo: the cursor steps back, unless it is at the start.
    pub open spec fn undo(self) -> Timeline<T> {
        if self.can_undo() {
            Timeline { history: self.history, cursor: (self.cursor - 1) as nat }
        } else {
            self
        }
    }

    /// The timeline after a redo: the cursor steps forward, unless it is at the end.
    pub open spec fn redo(self) -> Timeline<T> {
        if self.can_redo() {
            Timeline { history: self.history, cursor: self.cursor + 1 }
        } else {
            self
        }
    }

    /// The timeline after each value of `vs` is committed in turn.
    pub open spec fn push_all(self, vs: Seq<T>) -> Timeline<T>
        decreases vs.len(),
    {
        if vs.len() == 0 {
            self
        } else {
            self.push_all(vs.drop_last()).push(vs.last())
        }
    }

    /// The timeline after `k` undos in a row.
    pub open spec fn undo_n(self, k: nat) -> Timeline<T>
        decreases k,
    {
        if k == 0 {
            self
        } else {
            self.undo_n((k - 1) as nat).undo()
        }
    }
}

/// Committing the values `vs` (at least one) in turn keeps the past up to the cursor and
/// lays `vs` after it, the last of them live.
pub proof fn lemma_push_all<T>(t: Timeline<T>, vs: Seq<T>)
    requires
        t.wf(),
        vs.len() > 0,
    ensures
        t.push_all(vs) == (Timeline {
            history: t.history.take(t.cursor + 1 as int) + vs,
            cursor: t.cursor + vs.len(),
        }),
        t.push_all(vs).wf(),
    decreases vs.len(),
{
    let init = vs.drop_last();
    let kept = t.history.take(t.cursor + 1 as int);
    assert(kept.len() == t.cursor + 1);
    assert(t.push_all(vs) == t.push_all(init).push(vs.last()));
    if vs.len() == 1 {
        assert(t.push_all(init) == t);
        assert(kept.push(vs.last()) =~= kept + vs);
    } else {
        lemma_push_all(t, init);
        let u = t.push_all(init);
        assert(u.history.take(u.cursor + 1 as int) =~= u.history);
        assert((kept + init).push(vs.last()) =~= kept + vs);
    }
}

/// After `n` commits, `n` undos in a row all succeed and make the values that were live
/// before each commit current again, latest first; the timeline is then back at the
/// cursor and value it started from, and at the start one more undo fails.
pub proof fn lemma_undo_after_pushes<T>(t: Timeline<T>, vs: Seq<T>, k: nat)
    requires
        t.wf(),
        k <= vs.len(),
    ensures
        t.push_all(vs).undo_n(k).wf(),
        t.push_all(vs).undo_n(k).cursor == t.cursor + vs.len() - k,
        t.push_all(vs).undo_n(k).history == t.push_all(vs).history,
        k < vs.len() ==> t.push_all(vs).undo_n(k).can_undo(),
        k < vs.len() ==> t.push_all(vs).undo_n(k + 1).current() == if k + 1 == vs.len() {
            t.current()
        } else {
            vs[vs.len() - k - 2]
        },
        k == vs.len() ==> t.push_all(vs).undo_n(k).current() == t.current(),
        k == vs.len() && t.cursor == 0 ==> !t.push_all(vs).undo_n(k).can_undo(),
    decreases k,
{
    if vs.len() > 0 {
        lemma_push_all(t, vs);
    }
    let u = t.push_all(vs);
    if k > 0 {
        lemma_undo_after_pushes(t, vs, (k - 1) as nat);
    }
    let w = u.undo_n(k);
    assert(w.history == u.history);
    if k < vs.len() {
        assert(u.undo_n(k + 1) == w.undo());
    }
}

/// Undoing a commit and redoing it comes back to the exact timeline the commit made.
pub proof fn lemma_push_undo_redo<T>(t: Timeline<T>, v: T)
    requires
        t.wf(),
    ensures
        t.push(v).undo().redo() == t.push(v),
{
}

/// A commit made after stepping back `k` places drops the `k` values that could have been
/// redone, and everything after them: nothing is left to redo.
pub proof fn lemma_push_after_undo_drops_future<T>(t: Timeline<T>, k: nat, v: T)
    requires
        t.wf(),
        k <= t.cursor,
    ensures
        t.undo_n(k).cursor == t.cursor - k,
        t.undo_n(k).history == t.history,
        t.undo_n(k).push(v).history == t.history.take(t.cursor - k + 1).push(v),
        !t.undo_n(k).push(v).can_redo(),
        t.undo_n(k).push(v).redo() == t.undo_n(k).push(v),
    decreases k,
{
    if k > 0 {
        lemma_push_after_undo_drops_future(t, (k - 1) as nat, v);
    }
    let u = t.undo_n(k);
    assert(u.history.take(u.cursor + 1 as int).len() == u.cursor + 1);
}

/// A value of `T` with a linear undo/redo history.
///
/// [`save`](UndoStack::save) and [`push`](UndoStack::push) commit a new live value and drop
/// whatever could have been redone; [`undo`](UndoStack::undo) and [`redo`](UndoStack::redo)
/// move through the retained values without dropping any. The wrapper compares like its live
/// value alone.
#[derive(Clone, Debug)]
pub struct UndoStack<T> {
    /// Every retained value, oldest first; never empty.
    history: Vec<T>,
    /// Index of the live value in `history`.
    current: usize,
}

impl<T> View for UndoStack<T> {
    type V = Timeline<T>;

    closed spec fn view(&self) -> Timeline<T> {
        Timeline { history: self.history@, cursor: self.current as nat }
    }
}

impl<T> UndoStack<T> {
    /// Creates a stack whose only value, live, is `start`.
    pub fn new(start: T) -> (r: Self)
        ensures
            r@ == (Timeline { history: seq![start], cursor: 0 }),
            r@.wf(),
    {
        let r = UndoStack { history: vec![start], current: 0 };
        assert(r.history@ =~= seq![start]);
        r
    }

    /// Drops every value after the live one.
    fn invalidate_future(&mut self)
        requires
            old(self)@.wf(),
        ensures
            final(self)@ == (Timeline {
                history: old(self)@.history.take(old(self)@.cursor + 1 as int),
                cursor: old(self)@.cursor,
            }),
    {
        let len = self.history.len();
        if self.current + 1 != len {
            self.history.truncate(self.current + 1);
        }
        proof {
            assert(self.history@ =~= old(self)@.history.take(old(self)@.cursor + 1 as int));
        }
    }

    /// Appends `val` after the live value, which must be the last one, and makes it live.
    fn push_unchecked(&mut self, val: T) -> (r: &mut T)
        requires
            old(self)@.wf(),
            old(self)@.cursor + 1 == old(self)@.history.len(),
        ensures
            *r == val,
            final(self)@ == (Timeline {
                history: old(self)@.history.push(*final(r)),
                cursor: old(self)@.cursor + 1,
            }),
    {
        self.history.push(val);
        let len = self.history.len();
        self.current = len - 1;
        proof {
            let pushed = old(self)@.history.push(val);
            assert forall|x: T| #[trigger] pushed.update(len - 1, x) == old(self)@.history.push(x) by {
                assert(pushed.update(len - 1, x) =~= old(self)@.history.push(x));
            }
        }
        &mut self.history[self.current]
    }

    /// Commits a clone of the live value as the new live value, dropping every value after
    /// the old one, and returns mutable access to the new live value.
    pub fn save(&mut self) -> (r: &mut T) where T: Clone
        requires
            old(self)@.wf(),
        ensures
            cloned(old(self)@.current(), *r),
            final(self)@ == old(self)@.push(*final(r)),
            final(self)@.wf(),
    {
        self.invalidate_future();
        let val = self.history[self.current].clone();
        self.push_unchecked(val)
    }

    /// Commits `new_current` as the new live value, dropping every value after the old one,
    /// and returns mutable access to it.
    pub fn push(&mut self, new_current: T) -> (r: &mut T)
        requires
            old(self)@.wf(),
        ensures
            *r == new_current,
            final(self)@ == old(self)@.push(*final(r)),
            final(self)@.wf(),
    {
        self.invalidate_future();
        self.push_unchecked(new_current)
    }

    /// Steps back to the previous value: `Ok` with mutable access to it, or, at the start,
    /// `Err` with mutable access to the unchanged live value.
    pub fn undo(&mut self) -> (r: Result<&mut T, &mut T>)
        requires
            old(self)@.wf(),
        ensures
            r is Ok <==> old(self)@.can_undo(),
            match r {
                Ok(x) => *x == old(self)@.undo().current()
                    && final(self)@ == old(self)@.undo().set_current(*final(x)),
                Err(x) => *x == old(self)@.current()
                    && final(self)@ == old(self)@.set_current(*final(x)),
            },
            final(self)@.wf(),
    {
        if self.current > 0 {
            self.current -= 1;
            Ok(&mut self.history[self.current])
        } else {
            Err(&mut self.history[0])
        }
    }

    /// Steps forward to the next value: `Ok` with mutable access to it, or, at the end, `Err`
    /// with mutable access to the unchanged live value.
    pub fn redo(&mut self) -> (r: Result<&mut T, &mut T>)
        requires
            old(self)@.wf(),
        ensures
            r is Ok <==> old(self)@.can_redo(),
            match r {
                Ok(x) => *x == old(self)@.redo().current()
                    && final(self)@ == old(self)@.redo().set_current(*final(x)),
                Err(x) => *x == old(self)@.current()
                    && final(self)@ == old(self)@.set_current(*final(x)),
            },
            final(self)@.wf(),
    {
        let len = self.history.len();
        if self.current + 1 == len {
            Err(&mut self.history[self.current])
        } else {
            self.current += 1;
            Ok(&mut self.history[self.current])
        }
    }

    /// Checks that the history is non-empty and the cursor indexes into it. Every method of
    /// this type keeps that so, hence the requirement; the check always answers `true`.
    pub fn invariant_ck(&self) -> (r: bool)
        requires
            self@.wf(),
        ensures
            r,
    {
        !self.history.is_empty() && self.current < self.history.len()
    }

    /// Whether the cursor indexes into the history; used where nothing is known of the stack.
    fn cursor_in_bounds(&self) -> (r: bool)
        ensures
            r == self@.wf(),
    {
        self.current < self.history.len()
    }

    /// The live value.
    pub fn get(&self) -> (r: &T)
        requires
            self@.wf(),
        ensures
            *r == self@.current(),
    {
        &self.history[self.current]
    }

    /// Mutable access to the live value; the other values stay as they are.
    pub fn get_mut(&mut self) -> (r: &mut T)
        requires
            old(self)@.wf(),
        ensures
            *r == old(self)@.current(),
            final(self)@ == old(self)@.set_current(*final(r)),
    {
        &mut self.history[self.current]
    }
}

impl<T: Default> Default for UndoStack<T> {
    /// A stack whose only value is `T`'s default.
    fn default() -> (r: UndoStack<T>)
        ensures
            r@.wf(),
            r@.history.len() == 1,
            r@.cursor == 0,
            call_ensures(T::default, (), r@.history[0]),
    {
        let start = T::default();
        UndoStack::new(start)
    }
}

impl<T: PartialEq> PartialEq<T> for UndoStack<T> {
    /// Compares the live value with `other`; false for a stack whose cursor is out of bounds.
    fn eq(&self, other: &T) -> (r: bool) {
        if self.cursor_in_bounds() {
            self.history[self.current].eq(other)
        } else {
            false
        }
    }
}

impl<T: PartialEq> vstd::std_specs::cmp::PartialEqSpecImpl<T> for UndoStack<T> {
    open spec fn obeys_eq_spec() -> bool {
        <T as PartialEqSpec<T>>::obeys_eq_spec()
    }

    open spec fn eq_spec(&self, other: &T) -> bool {
        self@.wf() && self@.current().eq_spec(other)
    }
}

impl<T: PartialEq> PartialEq for UndoStack<T> {
    /// Compares the two live values; the rest of the histories plays no part.
    fn eq(&self, other: &UndoStack<T>) -> (r: bool) {
        if self.cursor_in_bounds() && other.cursor_in_bounds() {
            self.history[self.current].eq(&other.history[other.current])
        } else {
            false
        }
    }
}

impl<T: PartialEq> vstd::std_specs::cmp::PartialEqSpecImpl for UndoStack<T> {
    open spec fn obeys_eq_spec() -> bool {
        <T as PartialEqSpec<T>>::obeys_eq_spec()
    }

    open spec fn eq_spec(&self, other: &UndoStack<T>) -> bool {
        self@.wf() && other@.wf() && self@.current().eq_spec(&other@.current())
    }
}

impl<T: Eq> Eq for UndoStack<T> {}

impl<T: PartialOrd> PartialOrd<T> for UndoStack<T> {
    /// Orders the live value against `other`; `None` for a stack whose cursor is out of
    /// bounds.
    fn partial_cmp(&self, other: &T) -> (r: Option<core::cmp::Ordering>) {
        if self.cursor_in_bounds() {
            self.history[self.current].partial_cmp(other)
        } else {
            None
        }
    }
}

impl<T: PartialOrd> vstd::std_specs::cmp::PartialOrdSpecImpl<T> for UndoStack<T> {
    open spec fn obeys_partial_cmp_spec() -> bool {
        <T as PartialOrdSpec<T>>::obeys_partial_cmp_spec()
    }

    open spec fn partial_cmp_spec(&self, other: &T) -> Option<core::cmp::Ordering> {
        if self@.wf() {
            self@.current().partial_cmp_spec(other)
        } else {
            None
        }
    }
}

impl<T: PartialOrd> PartialOrd for UndoStack<T> {
    /// Orders the two live values; the rest of the histories plays no part.
    fn partial_cmp(&self, other: &UndoStack<T>) -> (r: Option<core::cmp::Ordering>) {
        if self.cursor_in_bounds() && other.cursor_in_bounds() {
            self.history[self.current].partial_cmp(&other.history[other.current])
        } else {
            None
        }
    }
}

impl<T: PartialOrd> vstd::std_specs::cmp::PartialOrdSpecImpl for UndoStack<T> {
    open spec fn obeys_partial_cmp_spec() -> bool {
        <T as PartialOrdSpec<T>>::obeys_partial_cmp_spec()
    }

    open spec fn partial_cmp_spec(&self, other: &UndoStack<T>) -> Option<core::cmp::Ordering> {
        if self@.wf() && other@.wf() {
            self@.current().partial_cmp_spec(&other@.current())
        } else {
            None
        }
    }
}

/// A well-formed stack compares and orders exactly like its live value, against a bare value
/// or against another well-formed stack, whatever the rest of either history holds; and it
/// obeys those specifications exactly when `T` does.
pub proof fn lemma_undo_compares_like_current<T: PartialOrd>(s: UndoStack<T>, t: UndoStack<T>, v: T)
    requires
        s@.wf(),
        t@.wf(),
    ensures
        <UndoStack<T> as PartialEqSpec<T>>::obeys_eq_spec()
            == <T as PartialEqSpec<T>>::obeys_eq_spec(),
        <UndoStack<T> as PartialEqSpec>::obeys_eq_spec()
            == <T as PartialEqSpec<T>>::obeys_eq_spec(),
        <UndoStack<T> as PartialOrdSpec<T>>::obeys_partial_cmp_spec()
            == <T as PartialOrdSpec<T>>::obeys_partial_cmp_spec(),
        <UndoStack<T> as PartialOrdSpec>::obeys_partial_cmp_spec()
            == <T as PartialOrdSpec<T>>::obeys_partial_cmp_spec(),
        s.eq_spec(&v) == s@.current().eq_spec(&v),
        s.eq_spec(&t) == s@.current().eq_spec(&t@.current()),
        s.partial_cmp_spec(&v) == s@.current().partial_cmp_spec(&v),
        s.partial_cmp_spec(&t) == s@.current().partial_cmp_spec(&t@.current()),
{
}

} // verus!
