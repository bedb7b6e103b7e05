use vstd::prelude::*;

verus! {

/// `r` is the position of the lowest empty slot of `slots`, or `None` when every slot is full.
pub open spec fn is_lowest_free<T>(slots: Seq<Option<T>>, r: Option<usize>) -> bool {
    match r {
        Some(i) => {
            &&& i < slots.len()
            &&& slots[i as int] is None
            &&& forall|j: int| 0 <= j < i ==> #[trigger] slots[j] is Some
        },
        None => forall|j: int| 0 <= j < slots.len() ==> #[trigger] slots[j] is Some,
    }
}

/// The slots after growing `slots` with empty ones so that position `pos` exists.
pub open spec fn grown_to<T>(slots: Seq<Option<T>>, pos: int) -> Seq<Option<T>> {
    if pos < slots.len() {
        slots
    } else {
        slots + Seq::new((pos + 1 - slots.len()) as nat, |i: int| None::<T>)
    }
}

/// What `add` does: the value goes into the hinted slot, or onto the end when there is no hint.
pub open spec fn add_result<T>(
    before: Seq<Option<T>>,
    hint: Option<usize>,
    value: T,
    pos: usize,
    after: Seq<Option<T>>,
) -> bool {
    match hint {
        Some(p) => pos == p && after == before.update(p as int, Some(value)),
        None => pos == before.len() && after == before.push(Some(value)),
    }
}

/// What `remove` does: the slot at `pos` is emptied and its content handed out; a position past
/// the end changes nothing.
pub open spec fn remove_result<T>(
    before: Seq<Option<T>>,
    pos: usize,
    out: Option<T>,
    after: Seq<Option<T>>,
) -> bool {
    if pos < before.len() {
        out == before[pos as int] && after == before.update(pos as int, None)
    } else {
        out is None && after == before
    }
}

/// The remembered empty slot after `remove(pos)` on `len` slots: the lower of the old hint and
/// `pos`, when `pos` exists.
pub open spec fn hint_after_remove(hint: Option<usize>, pos: usize, len: nat) -> Option<usize> {
    if pos >= len {
        hint
    } else {
        match hint {
            Some(f) => if pos < f {
                Some(pos)
            } else {
                Some(f)
            },
            None => Some(pos),
        }
    }
}

/// A vector of optional slots that remembers where an empty slot can be reused.
#[derive(Debug)]
pub struct OptVec<T> {
    vec: Vec<Option<T>>,
    first_free: Option<usize>,
}

impl<T> View for OptVec<T> {
    type V = Seq<Option<T>>;

    closed spec fn view(&self) -> Seq<Option<T>> {
        self.vec@
    }
}

impl<T> OptVec<T> {
    /// The remembered empty slot, if any.
    pub closed spec fn free_hint(&self) -> Option<usize> {
        self.first_free
    }

    /// The remembered slot, when there is one, exists and is empty.
    pub open spec fn wf(&self) -> bool {
        match self.free_hint() {
            Some(p) => p < self@.len() && self@[p as int] is None,
            None => true,
        }
    }

    /// The remembered slot is exactly the lowest empty one.
    pub open spec fn hint_is_lowest(&self) -> bool {
        is_lowest_free(self@, self.free_hint())
    }

    pub fn new() -> (r: Self)
        ensures
            r@ == Seq::<Option<T>>::empty(),
            r.free_hint() is None,
            r.wf(),
            r.hint_is_lowest(),
    {
        OptVec { vec: Vec::new(), first_free: None }
    }

    /// The slots, in order.
    pub fn slots(&self) -> (r: &Vec<Option<T>>)
        ensures
            r@ == self@,
    {
        &self.vec
    }

    /// The remembered empty slot.
    pub fn first_free(&self) -> (r: Option<usize>)
        ensures
            r == self.free_hint(),
    {
        self.first_free
    }

    pub fn get_mut(&mut self, pos: usize) -> (r: Option<&mut Option<T>>)
        ensures
            final(self).free_hint() == old(self).free_hint(),
            pos < old(self)@.len() ==> {
                &&& r is Some
                &&& *r.unwrap() == old(self)@[pos as int]
                &&& final(self)@ == old(self)@.update(pos as int, *final(r.unwrap()))
            },
            pos >= old(self)@.len() ==> r is None && final(self)@ == old(self)@,
    {
        if pos < self.vec.len() {
            Some(&mut self.vec[pos])
        } else {
            None
        }
    }
}


/// The lowest free slot is well defined: two answers that both qualify are the same.
pub proof fn law_lowest_free_is_unique<T>(slots: Seq<Option<T>>, a: Option<usize>, b: Option<usize>)
    requires
        is_lowest_free(slots, a),
        is_lowest_free(slots, b),
    ensures
        a == b,
{
    match (a, b) {
        (Some(i), Some(j)) => {
            if i < j {
                assert(slots[i as int] is Some);
            } else if j < i {
                assert(slots[j as int] is Some);
            }
        },
        (Some(i), None) => {
            assert(slots[i as int] is Some);
        },
        (None, Some(j)) => {
            assert(slots[j as int] is Some);
        },
        (None, None) => {},
    }
}

/// Removing at the position that `add` returned hands the added value back and empties that
/// slot again: the slots are as before, with one more empty slot when `add` had to grow them.
pub proof fn law_remove_undoes_add<T>(
    before: Seq<Option<T>>,
    hint: Option<usize>,
    value: T,
    pos: usize,
    mid: Seq<Option<T>>,
    out: Option<T>,
    after: Seq<Option<T>>,
)
    requires
        hint matches Some(p) ==> p < before.len() && before[p as int] is None,
        add_result(before, hint, value, pos, mid),
        remove_result(mid, pos, out, after),
    ensures
        out == Some(value),
        after == (if pos < before.len() { before } else { before.push(None) }),
{
    if pos < before.len() {
        assert(after =~= before);
    } else {
        assert(after =~= before.push(None));
    }
}

impl<T> OptVec<T> {
    /// Writes `value` at `pos`, growing the vector with empty slots when `pos` lies past its end,
    /// and returns what the slot held before.
    pub fn insert(&mut self, pos: usize, value: T) -> (r: Option<T>)
        requires
            old(self).wf(),
            pos < usize::MAX,
        ensures
            final(self).wf(),
            r == (if pos < old(self)@.len() { old(self)@[pos as int] } else { None }),
            final(self)@ == grown_to(old(self)@, pos as int).update(pos as int, Some(value)),
            r is None && old(self).free_hint() == Some(pos) ==> is_lowest_free(
                final(self)@,
                final(self).free_hint(),
            ),
            !(r is None && old(self).free_hint() == Some(pos)) ==> final(self).free_hint()
                == old(self).free_hint(),
            old(self).hint_is_lowest() && pos <= old(self)@.len() ==> final(self).hint_is_lowest(),
    {
        let ghost before = self@;
        if pos >= self.vec.len() {
            while self.vec.len() <= pos
                invariant
                    before.len() <= self.vec@.len() <= pos + 1,
                    self.vec@ == before + Seq::new(
                        (self.vec@.len() - before.len()) as nat,
                        |i: int| None::<T>,
                    ),
                    self.first_free == old(self).first_free,
                decreases pos + 1 - self.vec@.len(),
            {
                self.vec.push(None);
            }
        }
        let ghost grown = self.vec@;
        assert(grown == grown_to(before, pos as int));
        let prev = self.vec[pos].take();
        self.vec.set(pos, Some(value));
        match prev {
            Some(v) => Some(v),
            None => {
                if self.first_free == Some(pos) {
                    self.first_free = self.find_first_free();
                }
                proof {
                    if old(self).hint_is_lowest() && pos <= before.len() {
                        if old(self).first_free != Some(pos) {
                            match old(self).first_free {
                                Some(f) => {
                                    assert(f < pos);
                                },
                                None => {
                                    assert(pos == before.len());
                                },
                            }
                        }
                    }
                }
                None
            },
        }
    }

    /// Empties the slot at `pos` and returns its content; a position past the end changes nothing.
    pub fn remove(&mut self, pos: usize) -> (r: Option<T>)
        requires
            old(self).wf(),
        ensures
            final(self).wf(),
            remove_result(old(self)@, pos, r, final(self)@),
            final(self).free_hint() == hint_after_remove(old(self).free_hint(), pos, old(self)@.len()),
            old(self).hint_is_lowest() ==> final(self).hint_is_lowest(),
    {
        if pos >= self.vec.len() {
            None
        } else {
            if let Some(first_free) = self.first_free {
                if pos < first_free {
                    self.first_free = Some(pos);
                }
            } else {
                self.first_free = Some(pos);
            }
            let r = self.vec[pos].take();
            assert(self@ =~= old(self)@.update(pos as int, None));
            r
        }
    }

    /// Puts `value` into the remembered empty slot, or at the end when none is remembered, and
    /// returns its position.
    pub fn add(&mut self, value: T) -> (r: usize)
        requires
            old(self).wf(),
        ensures
            final(self).wf(),
            add_result(old(self)@, old(self).free_hint(), value, r, final(self)@),
            old(self).free_hint() is Some ==> is_lowest_free(final(self)@, final(self).free_hint()),
            old(self).free_hint() is None ==> final(self).free_hint() is None,
            r < old(self)@.len() ==> old(self)@[r as int] is None,
            r <= old(self)@.len(),
            old(self).hint_is_lowest() ==> is_lowest_free(
                old(self)@,
                if r < old(self)@.len() { Some(r) } else { None },
            ),
            old(self).hint_is_lowest() ==> final(self).hint_is_lowest(),
    {
        if let Some(pos) = self.first_free {
            assert(pos < self.vec.len());
            self.insert(pos, value);
            pos
        } else {
            let pos = self.vec.len();
            self.vec.push(Some(value));
            proof {
                if old(self).hint_is_lowest() {
                    assert forall|j: int| 0 <= j < self@.len() implies #[trigger] self@[j] is Some by {
                        if j < pos {
                            assert(old(self)@[j] is Some);
                        }
                    }
                }
            }
            pos
        }
    }

    /// The position of the lowest empty slot, if there is one.
    pub fn find_first_free(&self) -> (r: Option<usize>)
        ensures
            is_lowest_free(self@, r),
    {
        let mut i: usize = 0;
        while i < self.vec.len()
            invariant
                i <= self.vec@.len(),
                forall|j: int| 0 <= j < i ==> #[trigger] self.vec@[j] is Some,
            decreases self.vec@.len() - i,
        {
            if self.vec[i].is_none() {
                return Some(i);
            }
            i = i + 1;
        }
        None
    }
}

} // verus!
