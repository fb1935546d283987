use vstd::prelude::*;

use crate::range::{range_len, slice_range, IndexRange};
use crate::ModifyError;
use std::collections::TryReserveError;

verus! {

/// A `Vec` that always holds at least `M` elements.
#[derive(Clone, Debug, PartialEq, Eq, PartialOrd, Ord, Hash)]
pub struct VecMin<T, const M: usize> {
    vec: Vec<T>,
}

impl<T, const M: usize> View for VecMin<T, M> {
    type V = Seq<T>;

    closed spec fn view(&self) -> Seq<T> {
        self.vec@
    }
}

impl<T, const M: usize> VecMin<T, M> {
    /// The length floor holds.
    pub open spec fn wf(&self) -> bool {
        self@.len() >= M
    }

    /// Returns the minimum length of the vector.
    pub fn min_len(&self) -> (r: usize)
        ensures
            r == M,
    {
        M
    }

    /// Wraps `vec`, which the caller knows to hold at least `M` elements.
    pub fn new_unchecked(vec: Vec<T>) -> (r: Self)
        requires
            vec@.len() >= M,
        ensures
            r.wf(),
            r@ == vec@,
    {
        VecMin { vec }
    }

    /// Wraps `vec` if it holds at least `M` elements; hands it back otherwise.
    pub fn new(vec: Vec<T>) -> (r: Result<Self, Vec<T>>)
        ensures
            Self::accepts(vec@) <==> r is Ok,
            r matches Ok(v) ==> v.wf() && v@ == vec@,
            r matches Err(w) ==> w@ == vec@,
    {
        if vec.len() >= M {
            Ok(VecMin { vec })
        } else {
            Err(vec)
        }
    }
}

// --- Constructors & Destructors & Conversion ---
impl<T, const M: usize> VecMin<T, M> {
    fn collect_into(items: Vec<T>, cap: usize) -> (r: Result<Self, Vec<T>>)
        ensures
            Self::accepts(items@) <==> r is Ok,
            r matches Ok(v) ==> v.wf() && v@ == items@,
            r matches Err(w) ==> w@ == items@,
    {
        let mut items = items;
        let hint = items.len();
        let mut vec: Vec<T> = Vec::with_capacity(if cap < hint { hint } else { cap });
        vec.append(&mut items);
        Self::new(vec)
    }

    /// Gathers `items` into a fresh buffer with room for at least `M`; fails,
    /// handing the gathered elements back, when fewer than `M` came.
    pub fn collect(items: Vec<T>) -> (r: Result<Self, Vec<T>>)
        ensures
            Self::accepts(items@) <==> r is Ok,
            r matches Ok(v) ==> v.wf() && v@ == items@,
            r matches Err(w) ==> w@ == items@,
    {
        Self::collect_into(items, M)
    }

    /// As `collect`, with room for `extra` elements beyond `M`.
    pub fn collect_with_capacity(items: Vec<T>, extra: usize) -> (r: Result<Self, Vec<T>>)
        ensures
            Self::accepts(items@) <==> r is Ok,
            r matches Ok(v) ==> v.wf() && v@ == items@,
            r matches Err(w) ==> w@ == items@,
    {
        Self::collect_into(items, M.saturating_add(extra))
    }

    /// Returns the inner `Vec`, consuming the `VecMin`.
    pub fn into_inner(self) -> (r: Vec<T>)
        ensures
            r@ == self@,
    {
        self.vec
    }

    /// Returns the elements as a boxed slice, consuming the `VecMin`.
    pub fn into_boxed_slice(self) -> (r: Box<[T]>)
        ensures
            r@ == self@,
    {
        vec_into_boxed_slice(self.vec)
    }

    /// Leaks the elements as a slice that lives for the rest of the program.
    pub fn leak(self) -> (r: &'static mut [T])
        ensures
            r@ == self@,
    {
        vec_leak(self.vec)
    }

    /// The elements as a `Vec`.
    pub fn as_vec(&self) -> (r: &Vec<T>)
        ensures
            r@ == self@,
    {
        &self.vec
    }

    /// The elements as a slice.
    pub fn as_slice(&self) -> (r: &[T])
        ensures
            r@ == self@,
    {
        self.vec.as_slice()
    }

    /// The elements as a mutable slice.
    pub fn as_mut_slice(&mut self) -> (r: &mut [T])
        requires
            old(self).wf(),
        ensures
            r@ == old(self)@,
            final(self)@ == final(r)@,
    {
        self.vec.as_mut_slice()
    }

    /// The first `M` elements, which are guaranteed to exist.
    pub fn min_slice(&self) -> (r: &[T; M])
        requires
            self.wf(),
        ensures
            r@ == self@.subrange(0, M as int),
    {
        first_chunk(self.vec.as_slice()).unwrap()
    }
}

impl<T: Default, const M: usize> Default for VecMin<T, M> {
    /// `M` default values.
    fn default() -> (r: Self)
        ensures
            r.wf(),
            r@.len() == M,
            forall|i: int| 0 <= i < M ==> call_ensures(T::default, (), #[trigger] r@[i]),
    {
        let mut vec: Vec<T> = Vec::with_capacity(M);
        while vec.len() < M
            invariant
                vec@.len() <= M,
                forall|i: int| 0 <= i < vec@.len() ==> call_ensures(T::default, (), #[trigger] vec@[i]),
            decreases M - vec@.len(),
        {
            vec.push(T::default());
        }
        VecMin { vec }
    }
}

impl<T, const M: usize> core::ops::Deref for VecMin<T, M> {
    type Target = Vec<T>;

    fn deref(&self) -> (r: &Vec<T>)
        ensures
            r@ == self@,
    {
        &self.vec
    }
}

impl<T, const M: usize> AsRef<[T]> for VecMin<T, M> {
    fn as_ref(&self) -> (r: &[T])
        ensures
            r@ == self@,
    {
        self.vec.as_slice()
    }
}

impl<T, const M: usize> AsMut<[T]> for VecMin<T, M> {
    fn as_mut(&mut self) -> (r: &mut [T])
        ensures
            r@ == old(self)@,
            final(self)@ == final(r)@,
    {
        self.vec.as_mut_slice()
    }
}

impl<T, const M: usize> TryFrom<Vec<T>> for VecMin<T, M> {
    type Error = Vec<T>;

    fn try_from(vec: Vec<T>) -> (r: Result<Self, Vec<T>>)
        ensures
            Self::accepts(vec@) <==> r is Ok,
            r matches Ok(v) ==> v.wf() && v@ == vec@,
            r matches Err(w) ==> w@ == vec@,
    {
        if vec.len() >= M {
            Ok(VecMin { vec })
        } else {
            Err(vec)
        }
    }
}

impl<T, const M: usize> vstd::std_specs::convert::TryFromSpecImpl<Vec<T>> for VecMin<T, M> {
    open spec fn obeys_try_from_spec() -> bool {
        true
    }

    closed spec fn try_from_spec(vec: Vec<T>) -> Result<Self, Vec<T>> {
        if vec@.len() >= M {
            Ok(VecMin { vec })
        } else {
            Err(vec)
        }
    }
}

impl<T, const M: usize> From<VecMin<T, M>> for Vec<T> {
    fn from(v: VecMin<T, M>) -> (r: Vec<T>)
        ensures
            r@ == v@,
    {
        v.vec
    }
}

impl<T, const M: usize> vstd::std_specs::convert::FromSpecImpl<VecMin<T, M>> for Vec<T> {
    open spec fn obeys_from_spec() -> bool {
        true
    }

    closed spec fn from_spec(v: VecMin<T, M>) -> Vec<T> {
        v.vec
    }
}

impl<T, const M: usize> TryFrom<Box<[T]>> for VecMin<T, M> {
    type Error = Vec<T>;

    fn try_from(boxed_slice: Box<[T]>) -> (r: Result<Self, Vec<T>>)
        ensures
            Self::accepts(boxed_slice@) <==> r is Ok,
            r matches Ok(v) ==> v.wf() && v@ == boxed_slice@,
            r matches Err(w) ==> w@ == boxed_slice@,
    {
        Self::new(boxed_slice.into_vec())
    }
}

impl<T, const M: usize> vstd::std_specs::convert::TryFromSpecImpl<Box<[T]>> for VecMin<T, M> {
    open spec fn obeys_try_from_spec() -> bool {
        false
    }

    open spec fn try_from_spec(boxed_slice: Box<[T]>) -> Result<Self, Vec<T>> {
        arbitrary()
    }
}

impl<'a, T: Clone, const M: usize> TryFrom<&'a [T]> for VecMin<T, M> {
    type Error = Vec<T>;

    fn try_from(slice: &'a [T]) -> (r: Result<Self, Vec<T>>)
        ensures
            Self::accepts(slice@) <==> r is Ok,
            r matches Ok(v) ==> v.wf() && v@.len() == slice@.len() && forall|i: int|
                0 <= i < slice@.len() ==> cloned::<T>(slice@[i], #[trigger] v@[i]),
            r matches Err(w) ==> w@.len() == slice@.len() && forall|i: int|
                0 <= i < slice@.len() ==> cloned::<T>(slice@[i], #[trigger] w@[i]),
    {
        let mut vec: Vec<T> = Vec::new();
        vec.extend_from_slice(slice);
        Self::new(vec)
    }
}

impl<'a, T: Clone, const M: usize> vstd::std_specs::convert::TryFromSpecImpl<&'a [T]> for VecMin<T, M> {
    open spec fn obeys_try_from_spec() -> bool {
        false
    }

    open spec fn try_from_spec(slice: &'a [T]) -> Result<Self, Vec<T>> {
        arbitrary()
    }
}

impl<'a, T: Clone, const M: usize> TryFrom<&'a mut [T]> for VecMin<T, M> {
    type Error = Vec<T>;

    fn try_from(slice: &'a mut [T]) -> (r: Result<Self, Vec<T>>)
        ensures
            Self::accepts(old(slice)@) <==> r is Ok,
            r matches Ok(v) ==> v.wf() && v@.len() == old(slice)@.len() && forall|i: int|
                0 <= i < old(slice)@.len() ==> cloned::<T>(old(slice)@[i], #[trigger] v@[i]),
            r matches Err(w) ==> w@.len() == old(slice)@.len() && forall|i: int|
                0 <= i < old(slice)@.len() ==> cloned::<T>(old(slice)@[i], #[trigger] w@[i]),
    {
        let mut vec: Vec<T> = Vec::new();
        vec.extend_from_slice(slice);
        Self::new(vec)
    }
}

impl<'a, T: Clone, const M: usize> vstd::std_specs::convert::TryFromSpecImpl<&'a mut [T]> for VecMin<T, M> {
    open spec fn obeys_try_from_spec() -> bool {
        false
    }

    open spec fn try_from_spec(slice: &'a mut [T]) -> Result<Self, Vec<T>> {
        arbitrary()
    }
}

impl<T, const N: usize, const M: usize> TryFrom<[T; N]> for VecMin<T, M> {
    type Error = Vec<T>;

    fn try_from(array: [T; N]) -> (r: Result<Self, Vec<T>>)
        ensures
            N >= M <==> r is Ok,
            r matches Ok(v) ==> v.wf() && v@ == array@,
            r matches Err(w) ==> w@ == array@,
    {
        Self::new(array_into_vec(array))
    }
}

impl<T, const N: usize, const M: usize> vstd::std_specs::convert::TryFromSpecImpl<[T; N]> for VecMin<T, M> {
    open spec fn obeys_try_from_spec() -> bool {
        false
    }

    open spec fn try_from_spec(array: [T; N]) -> Result<Self, Vec<T>> {
        arbitrary()
    }
}

impl<T, const M: usize> From<VecMin<T, M>> for Box<[T]> {
    fn from(v: VecMin<T, M>) -> (r: Box<[T]>)
        ensures
            r@ == v@,
    {
        v.into_boxed_slice()
    }
}

impl<T, const M: usize> vstd::std_specs::convert::FromSpecImpl<VecMin<T, M>> for Box<[T]> {
    open spec fn obeys_from_spec() -> bool {
        false
    }

    open spec fn from_spec(v: VecMin<T, M>) -> Box<[T]> {
        arbitrary()
    }
}

impl<T, const M: usize> IntoIterator for VecMin<T, M> {
    type Item = T;

    type IntoIter = std::vec::IntoIter<T>;

    fn into_iter(self) -> std::vec::IntoIter<T> {
        self.vec.into_iter()
    }
}

// --- Capacity ---
impl<T, const M: usize> VecMin<T, M> {
    /// Makes room for at least `additional` more elements.
    pub fn reserve(&mut self, additional: usize)
        requires
            old(self).wf(),
        ensures
            final(self).wf(),
            final(self)@ == old(self)@,
    {
        self.vec.reserve(additional);
    }

    /// Makes room for exactly `additional` more elements.
    pub fn reserve_exact(&mut self, additional: usize)
        requires
            old(self).wf(),
        ensures
            final(self).wf(),
            final(self)@ == old(self)@,
    {
        vec_reserve_exact(&mut self.vec, additional);
    }

    /// Tries to make room for at least `additional` more elements.
    pub fn try_reserve(&mut self, additional: usize) -> (r: Result<(), TryReserveError>)
        requires
            old(self).wf(),
        ensures
            final(self).wf(),
            final(self)@ == old(self)@,
    {
        self.vec.try_reserve(additional)
    }

    /// Tries to make room for exactly `additional` more elements.
    pub fn try_reserve_exact(&mut self, additional: usize) -> (r: Result<(), TryReserveError>)
        requires
            old(self).wf(),
        ensures
            final(self).wf(),
            final(self)@ == old(self)@,
    {
        vec_try_reserve_exact(&mut self.vec, additional)
    }

    /// Gives back as much unused capacity as possible.
    pub fn shrink_to_fit(&mut self)
        requires
            old(self).wf(),
        ensures
            final(self).wf(),
            final(self)@ == old(self)@,
    {
        vec_shrink_to_fit(&mut self.vec);
    }

    /// Gives back unused capacity down to `min_capacity`.
    pub fn shrink_to(&mut self, min_capacity: usize)
        requires
            old(self).wf(),
        ensures
            final(self).wf(),
            final(self)@ == old(self)@,
    {
        vec_shrink_to(&mut self.vec, min_capacity);
    }
}

// --- Increasing len ---
impl<T, const M: usize> VecMin<T, M> {
    /// Appends `item` at the end.
    pub fn push(&mut self, item: T)
        requires
            old(self).wf(),
        ensures
            final(self).wf(),
            final(self)@ == old(self)@.push(item),
    {
        self.vec.push(item);
    }

    /// Inserts `element` at `index`, shifting the later ones right.
    pub fn insert(&mut self, index: usize, element: T)
        requires
            old(self).wf(),
            index <= old(self)@.len(),
        ensures
            final(self).wf(),
            final(self)@ == old(self)@.insert(index as int, element),
    {
        self.vec.insert(index, element);
    }

    /// Moves all elements of `other` to the end, leaving `other` empty.
    pub fn append(&mut self, other: &mut Vec<T>)
        requires
            old(self).wf(),
        ensures
            final(self).wf(),
            final(self)@ == old(self)@ + old(other)@,
            final(other)@ == Seq::<T>::empty(),
    {
        self.vec.append(other);
    }

    /// Appends clones of the elements of `other`.
    pub fn extend_from_slice(&mut self, other: &[T])
        where
            T: Clone,
        requires
            old(self).wf(),
        ensures
            final(self).wf(),
            final(self)@.len() == old(self)@.len() + other@.len(),
            forall|i: int| 0 <= i < old(self)@.len() ==> #[trigger] final(self)@[i] == old(self)@[i],
            forall|i: int|
                0 <= i < other@.len() ==> cloned::<T>(
                    other@[i],
                    #[trigger] final(self)@[old(self)@.len() + i],
                ),
    {
        self.vec.extend_from_slice(other);
    }

    /// Appends clones of the elements that `range` covers.
    pub fn extend_from_within(&mut self, range: IndexRange)
        where
            T: Clone,
        requires
            old(self).wf(),
            range.is_valid(old(self)@.len() as int),
        ensures
            final(self).wf(),
            final(self)@.len() == old(self)@.len() + (range.end_index(old(self)@.len() as int)
                - range.start_index()),
            forall|i: int| 0 <= i < old(self)@.len() ==> #[trigger] final(self)@[i] == old(self)@[i],
            forall|i: int|
                0 <= i < range.end_index(old(self)@.len() as int) - range.start_index()
                    ==> cloned::<T>(
                    old(self)@[range.start_index() + i],
                    #[trigger] final(self)@[old(self)@.len() + i],
                ),
    {
        let len = self.vec.len();
        let (start, end) = slice_range(&range, len);
        let mut i = start;
        while i < end
            invariant
                start <= i <= end <= len <= self.vec@.len(),
                self.vec@.len() == len + (i - start),
                forall|j: int| 0 <= j < len ==> #[trigger] self.vec@[j] == old(self)@[j],
                forall|j: int|
                    0 <= j < i - start ==> cloned::<T>(
                        old(self)@[start + j],
                        #[trigger] self.vec@[len + j],
                    ),
            decreases end - i,
        {
            let x = self.vec[i].clone();
            self.vec.push(x);
            i = i + 1;
        }
    }
}

// --- Length-floor rules ---
impl<T, const M: usize> VecMin<T, M> {
    /// `new` takes a vector with these elements.
    pub open spec fn accepts(s: Seq<T>) -> bool {
        s.len() >= M
    }

    /// `s` with its elements from index `len` on cut off.
    pub open spec fn truncated(s: Seq<T>, len: int) -> Seq<T> {
        if len < s.len() {
            s.subrange(0, len)
        } else {
            s
        }
    }

    /// A requested length raised to the floor `M`.
    pub open spec fn clamped(len: int) -> int {
        if len < M {
            M as int
        } else {
            len
        }
    }

    /// Removing one element from `s` would break the floor.
    pub open spec fn removal_rejected(s: Seq<T>) -> bool {
        s.len() <= M
    }

    /// Asking for length `len` would break the floor.
    pub open spec fn length_rejected(len: int) -> bool {
        len < M
    }

    /// `s` after the elements of `range` are replaced by `ins`.
    pub open spec fn spliced(s: Seq<T>, range: IndexRange, ins: Seq<T>) -> Seq<T> {
        s.subrange(0, range.start_index()) + ins + s.subrange(
            range.end_index(s.len() as int),
            s.len() as int,
        )
    }

    /// The elements of `s` that `range` covers.
    pub open spec fn covered(s: Seq<T>, range: IndexRange) -> Seq<T> {
        s.subrange(range.start_index(), range.end_index(s.len() as int))
    }
}

// --- Laws ---
impl<T, const M: usize> VecMin<T, M> {
    /// Where `pop` is refused, `pop_to_min` on the same vector leaves it as it
    /// is, at exactly `M` elements.
    pub proof fn lemma_pop_to_min_reaches_floor(s: Seq<T>)
        requires
            s.len() >= M,
            Self::removal_rejected(s),
        ensures
            s.len() == M,
    {
    }

    /// Where `truncate(len)` is refused, `truncate_or_min(len)` on the same
    /// vector leaves exactly `M` elements.
    pub proof fn lemma_truncate_or_min_reaches_floor(s: Seq<T>, len: int)
        requires
            s.len() >= M,
            Self::length_rejected(len),
        ensures
            Self::truncated(s, Self::clamped(len)).len() == M,
    {
    }

    /// Where `resize(len, value)` is refused, any outcome of
    /// `resize_or_min(len, value)` on the same vector has exactly `M` elements.
    pub proof fn lemma_resize_or_min_reaches_floor(s: Seq<T>, t: Seq<T>, len: int, value: T)
        where
            T: Clone,
        requires
            s.len() >= M,
            Self::length_rejected(len),
            resized_from(s, t, Self::clamped(len), value),
        ensures
            t.len() == M,
    {
    }

    /// Where `resize_with(len, generator)` is refused, any outcome of
    /// `resize_or_min_with(len, generator)` on the same vector has exactly `M`
    /// elements.
    pub proof fn lemma_resize_or_min_with_reaches_floor<F: Fn() -> T>(
        s: Seq<T>,
        t: Seq<T>,
        len: int,
        generator: F,
    )
        requires
            s.len() >= M,
            Self::length_rejected(len),
            generated_from(s, t, Self::clamped(len), generator),
        ensures
            t.len() == M,
    {
    }

    /// The elements of a well-formed vector, as `into_inner` hands them out, are
    /// accepted by `new`.
    pub proof fn lemma_round_trip(v: Self)
        requires
            v.wf(),
        ensures
            Self::accepts(v@),
    {
    }
}

// --- Len Decreasing ---
impl<T, const M: usize> VecMin<T, M> {
    /// Removes and returns the last element, unless that would leave fewer than `M`.
    pub fn pop(&mut self) -> (r: Result<Option<T>, ModifyError<M>>)
        requires
            old(self).wf(),
        ensures
            final(self).wf(),
            r is Err <==> Self::removal_rejected(old(self)@),
            r is Err ==> final(self)@ == old(self)@,
            r is Ok ==> r == Ok::<Option<T>, ModifyError<M>>(Some(old(self)@.last()))
                && final(self)@ == old(self)@.drop_last(),
    {
        if self.vec.len() > M {
            Ok(self.vec.pop())
        } else {
            Err(ModifyError)
        }
    }

    /// Removes and returns the last element if more than `M` are held; else does nothing.
    pub fn pop_to_min(&mut self) -> (r: Option<T>)
        requires
            old(self).wf(),
        ensures
            final(self).wf(),
            r is None <==> Self::removal_rejected(old(self)@),
            r is None ==> final(self)@ == old(self)@,
            r is Some ==> r == Some(old(self)@.last()) && final(self)@ == old(self)@.drop_last(),
    {
        if self.vec.len() > M {
            self.vec.pop()
        } else {
            None
        }
    }

    /// Removes and returns the element at `index`, shifting the later ones left,
    /// unless that would leave fewer than `M`.
    pub fn remove(&mut self, index: usize) -> (r: Result<T, ModifyError<M>>)
        requires
            old(self).wf(),
            !Self::removal_rejected(old(self)@) ==> index < old(self)@.len(),
        ensures
            final(self).wf(),
            r is Err <==> Self::removal_rejected(old(self)@),
            r is Err ==> final(self)@ == old(self)@,
            r is Ok ==> r == Ok::<T, ModifyError<M>>(old(self)@[index as int])
                && final(self)@ == old(self)@.remove(index as int),
    {
        if self.vec.len() > M {
            Ok(self.vec.remove(index))
        } else {
            Err(ModifyError)
        }
    }

    /// Removes and returns the element at `index`, moving the last one into its
    /// place, unless that would leave fewer than `M`.
    pub fn swap_remove(&mut self, index: usize) -> (r: Result<T, ModifyError<M>>)
        requires
            old(self).wf(),
            !Self::removal_rejected(old(self)@) ==> index < old(self)@.len(),
        ensures
            final(self).wf(),
            r is Err <==> Self::removal_rejected(old(self)@),
            r is Err ==> final(self)@ == old(self)@,
            r is Ok ==> r == Ok::<T, ModifyError<M>>(old(self)@[index as int])
                && final(self)@ == old(self)@.update(index as int, old(self)@.last()).drop_last(),
    {
        if self.vec.len() > M {
            Ok(self.vec.swap_remove(index))
        } else {
            Err(ModifyError)
        }
    }

    /// Shortens the vector to `len` elements, unless `len` is below `M`.
    pub fn truncate(&mut self, len: usize) -> (r: Result<(), ModifyError<M>>)
        requires
            old(self).wf(),
        ensures
            final(self).wf(),
            r is Err <==> Self::length_rejected(len as int),
            r is Err ==> final(self)@ == old(self)@,
            r is Ok ==> final(self)@ == Self::truncated(old(self)@, len as int),
    {
        if len >= M {
            self.vec.truncate(len);
            Ok(())
        } else {
            Err(ModifyError)
        }
    }

    /// Shortens the vector to `len` elements, or to `M` where `len` is below it.
    pub fn truncate_or_min(&mut self, len: usize)
        requires
            old(self).wf(),
        ensures
            final(self).wf(),
            final(self)@ == Self::truncated(old(self)@, Self::clamped(len as int)),
    {
        let target: usize = if len < M { M } else { len };
        self.vec.truncate(target);
    }

    /// Shortens the vector to its first `M` elements.
    pub fn truncate_to_min(&mut self)
        requires
            old(self).wf(),
        ensures
            final(self).wf(),
            final(self)@ == old(self)@.subrange(0, M as int),
    {
        self.vec.truncate(M);
    }

    /// Resizes the vector to `new_len`, filling new slots with clones of `value`,
    /// unless `new_len` is below `M`.
    pub fn resize(&mut self, new_len: usize, value: T) -> (r: Result<(), ModifyError<M>>)
        where
            T: Clone,
        requires
            old(self).wf(),
        ensures
            final(self).wf(),
            r is Err <==> Self::length_rejected(new_len as int),
            r is Err ==> final(self)@ == old(self)@,
            r is Ok ==> resized_from(old(self)@, final(self)@, new_len as int, value),
    {
        if new_len >= M {
            self.vec.resize(new_len, value);
            Ok(())
        } else {
            Err(ModifyError)
        }
    }

    /// Resizes the vector to `new_len`, or to `M` where `new_len` is below it,
    /// filling new slots with clones of `value`.
    pub fn resize_or_min(&mut self, new_len: usize, value: T)
        where
            T: Clone,
        requires
            old(self).wf(),
        ensures
            final(self).wf(),
            resized_from(old(self)@, final(self)@, Self::clamped(new_len as int), value),
    {
        let target: usize = if new_len < M { M } else { new_len };
        self.vec.resize(target, value);
    }

    /// Resizes the vector to `new_len`, filling new slots with the results of
    /// `generator`, unless `new_len` is below `M`.
    pub fn resize_with<F>(&mut self, new_len: usize, generator: F) -> (r: Result<(), ModifyError<M>>)
        where
            F: Fn() -> T,
        requires
            old(self).wf(),
            forall|| #[trigger] generator.requires(()),
        ensures
            final(self).wf(),
            r is Err <==> Self::length_rejected(new_len as int),
            r is Err ==> final(self)@ == old(self)@,
            r is Ok ==> generated_from(old(self)@, final(self)@, new_len as int, generator),
    {
        if new_len >= M {
            resize_vec_with(&mut self.vec, new_len, generator);
            Ok(())
        } else {
            Err(ModifyError)
        }
    }

    /// Resizes the vector to `new_len`, or to `M` where `new_len` is below it,
    /// filling new slots with the results of `generator`.
    pub fn resize_or_min_with<F>(&mut self, new_len: usize, generator: F)
        where
            F: Fn() -> T,
        requires
            old(self).wf(),
            forall|| #[trigger] generator.requires(()),
        ensures
            final(self).wf(),
            generated_from(old(self)@, final(self)@, Self::clamped(new_len as int), generator),
    {
        let target: usize = if new_len < M { M } else { new_len };
        resize_vec_with(&mut self.vec, target, generator);
    }

    /// Removes the elements of `range` and returns them in order, unless fewer
    /// than `M` would be left. Nothing is removed when it fails.
    pub fn drain(&mut self, range: IndexRange) -> (r: Result<Vec<T>, ModifyError<M>>)
        requires
            old(self).wf(),
            range.is_valid(old(self)@.len() as int),
        ensures
            final(self).wf(),
            r is Err <==> Self::length_rejected(
                old(self)@.len() - (range.end_index(old(self)@.len() as int) - range.start_index()),
            ),
            r is Err ==> final(self)@ == old(self)@,
            r matches Ok(d) ==> d@ == Self::covered(old(self)@, range) && final(self)@
                == Self::spliced(old(self)@, range, Seq::empty()),
    {
        let len = self.vec.len();
        let drain_len = range_len(&range, len);
        let final_len = len - drain_len;
        if final_len >= M {
            let (start, end) = slice_range(&range, len);
            let mut tail = self.vec.split_off(end);
            let drained = self.vec.split_off(start);
            self.vec.append(&mut tail);
            assert(self.vec@ =~= Self::spliced(old(self)@, range, Seq::empty()));
            Ok(drained)
        } else {
            Err(ModifyError)
        }
    }

    /// Replaces the elements of `range` by those of `replace_with` and returns
    /// the removed ones in order, unless fewer than `M` would be left. Nothing is
    /// changed when it fails.
    pub fn splice(&mut self, range: IndexRange, replace_with: Vec<T>) -> (r: Result<
        Vec<T>,
        ModifyError<M>,
    >)
        requires
            old(self).wf(),
            range.is_valid(old(self)@.len() as int),
        ensures
            final(self).wf(),
            r is Err <==> Self::length_rejected(
                old(self)@.len() - (range.end_index(old(self)@.len() as int) - range.start_index())
                    + replace_with@.len(),
            ),
            r is Err ==> final(self)@ == old(self)@,
            r matches Ok(d) ==> d@ == Self::covered(old(self)@, range) && final(self)@
                == Self::spliced(old(self)@, range, replace_with@),
    {
        let ghost replace_with_before = replace_with;
        let mut replace_with = replace_with;
        let len = self.vec.len();
        let gain = replace_with.len();
        let loss = range_len(&range, len);
        let kept = len - loss;
        if kept >= M || gain >= M - kept {
            let (start, end) = slice_range(&range, len);
            let mut tail = self.vec.split_off(end);
            let removed = self.vec.split_off(start);
            self.vec.append(&mut replace_with);
            self.vec.append(&mut tail);
            assert(self.vec@ =~= Self::spliced(old(self)@, range, replace_with_before@));
            Ok(removed)
        } else {
            Err(ModifyError)
        }
    }
}

/// `t` is `s` resized to `len`, new slots holding clones of `value`.
pub open spec fn resized_from<T: Clone>(s: Seq<T>, t: Seq<T>, len: int, value: T) -> bool {
    &&& t.len() == len
    &&& forall|i: int| 0 <= i < len && i < s.len() ==> #[trigger] t[i] == s[i]
    &&& forall|i: int| s.len() <= i < len ==> cloned::<T>(value, #[trigger] t[i])
}

/// `t` is `s` resized to `len`, new slots holding results of `generator`.
pub open spec fn generated_from<T, F: Fn() -> T>(
    s: Seq<T>,
    t: Seq<T>,
    len: int,
    generator: F,
) -> bool {
    &&& t.len() == len
    &&& forall|i: int| 0 <= i < len && i < s.len() ==> #[trigger] t[i] == s[i]
    &&& forall|i: int| s.len() <= i < len ==> generator.ensures((), #[trigger] t[i])
}

/// Resizes `v` to `new_len`, filling new slots with the results of `generator`.
fn resize_vec_with<T, F: Fn() -> T>(v: &mut Vec<T>, new_len: usize, generator: F)
    requires
        forall|| #[trigger] generator.requires(()),
    ensures
        generated_from(old(v)@, final(v)@, new_len as int, generator),
{
    if new_len <= v.len() {
        v.truncate(new_len);
    } else {
        let ghost s = v@;
        while v.len() < new_len
            invariant
                s.len() <= v@.len() <= new_len,
                v@.subrange(0, s.len() as int) == s,
                forall|| #[trigger] generator.requires(()),
                forall|i: int| s.len() <= i < v@.len() ==> generator.ensures((), #[trigger] v@[i]),
            decreases new_len - v@.len(),
        {
            let x = generator();
            v.push(x);
            assert(v@.subrange(0, s.len() as int) =~= s);
        }
        assert(v@.subrange(0, s.len() as int) == s);
    }
}

/// Relies on `Vec::into_boxed_slice`: the same elements, in order.
#[verifier::external_body]
fn vec_into_boxed_slice<T>(v: Vec<T>) -> (r: Box<[T]>)
    ensures
        r@ == v@,
{
    v.into_boxed_slice()
}

/// Relies on `Vec::leak`: the same elements, in order.
#[verifier::external_body]
fn vec_leak<T>(v: Vec<T>) -> (r: &'static mut [T])
    ensures
        r@ == v@,
{
    v.leak()
}

/// Relies on `slice::first_chunk`: the first `N` elements, present exactly when
/// the slice holds at least `N`.
#[verifier::external_body]
fn first_chunk<T, const N: usize>(s: &[T]) -> (r: Option<&[T; N]>)
    ensures
        r is Some <==> s@.len() >= N,
        r matches Some(a) ==> a@ == s@.subrange(0, N as int),
{
    s.first_chunk::<N>()
}

/// Relies on `From<[T; N]> for Vec<T>`: the same elements, in order.
#[verifier::external_body]
fn array_into_vec<T, const N: usize>(array: [T; N]) -> (r: Vec<T>)
    ensures
        r@ == array@,
{
    Vec::from(array)
}

/// Relies on `Vec::reserve_exact`: only the capacity changes.
#[verifier::external_body]
fn vec_reserve_exact<T>(v: &mut Vec<T>, additional: usize)
    ensures
        final(v)@ == old(v)@,
{
    v.reserve_exact(additional);
}

/// Relies on `Vec::try_reserve_exact`: only the capacity changes.
#[verifier::external_body]
fn vec_try_reserve_exact<T>(v: &mut Vec<T>, additional: usize) -> (r: Result<(), TryReserveError>)
    ensures
        final(v)@ == old(v)@,
{
    v.try_reserve_exact(additional)
}

/// Relies on `Vec::shrink_to_fit`: only the capacity changes.
#[verifier::external_body]
fn vec_shrink_to_fit<T>(v: &mut Vec<T>)
    ensures
        final(v)@ == old(v)@,
{
    v.shrink_to_fit();
}

/// Relies on `Vec::shrink_to`: only the capacity changes.
#[verifier::external_body]
fn vec_shrink_to<T>(v: &mut Vec<T>, min_capacity: usize)
    ensures
        final(v)@ == old(v)@,
{
    v.shrink_to(min_capacity);
}

} // verus!
