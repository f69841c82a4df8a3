//! The container contract and the containers that meet it.

use vstd::prelude::*;
use vstd::std_specs::cmp::PartialEqSpec;
use vstd::string::{to_string_from_display_ensures, StringExecFns};
use std::fmt::{Debug, Display};
use kerr::KErr;
use crate::error::{error_of, error_with};
use crate::text::{bracket_text, bracketed, name_of, name_text, texts};

verus! {

/// What an append makes of the elements `s` of a container with `cap` slots: `t` comes last
/// where there is room, and nothing changes where there is none.
pub open spec fn after_push<T>(s: Seq<T>, cap: nat, t: T) -> Seq<T> {
    if s.len() < cap {
        s.push(t)
    } else {
        s
    }
}

/// What every stack vector offers, whatever its capacity.
///
/// The first group of operations only ever adds beyond the current length, so it leaves every
/// element that is already there where it is. The second group may move or destroy elements.
pub trait SVec {
    type Item;

    /// The live elements, in slot order.
    spec fn view(&self) -> Seq<Self::Item>;

    /// The fixed number of slots.
    spec fn spec_cap(&self) -> nat;

    /// The liveness invariant of the storage.
    spec fn wf(&self) -> bool;

    /// A well-formed container never holds more elements than it has slots.
    proof fn lemma_len_within_cap(&self)
        requires
            self.wf(),
        ensures
            self@.len() <= self.spec_cap(),
    ;

    /// An empty container.
    fn new() -> (r: Self) where Self: Sized
        ensures
            r.wf(),
            r@ == Seq::<Self::Item>::empty(),
    ;

    /// The number of slots, which never changes.
    fn cap(&self) -> (r: usize)
        ensures
            r == self.spec_cap(),
    ;

    /// The number of live elements.
    fn len(&self) -> (r: usize)
        requires
            self.wf(),
        ensures
            r == self@.len(),
            r <= self.spec_cap(),
    ;

    /// Appends `t` and reports its slot; on a full container nothing changes and the error
    /// says `overflow`.
    fn push(&mut self, t: Self::Item) -> (r: Result<usize, KErr>)
        requires
            old(self).wf(),
        ensures
            final(self).wf(),
            final(self).spec_cap() == old(self).spec_cap(),
            final(self)@ == after_push(old(self)@, old(self).spec_cap(), t),
            old(self)@.len() < old(self).spec_cap() ==> r is Ok && r->Ok_0 == old(self)@.len(),
            old(self)@.len() >= old(self).spec_cap() ==> r is Err && r->Err_0 == error_of(
                "overflow"@,
            ),
    ;

    /// The element in slot `i`.
    fn get(&self, i: usize) -> (r: &Self::Item)
        requires
            self.wf(),
            i < self@.len(),
        ensures
            *r == self@[i as int],
    ;

    /// References to the live elements, first slot first.
    fn iter(&self) -> (r: Vec<&Self::Item>)
        requires
            self.wf(),
        ensures
            r@.len() == self@.len(),
            forall|i: int| 0 <= i < r@.len() ==> *(#[trigger] r@[i]) == self@[i],
    ;

    /// Destroys every element, last slot first.
    fn clear(&mut self)
        requires
            old(self).wf(),
        ensures
            final(self).wf(),
            final(self).spec_cap() == old(self).spec_cap(),
            final(self)@ == Seq::<Self::Item>::empty(),
    ;

    /// Removes the last element and returns it.
    fn pop(&mut self) -> (r: Self::Item)
        requires
            old(self).wf(),
            old(self)@.len() > 0,
        ensures
            final(self).wf(),
            final(self).spec_cap() == old(self).spec_cap(),
            r == old(self)@.last(),
            final(self)@ == old(self)@.drop_last(),
    ;

    /// Replaces the element in slot `i`.
    fn set(&mut self, i: usize, t: Self::Item)
        requires
            old(self).wf(),
            i < old(self)@.len(),
        ensures
            final(self).wf(),
            final(self).spec_cap() == old(self).spec_cap(),
            final(self)@ == old(self)@.update(i as int, t),
    ;

    /// Moves the elements from slot `i` on one slot up and puts `t` in slot `i`.
    fn insert(&mut self, i: usize, t: Self::Item)
        requires
            old(self).wf(),
            i <= old(self)@.len(),
            old(self)@.len() < old(self).spec_cap(),
        ensures
            final(self).wf(),
            final(self).spec_cap() == old(self).spec_cap(),
            final(self)@ == old(self)@.insert(i as int, t),
    ;

    /// Takes the element out of slot `i` and moves the elements above it one slot down.
    fn remove(&mut self, i: usize) -> (r: Self::Item)
        requires
            old(self).wf(),
            i < old(self)@.len(),
        ensures
            final(self).wf(),
            final(self).spec_cap() == old(self).spec_cap(),
            r == old(self)@[i as int],
            final(self)@ == old(self)@.remove(i as int),
    ;

    /// Puts the elements in the opposite order.
    fn reverse(&mut self)
        requires
            old(self).wf(),
        ensures
            final(self).wf(),
            final(self).spec_cap() == old(self).spec_cap(),
            final(self)@ == old(self)@.reverse(),
    ;

    /// Exclusive access to every live element at once, first slot first.
    fn iter_mut(&mut self) -> (r: Vec<&mut Self::Item>)
        requires
            old(self).wf(),
        ensures
            r@.len() == old(self)@.len(),
            forall|j: int| 0 <= j < r@.len() ==> *(#[trigger] r@[j]) == old(self)@[j],
            final(self).wf(),
            final(self).spec_cap() == old(self).spec_cap(),
            final(self)@.len() == old(self)@.len(),
            forall|j: int| 0 <= j < r@.len() ==> final(self)@[j] == *final(#[trigger] r@[j]),
    ;

    /// Exclusive access to the element in slot `i`.
    fn get_mut(&mut self, i: usize) -> (r: &mut Self::Item)
        requires
            old(self).wf(),
            i < old(self)@.len(),
        ensures
            *r == old(self)@[i as int],
            final(self).wf(),
            final(self).spec_cap() == old(self).spec_cap(),
            final(self)@ == old(self)@.update(i as int, *final(r)),
    ;
}

/// A stack vector of capacity `N`.
///
/// Slot `k` of the sequence lives in cell `N - 1 - k`: the elements are laid out from the last
/// cell downward. When a container goes out of scope its array is torn down from the first
/// cell to the last, so the element that was appended last is destroyed first and the one in
/// slot 0 last, and the empty cells in front of them are passed over.
pub struct StackVec<T, const N: usize> {
    cells: [Option<T>; N],
    length: usize,
}

/// The content of a cell that holds no element; the index is not looked at.
fn vacant<T>(_i: usize) -> (r: Option<T>)
    ensures
        r is None,
{
    None
}

/// Calls `std::array::from_fn`, which builds an array by calling its argument once for each
/// index. The argument is `vacant`, so every cell of the result is `None`.
#[verifier::external_body]
fn vacant_cells<T, const N: usize>() -> (r: [Option<T>; N])
    ensures
        forall|c: int| 0 <= c < N ==> (#[trigger] r@[c]) is None,
{
    std::array::from_fn(vacant)
}

/// Calls `format!` with `{:?}`, which writes a value in the form that its `Debug` gives it.
/// What that is rests with the element type, so nothing is stated of the result.
#[verifier::external_body]
fn debug_text<T: Debug>(t: &T) -> String {
    format!("{:?}", t)
}

/// Two sequences are of one length and agree slot by slot under the elements' own `==`.
pub open spec fn same_elements<T: PartialEq>(a: Seq<T>, b: Seq<T>) -> bool {
    &&& a.len() == b.len()
    &&& forall|i: int| 0 <= i < a.len() ==> (#[trigger] a[i]).eq_spec(&b[i])
}

/// `parts` holds, slot by slot, a text that the element's `Display` gives for it.
pub open spec fn shown<T: Display>(items: Seq<T>, parts: Seq<String>) -> bool {
    &&& parts.len() == items.len()
    &&& forall|i: int|
        0 <= i < items.len() ==> to_string_from_display_ensures::<T>(&items[i], #[trigger] parts[i])
}

/// A reference into each of the occupied cells, taken from the last cell down to the first.
fn refs_last_first<'a, T>(cells: &'a mut [Option<T>]) -> (r: Vec<&'a mut T>)
    requires
        forall|c: int| 0 <= c < old(cells)@.len() ==> (#[trigger] old(cells)@[c]) is Some,
    ensures
        r@.len() == old(cells)@.len(),
        final(cells)@.len() == old(cells)@.len(),
        forall|j: int|
            0 <= j < r@.len() ==> *(#[trigger] r@[j]) == old(cells)@[r@.len() - 1 - j]->0,
        forall|j: int|
            0 <= j < r@.len() ==> final(cells)@[r@.len() - 1 - j] == Some(
                *final(#[trigger] r@[j]),
            ),
{
    let mut out: Vec<&'a mut T> = Vec::new();
    let ghost landing = final(cells)@;
    let mut rest: &'a mut [Option<T>] = cells;
    let ghost total = rest@.len();
    while rest.len() > 0
        invariant
            out@.len() + rest@.len() == total,
            total == old(cells)@.len(),
            rest@ == old(cells)@.subrange(0, rest@.len() as int),
            forall|j: int|
                0 <= j < out@.len() ==> *(#[trigger] out@[j]) == old(cells)@[total - 1 - j]->0,
            forall|c: int| 0 <= c < rest@.len() ==> (#[trigger] rest@[c]) is Some,
            landing == final(rest)@ + Seq::new(
                out@.len(),
                |c: int| Some(*final(out@[out@.len() - 1 - c])),
            ),
        decreases rest@.len(),
    {
        let n: usize = rest.len();
        let ghost before = rest@;
        let (init, tail) = rest.split_at_mut(n - 1);
        assert(tail@.len() == 1);
        assert(tail@[0] == before[n - 1]);
        let cell: &'a mut Option<T> = tail.last_mut().unwrap();
        let item: &'a mut T = cell.as_mut().unwrap();
        out.push(item);
        rest = init;
    }
    out
}

impl<T, const N: usize> SVec for StackVec<T, N> {
    type Item = T;

    closed spec fn view(&self) -> Seq<T> {
        Seq::new(self.length as nat, |k: int| self.cells@[N - 1 - k]->0)
    }

    open spec fn spec_cap(&self) -> nat {
        N as nat
    }

    closed spec fn wf(&self) -> bool {
        &&& self.length <= N
        &&& forall|c: int| N - self.length <= c < N ==> (#[trigger] self.cells@[c]) is Some
        &&& forall|c: int| 0 <= c < N - self.length ==> (#[trigger] self.cells@[c]) is None
    }

    proof fn lemma_len_within_cap(&self) {
    }

    fn new() -> (r: Self) {
        let r = StackVec { cells: vacant_cells(), length: 0 };
        assert(r@ =~= Seq::<T>::empty());
        r
    }

    fn cap(&self) -> (r: usize) {
        N
    }

    fn len(&self) -> (r: usize) {
        self.length
    }

    fn push(&mut self, t: T) -> (r: Result<usize, KErr>) {
        let k: usize = self.length;
        if k >= N {
            return Err(error_with("overflow"));
        }
        self.cells[N - 1 - k] = Some(t);
        self.length += 1;
        assert(self@ =~= old(self)@.push(t));
        Ok(k)
    }

    fn get(&self, i: usize) -> (r: &T) {
        self.cells[N - 1 - i].as_ref().unwrap()
    }

    fn iter(&self) -> (r: Vec<&T>) {
        let mut out: Vec<&T> = Vec::new();
        let mut i: usize = 0;
        while i < self.length
            invariant
                self.wf(),
                i <= self.length,
                out@.len() == i,
                forall|j: int| 0 <= j < i ==> *(#[trigger] out@[j]) == self@[j],
            decreases self.length - i,
        {
            out.push(self.get(i));
            i += 1;
        }
        out
    }

    fn clear(&mut self) {
        while self.length > 0
            invariant
                self.wf(),
            decreases self.length,
        {
            self.length -= 1;
            self.cells[N - 1 - self.length] = None;
        }
        assert(self@ =~= Seq::<T>::empty());
    }

    fn pop(&mut self) -> (r: T) {
        self.length -= 1;
        let t = self.cells[N - 1 - self.length].take().unwrap();
        assert(self@ =~= old(self)@.drop_last());
        t
    }

    fn set(&mut self, i: usize, t: T) {
        self.cells[N - 1 - i] = Some(t);
        assert(self@ =~= old(self)@.update(i as int, t));
    }

    fn insert(&mut self, i: usize, t: T) {
        let mut k: usize = self.length;
        while k > i
            invariant
                i <= k <= self.length < N,
                self.length == old(self).length,
                old(self).wf(),
                forall|c: int| N - 1 - k < c < N ==> (#[trigger] self.cells@[c]) == old(self).cells@[c],
                forall|c: int|
                    N - 1 - self.length <= c < N - 1 - k ==> (#[trigger] self.cells@[c]) == old(
                        self,
                    ).cells@[c + 1],
                forall|c: int| 0 <= c < N - 1 - self.length ==> (#[trigger] self.cells@[c]) is None,
                self.cells@[N - 1 - k] is None,
            decreases k,
        {
            let moved = self.cells[N - k].take();
            self.cells[N - 1 - k] = moved;
            k -= 1;
        }
        self.cells[N - 1 - i] = Some(t);
        self.length += 1;
        assert(self@ =~= old(self)@.insert(i as int, t));
    }

    fn remove(&mut self, i: usize) -> (r: T) {
        let t = self.cells[N - 1 - i].take().unwrap();
        self.length -= 1;
        let mut k: usize = i;
        while k < self.length
            invariant
                i <= k <= self.length < N,
                self.length + 1 == old(self).length,
                old(self).wf(),
                forall|c: int| N - 1 - i < c < N ==> (#[trigger] self.cells@[c]) == old(self).cells@[c],
                forall|c: int|
                    N - 1 - k < c <= N - 1 - i ==> (#[trigger] self.cells@[c]) == old(self).cells@[c
                        - 1],
                forall|c: int| 0 <= c < N - 1 - k ==> (#[trigger] self.cells@[c]) == old(self).cells@[c],
                self.cells@[N - 1 - k] is None,
            decreases self.length - k,
        {
            let moved = self.cells[N - 2 - k].take();
            self.cells[N - 1 - k] = moved;
            k += 1;
        }
        assert(self@ =~= old(self)@.remove(i as int));
        t
    }

    fn reverse(&mut self) {
        let n: usize = self.length;
        let mut k: usize = 0;
        while k < n / 2
            invariant
                n == self.length == old(self).length,
                k <= n / 2,
                old(self).wf(),
                forall|c: int|
                    N - 1 - k < c < N ==> (#[trigger] self.cells@[c]) == old(self).cells@[2 * N - n
                        - 1 - c],
                forall|c: int|
                    N - n <= c < N - n + k ==> (#[trigger] self.cells@[c]) == old(self).cells@[2 * N
                        - n - 1 - c],
                forall|c: int|
                    N - n + k <= c <= N - 1 - k ==> (#[trigger] self.cells@[c]) == old(self).cells@[c],
                forall|c: int| 0 <= c < N - n ==> (#[trigger] self.cells@[c]) is None,
            decreases n / 2 - k,
        {
            let low = self.cells[N - 1 - k].take();
            let high = self.cells[N - n + k].take();
            self.cells[N - 1 - k] = high;
            self.cells[N - n + k] = low;
            k += 1;
        }
        assert(self@ =~= old(self)@.reverse());
    }

    fn iter_mut(&mut self) -> (r: Vec<&mut T>) {
        let ghost end = *final(self);
        let vacant: usize = N - self.length;
        let all: &mut [Option<T>] = &mut self.cells;
        let (head, live) = all.split_at_mut(vacant);
        let ghost landing = final(live)@;
        let r = refs_last_first(live);
        proof {
            assert(end.length == old(self).length);
            assert(end.cells@ =~= head@ + landing);
            assert forall|c: int| N - end.length <= c < N implies (#[trigger] end.cells@[c])
                is Some by {
                let j = N - 1 - c;
                assert(landing[r@.len() - 1 - j] == Some(*final(r@[j])));
            }
        }
        r
    }

    fn get_mut(&mut self, i: usize) -> (r: &mut T) {
        self.cells[N - 1 - i].as_mut().unwrap()
    }
}

impl<T, const N: usize> StackVec<T, N> {
    /// The capacity that every container of this type has.
    pub fn cap_of_type() -> (r: usize)
        ensures
            r == N,
    {
        N
    }

    /// An empty container of the same capacity for another element type.
    pub fn new_of<U>(&self) -> (r: StackVec<U, N>)
        ensures
            r.wf(),
            r@ == Seq::<U>::empty(),
    {
        StackVec::<U, N>::new()
    }

    /// A copy of the element in slot `i`.
    pub fn get_copy(&self, i: usize) -> (r: T) where T: Copy
        requires
            self.wf(),
            i < self@.len(),
        ensures
            r == self@[i as int],
    {
        *self.get(i)
    }

    /// Appends the items in order to an empty container. With more items than slots the
    /// append that finds the container full fails, and what was built is given up.
    pub fn try_from_iter(items: Vec<T>) -> (r: Result<Self, KErr>)
        ensures
            items@.len() <= N ==> r is Ok && r->Ok_0.wf() && r->Ok_0@ == items@,
            items@.len() > N ==> r is Err && r->Err_0 == error_of("overflow"@),
    {
        let ghost source = items@;
        let mut out = Self::new();
        for t in it: items.into_iter()
            invariant
                it.seq() == source,
                out.wf(),
                out@ == source.take(it.index()),
                it.index() <= N,
        {
            match out.push(t) {
                Ok(_) => {
                    assert(out@ =~= source.take(it.index() + 1));
                },
                Err(e) => {
                    return Err(e);
                },
            }
        }
        assert(out@ =~= source);
        Ok(out)
    }

    /// Appends the items in order to an empty container that has room for them.
    pub fn from_iter(items: Vec<T>) -> (r: Self)
        requires
            items@.len() <= N,
        ensures
            r.wf(),
            r@ == items@,
    {
        Self::try_from_iter(items).unwrap()
    }

    /// Whether the two containers hold equal elements in the same order, whatever their
    /// capacities. Elements are compared with their own `==`.
    pub fn eq<V: SVec<Item = T>>(&self, other: &V) -> (r: bool) where T: PartialEq
        requires
            self.wf(),
            other.wf(),
        ensures
            self@.len() != other@.len() ==> !r,
            T::obeys_eq_spec() ==> r == same_elements(self@, other@),
    {
        if self.length != other.len() {
            return false;
        }
        let mut i: usize = 0;
        while i < self.length
            invariant
                self.wf(),
                other.wf(),
                i <= self.length == self@.len() == other@.len(),
                T::obeys_eq_spec() ==> forall|j: int|
                    0 <= j < i ==> (#[trigger] self@[j]).eq_spec(&other@[j]),
            decreases self.length - i,
        {
            if !self.get(i).eq(other.get(i)) {
                return false;
            }
            i += 1;
        }
        true
    }

    /// The container written out with each element as it displays itself.
    pub fn to_string(&self) -> (r: String) where T: Display
        requires
            self.wf(),
        ensures
            exists|parts: Seq<String>| #[trigger] shown(self@, parts) && r@ == bracket_text(texts(parts)),
    {
        let mut parts: Vec<String> = Vec::new();
        let mut i: usize = 0;
        while i < self.length
            invariant
                self.wf(),
                i <= self.length,
                shown(self@.take(i as int), parts@),
            decreases self.length - i,
        {
            let part = self.get(i).to_string();
            parts.push(part);
            i += 1;
        }
        assert(self@.take(i as int) =~= self@);
        bracketed(&parts)
    }

    /// The container written out for debugging: the name of its type, then each element in
    /// its debugging form.
    pub fn debug_string(&self) -> (r: String) where T: Debug
        requires
            self.wf(),
        ensures
            exists|parts: Seq<String>|
                parts.len() == self@.len() && r@ == name_text(N as nat) + bracket_text(
                    #[trigger] texts(parts),
                ),
    {
        let mut parts: Vec<String> = Vec::new();
        let mut i: usize = 0;
        while i < self.length
            invariant
                self.wf(),
                i <= self.length,
                parts@.len() == i,
            decreases self.length - i,
        {
            parts.push(debug_text(self.get(i)));
            i += 1;
        }
        let mut out = name_of(N);
        let list = bracketed(&parts);
        out.append(list.as_str());
        out
    }

    /// An iterator that hands the elements out, last slot first, by popping them. What it has
    /// not handed out when it is let go stays in the container.
    pub fn iter_owned(&mut self) -> (r: IntoIter<'_, Self>)
        requires
            old(self).wf(),
        ensures
            r.wf(),
            r@ == old(self)@,
            *final(r.0) == *final(self),
    {
        IntoIter::new(self)
    }
}

pub type SVec1<T> = StackVec<T, 1>;

pub type SVec2<T> = StackVec<T, 2>;

pub type SVec4<T> = StackVec<T, 4>;

pub type SVec8<T> = StackVec<T, 8>;

pub type SVec16<T> = StackVec<T, 16>;

pub type SVec32<T> = StackVec<T, 32>;

pub type SVec64<T> = StackVec<T, 64>;

pub type SVec128<T> = StackVec<T, 128>;

pub type SVec256<T> = StackVec<T, 256>;

pub type SVec512<T> = StackVec<T, 512>;

pub type SVec1024<T> = StackVec<T, 1024>;

pub type SVec2048<T> = StackVec<T, 2048>;

pub type SVec4096<T> = StackVec<T, 4096>;

pub type SVec8192<T> = StackVec<T, 8192>;

/// Owned iteration over a container that stays where it is: each step pops the container, so
/// the elements come out last slot first and the container shrinks as they do.
pub struct IntoIter<'a, V: SVec>(pub &'a mut V);

impl<'a, V: SVec> IntoIter<'a, V> {
    /// The elements still in the container, in slot order.
    pub open spec fn view(&self) -> Seq<V::Item> {
        (*self.0)@
    }

    /// The container behind the iterator is well formed.
    pub open spec fn wf(&self) -> bool {
        (*self.0).wf()
    }

    /// An iterator that will pop `svec`; when it is let go, `svec` holds what it left.
    pub fn new(svec: &'a mut V) -> (r: IntoIter<'a, V>)
        requires
            old(svec).wf(),
        ensures
            r.wf(),
            r@ == old(svec)@,
            *final(r.0) == *final(svec),
    {
        IntoIter(svec)
    }

    /// Pops the container and hands the element out; `None` once the container is empty.
    pub fn next(&mut self) -> (r: Option<V::Item>)
        requires
            old(self).wf(),
        ensures
            final(self).wf(),
            *final(final(self).0) == *final(old(self).0),
            old(self)@.len() == 0 ==> r is None && final(self)@ == old(self)@,
            old(self)@.len() > 0 ==> r == Some(old(self)@.last()) && final(self)@ == old(self)@.drop_last(),
    {
        if self.0.len() == 0 {
            return None;
        }
        Some(self.0.pop())
    }
}

} // verus!
