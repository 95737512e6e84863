//! A growable, contiguous-storage sequence with explicit capacity bookkeeping.
//!
//! A [`List`] owns a contiguous buffer of `capacity` slots, of which the first
//! `len` hold live values. Pushing into a full list grows the capacity by a
//! fixed multiplier; the first push into an empty list installs a fixed
//! initial capacity. Both policies are part of the verified contract of
//! [`List::push`].

use vstd::prelude::*;
use vstd::std_specs::cmp::PartialEqSpec;
use vstd::string::StringExecFns;

verus! {

/// The `capacity` is multiplied by this whenever a push finds the list full.
pub const RESIZE_MULTIPLIER: usize = 2;

/// The `capacity` installed by the first `push` into a list that has none.
pub const INITIAL_CAPACITY: usize = 4;

/// A one-dimensional, dynamically allocated sequence.
pub struct List<T> {
    /// The live elements, in index order; the buffer that backs them is the
    /// list's owned allocation.
    buf: Vec<T>,

    /// How many elements the list can hold before it must reallocate.
    cap: usize,
}

impl<T> List<T> {
    /// The live elements never outnumber the allocated slots.
    #[verifier::type_invariant]
    spec fn well_formed(self) -> bool {
        self.buf@.len() <= self.cap
    }

    /// The mathematical contents of the list: its elements in index order.
    pub closed spec fn view(&self) -> Seq<T> {
        self.buf@
    }

    /// The capacity the list currently accounts for.
    pub closed spec fn spec_capacity(&self) -> usize {
        self.cap
    }

    /// Creates a new, empty list with no allocation.
    pub fn new() -> (r: Self)
        ensures
            r@ == Seq::<T>::empty(),
            r.spec_capacity() == 0,
    {
        List { buf: Vec::new(), cap: 0 }
    }

    /// Returns the current capacity.
    pub fn capacity(&self) -> (r: usize)
        ensures
            r == self.spec_capacity(),
    {
        self.cap
    }

    /// Returns the number of elements in the list.
    pub fn len(&self) -> (r: usize)
        ensures
            r == self@.len(),
    {
        self.buf.len()
    }

    /// Returns whether the list holds no elements.
    pub fn is_empty(&self) -> (r: bool)
        ensures
            r <==> self@.len() == 0,
    {
        self.buf.len() == 0
    }

    /// Creates an empty list whose buffer already holds `capacity` slots, so
    /// that no reallocation happens until that capacity is exhausted.
    pub fn with_capacity(capacity: usize) -> (r: Self)
        ensures
            r@ == Seq::<T>::empty(),
            r.spec_capacity() == capacity,
    {
        List { buf: Vec::with_capacity(capacity), cap: capacity }
    }

    /// Appends `value` at the end of the list.
    ///
    /// A list without an allocation receives the fixed initial capacity; a
    /// full list doubles its capacity; otherwise the capacity is unchanged.
    /// All previously pushed elements keep their indices.
    pub fn push(&mut self, value: T)
        requires
            old(self)@.len() < usize::MAX,
            old(self)@.len() == old(self).spec_capacity() ==> old(self).spec_capacity()
                * RESIZE_MULTIPLIER <= usize::MAX,
        ensures
            final(self)@ == old(self)@.push(value),
            final(self).spec_capacity() == (if old(self).spec_capacity() == 0 {
                INITIAL_CAPACITY as int
            } else if old(self)@.len() < old(self).spec_capacity() {
                old(self).spec_capacity() as int
            } else {
                old(self).spec_capacity() * RESIZE_MULTIPLIER
            }),
    {
        proof {
            use_type_invariant(&*self);
        }
        let mut tmp = List::new();
        core::mem::swap(self, &mut tmp);
        let List { mut buf, mut cap } = tmp;
        if cap == 0 {
            cap = INITIAL_CAPACITY;
            buf.reserve(INITIAL_CAPACITY);
        } else if buf.len() == cap {
            let grown = cap * RESIZE_MULTIPLIER;
            buf.reserve(grown - buf.len());
            cap = grown;
        }
        buf.push(value);
        *self = List { buf, cap };
    }

    /// Shortens the list, keeping the first `len` elements and dropping the
    /// rest in place. If `len` is at least the current length this has no
    /// effect. The capacity is never changed.
    pub fn truncate(&mut self, len: usize)
        ensures
            final(self).spec_capacity() == old(self).spec_capacity(),
            final(self)@ == (if len >= old(self)@.len() {
                old(self)@
            } else {
                old(self)@.take(len as int)
            }),
    {
        proof {
            use_type_invariant(&*self);
        }
        if len > self.buf.len() {
            return;
        }
        let mut tmp = List::new();
        core::mem::swap(self, &mut tmp);
        let List { mut buf, cap } = tmp;
        buf.truncate(len);
        proof {
            assert(buf@ =~= old(self).buf@.take(len as int));
        }
        *self = List { buf, cap };
    }

    /// Resets the list to its empty state, dropping every element. The
    /// capacity is kept, so the allocation is reused by later pushes.
    pub fn clear(&mut self)
        ensures
            final(self).spec_capacity() == old(self).spec_capacity(),
            final(self)@ == Seq::<T>::empty(),
    {
        self.truncate(0);
        proof {
            assert(self@ =~= Seq::<T>::empty());
        }
    }

    /// Returns a reference to the element at `index`, or nothing when `index`
    /// is out of bounds.
    pub fn get(&self, index: usize) -> (r: Option<&T>)
        ensures
            index < self@.len() ==> (r matches Some(p) && *p == self@[index as int]),
            index >= self@.len() ==> r is None,
    {
        if index >= self.buf.len() {
            return None;
        }
        Some(&self.buf[index])
    }

    /// Returns a mutable reference to the element at `index`, or nothing when
    /// `index` is out of bounds.
    pub fn get_mut(&mut self, index: usize) -> (r: Option<&mut T>)
        ensures
            index < old(self)@.len() ==> (r matches Some(p) && *p == old(self)@[index as int]
                && final(self)@ == old(self)@.update(index as int, *final(p))),
            index >= old(self)@.len() ==> (r is None && *final(self) == *old(self)),
            final(self).spec_capacity() == old(self).spec_capacity(),
    {
        proof {
            use_type_invariant(&*self);
        }
        if index >= self.buf.len() {
            return None;
        }
        Some(&mut self.buf[index])
    }

    /// Returns a reference to the first element, or nothing when the list is
    /// empty.
    pub fn front(&self) -> (r: Option<&T>)
        ensures
            self@.len() > 0 ==> (r matches Some(p) && *p == self@[0]),
            self@.len() == 0 ==> r is None,
    {
        self.get(0)
    }

    /// Returns a reference to the last element, or nothing when the list is
    /// empty.
    pub fn back(&self) -> (r: Option<&T>)
        ensures
            self@.len() > 0 ==> (r matches Some(p) && *p == self@[self@.len() - 1]),
            self@.len() == 0 ==> r is None,
    {
        if self.buf.len() == 0 {
            return None;
        }
        self.get(self.buf.len() - 1)
    }

    /// Returns a mutable reference to the first element, or nothing when the
    /// list is empty.
    pub fn front_mut(&mut self) -> (r: Option<&mut T>)
        ensures
            old(self)@.len() > 0 ==> (r matches Some(p) && *p == old(self)@[0]
                && final(self)@ == old(self)@.update(0, *final(p))),
            old(self)@.len() == 0 ==> (r is None && *final(self) == *old(self)),
            final(self).spec_capacity() == old(self).spec_capacity(),
    {
        self.get_mut(0)
    }

    /// Returns a mutable reference to the last element, or nothing when the
    /// list is empty.
    pub fn back_mut(&mut self) -> (r: Option<&mut T>)
        ensures
            old(self)@.len() > 0 ==> (r matches Some(p) && *p == old(self)@[old(self)@.len() - 1]
                && final(self)@ == old(self)@.update(old(self)@.len() - 1, *final(p))),
            old(self)@.len() == 0 ==> (r is None && *final(self) == *old(self)),
            final(self).spec_capacity() == old(self).spec_capacity(),
    {
        if self.buf.len() == 0 {
            return None;
        }
        let last = self.buf.len() - 1;
        self.get_mut(last)
    }

    /// Returns a reference to the element at `index`. Unlike [`List::get`],
    /// an out-of-bounds index is a caller error and is excluded up front.
    pub fn index(&self, index: usize) -> (r: &T)
        requires
            index < self@.len(),
        ensures
            *r == self@[index as int],
    {
        &self.buf[index]
    }

    /// Returns a mutable reference to the element at `index`. Unlike
    /// [`List::get_mut`], an out-of-bounds index is a caller error and is
    /// excluded up front.
    pub fn index_mut(&mut self, index: usize) -> (r: &mut T)
        requires
            index < old(self)@.len(),
        ensures
            *r == old(self)@[index as int],
            final(self)@ == old(self)@.update(index as int, *final(r)),
            final(self).spec_capacity() == old(self).spec_capacity(),
    {
        proof {
            use_type_invariant(&*self);
        }
        &mut self.buf[index]
    }
}

impl<T: PartialEq> PartialEq for List<T> {
    /// Two lists are equal when they have the same length and their elements
    /// are pairwise equal, compared in index order.
    fn eq(&self, other: &Self) -> (r: bool) {
        if self.buf.len() != other.buf.len() {
            return false;
        }
        let mut i: usize = 0;
        while i < self.buf.len()
            invariant
                self@.len() == other@.len(),
                i <= self@.len(),
                T::obeys_eq_spec() ==> forall|j: int|
                    0 <= j < i ==> self@[j].eq_spec(&other@[j]),
            decreases self@.len() - i,
        {
            if !(self.buf[i] == other.buf[i]) {
                return false;
            }
            i += 1;
        }
        true
    }
}

impl<T: PartialEq> vstd::std_specs::cmp::PartialEqSpecImpl for List<T> {
    open spec fn obeys_eq_spec() -> bool {
        T::obeys_eq_spec()
    }

    open spec fn eq_spec(&self, other: &Self) -> bool {
        crate::pairwise_eq(self@, other@)
    }
}

impl<T: Eq> Eq for List<T> {

}

/// The glyph of a single decimal digit.
pub open spec fn digit_glyph(d: nat) -> char {
    if d == 0 {
        '0'
    } else if d == 1 {
        '1'
    } else if d == 2 {
        '2'
    } else if d == 3 {
        '3'
    } else if d == 4 {
        '4'
    } else if d == 5 {
        '5'
    } else if d == 6 {
        '6'
    } else if d == 7 {
        '7'
    } else if d == 8 {
        '8'
    } else {
        '9'
    }
}

/// The decimal digits of `n`, most significant first, without a sign and
/// without leading zeros (a single `0` for zero itself).
pub open spec fn decimal_digits(n: nat) -> Seq<char>
    decreases n,
{
    if n < 10 {
        seq![digit_glyph(n)]
    } else {
        decimal_digits(n / 10).push(digit_glyph(n % 10))
    }
}

/// The decimal rendering of `v`: a minus sign for negative values, then the
/// digits of the magnitude.
pub open spec fn decimal(v: int) -> Seq<char> {
    if v < 0 {
        seq!['-'] + decimal_digits((-v) as nat)
    } else {
        decimal_digits(v as nat)
    }
}

/// The renderings of the elements of `s`, joined by a comma and a space.
pub open spec fn rendered_items(s: Seq<i32>) -> Seq<char>
    decreases s.len(),
{
    if s.len() == 0 {
        Seq::empty()
    } else if s.len() == 1 {
        decimal(s[0] as int)
    } else {
        rendered_items(s.drop_last()) + seq![',', ' '] + decimal(s.last() as int)
    }
}

/// The rendering of a whole list: its comma-separated elements between
/// square brackets.
pub open spec fn rendered(s: Seq<i32>) -> Seq<char> {
    seq!['['] + rendered_items(s) + seq![']']
}

/// The one-character string for the decimal digit `d`.
fn digit_str(d: u32) -> (r: &'static str)
    requires
        d < 10,
    ensures
        r@ == seq![digit_glyph(d as nat)],
{
    match d {
        0 => {
            proof {
                reveal_strlit("0");
                assert("0"@ =~= seq!['0']);
            }
            "0"
        }
        1 => {
            proof {
                reveal_strlit("1");
                assert("1"@ =~= seq!['1']);
            }
            "1"
        }
        2 => {
            proof {
                reveal_strlit("2");
                assert("2"@ =~= seq!['2']);
            }
            "2"
        }
        3 => {
            proof {
                reveal_strlit("3");
                assert("3"@ =~= seq!['3']);
            }
            "3"
        }
        4 => {
            proof {
                reveal_strlit("4");
                assert("4"@ =~= seq!['4']);
            }
            "4"
        }
        5 => {
            proof {
                reveal_strlit("5");
                assert("5"@ =~= seq!['5']);
            }
            "5"
        }
        6 => {
            proof {
                reveal_strlit("6");
                assert("6"@ =~= seq!['6']);
            }
            "6"
        }
        7 => {
            proof {
                reveal_strlit("7");
                assert("7"@ =~= seq!['7']);
            }
            "7"
        }
        8 => {
            proof {
                reveal_strlit("8");
                assert("8"@ =~= seq!['8']);
            }
            "8"
        }
        _ => {
            proof {
                reveal_strlit("9");
                assert("9"@ =~= seq!['9']);
            }
            "9"
        }
    }
}

/// Appends the decimal digits of `v` to `out`.
fn append_decimal_digits(out: &mut String, v: u32)
    ensures
        final(out)@ == old(out)@ + decimal_digits(v as nat),
    decreases v,
{
    if v < 10 {
        out.append(digit_str(v));
    } else {
        append_decimal_digits(out, v / 10);
        out.append(digit_str(v % 10));
        proof {
            assert(out@ =~= old(out)@ + decimal_digits(v as nat));
        }
    }
}

/// Appends the decimal rendering of `v` to `out`, sign included.
fn append_decimal(out: &mut String, v: i32)
    ensures
        final(out)@ == old(out)@ + decimal(v as int),
{
    if v < 0 {
        out.append("-");
        let negated: i64 = -(v as i64);
        append_decimal_digits(out, negated as u32);
        proof {
            reveal_strlit("-");
            assert("-"@ =~= seq!['-']);
            assert(out@ =~= old(out)@ + decimal(v as int));
        }
    } else {
        append_decimal_digits(out, v as u32);
    }
}

impl List<i32> {
    /// Renders the list's elements in index order, comma-separated, between
    /// square brackets — `[5, 4, 3, 2, 1]` for the list holding those values.
    pub fn display_string(&self) -> (r: String)
        ensures
            r@ == rendered(self@),
    {
        let mut out = String::new();
        out.append("[");
        proof {
            reveal_strlit("[");
            assert("["@ =~= seq!['[']);
            assert(self@.take(0) =~= Seq::<i32>::empty());
            assert(out@ =~= seq!['['] + rendered_items(self@.take(0)));
        }
        let n = self.len();
        let mut i: usize = 0;
        while i < n
            invariant
                n == self@.len(),
                0 <= i <= n,
                out@ == seq!['['] + rendered_items(self@.take(i as int)),
            decreases n - i,
        {
            if i > 0 {
                out.append(", ");
            }
            append_decimal(&mut out, *self.index(i));
            proof {
                reveal_strlit(", ");
                assert(", "@ =~= seq![',', ' ']);
                let t = self@.take(i as int + 1);
                assert(t.drop_last() =~= self@.take(i as int));
                assert(t.last() == self@[i as int]);
                assert(out@ =~= seq!['['] + rendered_items(t));
            }
            i += 1;
        }
        out.append("]");
        proof {
            reveal_strlit("]");
            assert("]"@ =~= seq![']']);
            assert(self@.take(n as int) =~= self@);
            assert(out@ =~= rendered(self@));
        }
        out
    }
}

/// The contents left after pushing each value of `vs`, in order, into a list
/// that starts with contents `s`.
pub open spec fn after_pushes<T>(s: Seq<T>, vs: Seq<T>) -> Seq<T>
    decreases vs.len(),
{
    if vs.len() == 0 {
        s
    } else {
        after_pushes(s.push(vs[0]), vs.drop_first())
    }
}

/// Pushing a sequence of values appends exactly those values.
proof fn lemma_after_pushes<T>(s: Seq<T>, vs: Seq<T>)
    ensures
        after_pushes(s, vs) =~= s + vs,
    decreases vs.len(),
{
    if vs.len() == 0 {
    } else {
        lemma_after_pushes(s.push(vs[0]), vs.drop_first());
        assert(s.push(vs[0]) =~= s + seq![vs[0]]);
        assert(s.push(vs[0]) + vs.drop_first() =~= s + vs);
    }
}

/// A sequence of `N` pushes into an empty list leaves exactly the `N` pushed
/// values, each at the position it was pushed at. Together with the contract
/// of [`List::get`], the `i`-th pushed value is what `get(i)` returns for
/// every `i < N`, and `get(N)` is absent.
pub proof fn lemma_pushes_from_empty<T>(vs: Seq<T>)
    ensures
        after_pushes(Seq::<T>::empty(), vs) =~= vs,
{
    lemma_after_pushes(Seq::<T>::empty(), vs);
    assert(Seq::<T>::empty() + vs =~= vs);
}

} // verus!
