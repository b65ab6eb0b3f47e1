//! Small bit-level helpers and a fixed size circular buffer.

use vstd::prelude::*;

verus! {

/// Bit `n` of `value` is set.
pub open spec fn bit_of(value: u8, n: u8) -> bool {
    value & (1u8 << n) != 0
}

/// Get the status of bit N in the given value.
pub fn nth_bit(value: u8, n: u8) -> (r: bool)
    requires
        n < 8,
    ensures
        r == bit_of(value, n),
{
    value & (1 << n) != 0
}

/// The 2-bit number whose high bit is `high` and whose low bit is `low`.
pub open spec fn two_bit_value(high: bool, low: bool) -> u8 {
    ((if high { 2u8 } else { 0u8 }) + (if low { 1u8 } else { 0u8 })) as u8
}

/// Combine two booleans into a 2-bit value.
pub fn combine_bools(high: bool, low: bool) -> (r: u8)
    ensures
        r == two_bit_value(high, low),
        r < 4,
{
    let h: u8 = if high { 1 } else { 0 };
    let l: u8 = if low { 1 } else { 0 };
    let r = ((1 & h) << 1) | (1 & l);
    assert(h <= 1 && l <= 1 ==> ((1 & h) << 1) | (1 & l) == 2 * h + l) by (bit_vector);
    r
}

} // verus!

verus! {

/// Format a flag in a set of bit flags: the flag's character when every bit of the
/// flag is set in `self`, a dash otherwise.
pub trait FormatBitFlags: Sized {
    /// The raw bits of a flag set.
    spec fn flag_bits(&self) -> u8;

    /// Format a flag to the given character if present, or a dash if not.
    fn format(&self, flag: Self, display: char) -> (r: char)
        ensures
            r == (if self.flag_bits() & flag.flag_bits() == flag.flag_bits() {
                display
            } else {
                '-'
            }),
    ;
}

/// Expand an array of T into an array of Option<T>, filling the unknown elements with None.
pub fn expand_array<T: Copy, const IN_LEN: usize, const OUT_LEN: usize>(
    input: &[T; IN_LEN],
) -> (expanded: [Option<T>; OUT_LEN])
    requires
        IN_LEN <= OUT_LEN,
    ensures
        forall|i: int| 0 <= i < IN_LEN ==> expanded@[i] == Some(input@[i]),
        forall|i: int| IN_LEN <= i < OUT_LEN ==> expanded@[i] == None::<T>,
{
    let mut expanded: [Option<T>; OUT_LEN] = [None; OUT_LEN];
    let mut i: usize = 0;
    while i < IN_LEN
        invariant
            IN_LEN <= OUT_LEN,
            i <= IN_LEN,
            expanded@.len() == OUT_LEN,
            forall|j: int| 0 <= j < i ==> expanded@[j] == Some(input@[j]),
            forall|j: int| i <= j < OUT_LEN ==> expanded@[j] == None::<T>,
        decreases IN_LEN - i,
    {
        expanded[i] = Some(input[i]);
        i += 1;
    }
    expanded
}

/// The slots of a circular buffer of `n` slots, its cursor at `cursor`, after `items`
/// were pushed in order.
pub open spec fn slots_after_pushes<T>(slots: Seq<Option<T>>, cursor: int, n: int, items: Seq<T>) -> Seq<
    Option<T>,
>
    decreases items.len(),
{
    if items.len() == 0 {
        slots
    } else {
        slots_after_pushes(slots, cursor, n, items.drop_last()).update(
            (cursor + items.len() - 1) % n,
            Some(items.last()),
        )
    }
}

/// After pushes into a buffer of `n` slots that started at `cursor`, the last pushes
/// (as many as there are slots, at most) sit just before the cursor that the pushes
/// leave, the newest last.
proof fn lemma_recent_pushes<T>(slots: Seq<Option<T>>, cursor: int, n: int, items: Seq<T>)
    requires
        0 < n,
        slots.len() == n,
        0 <= cursor < n,
    ensures
        slots_after_pushes(slots, cursor, n, items).len() == n,
        forall|j: int|
            0 <= j < items.len() && j < n ==> #[trigger] slots_after_pushes(
                slots,
                cursor,
                n,
                items,
            )[(cursor + items.len() - 1 - j) % n] == Some(items[items.len() - 1 - j]),
    decreases items.len(),
{
    if items.len() > 0 {
        let m = items.len() as int;
        let prev = items.drop_last();
        lemma_recent_pushes(slots, cursor, n, prev);
        let top = (cursor + m - 1) % n;
        vstd::arithmetic::div_mod::lemma_mod_bound(cursor + m - 1, n);
        assert forall|j: int|
            0 <= j < items.len() && j < n implies #[trigger] slots_after_pushes(
                slots,
                cursor,
                n,
                items,
            )[(cursor + items.len() - 1 - j) % n] == Some(items[items.len() - 1 - j]) by {
            if j > 0 {
                let k = j - 1;
                assert(slots_after_pushes(slots, cursor, n, prev)[(cursor + prev.len() - 1 - k) % n]
                    == Some(prev[prev.len() - 1 - k]));
                assert(cursor + prev.len() - 1 - k == cursor + m - 1 - j);
                vstd::arithmetic::div_mod::lemma_mod_equivalence(cursor + m - 1, cursor + m - 1 - j, n);
                vstd::arithmetic::div_mod::lemma_small_mod(j as nat, n as nat);
                assert((cursor + m - 1) - (cursor + m - 1 - j) == j);
            }
        }
    }
}

/// A run of pushes is described by `slots_after_pushes`: if `b` holds what pushing
/// `items` into `slots` from `cursor` leaves, then `next`, the buffer after `push` of one
/// more value (as `push`'s contract gives it), holds what pushing `items` and then that
/// value leaves, with the cursor moved on by one more.
pub proof fn lemma_push_extends<T, const N: usize>(
    b: CircularBuffer<T, N>,
    next: CircularBuffer<T, N>,
    slots: Seq<Option<T>>,
    cursor: int,
    items: Seq<T>,
    value: T,
)
    requires
        N > 0,
        0 <= cursor < N,
        b.slots() == slots_after_pushes(slots, cursor, N as int, items),
        b.cursor() == (cursor + items.len()) % (N as int),
        next.slots() == b.slots().update(b.cursor(), Some(value)),
        next.cursor() == (b.cursor() + 1) % (N as int),
    ensures
        next.slots() == slots_after_pushes(slots, cursor, N as int, items.push(value)),
        next.cursor() == (cursor + items.push(value).len()) % (N as int),
{
    let n = N as int;
    let all = items.push(value);
    assert(all.drop_last() =~= items);
    assert(all.last() == value);
    assert(cursor + all.len() - 1 == cursor + items.len());
    vstd::arithmetic::div_mod::lemma_add_mod_noop_right(1, cursor + items.len(), n);
    assert(1 + (cursor + items.len()) % n == (cursor + items.len()) % n + 1);
    assert(1 + (cursor + items.len()) == cursor + all.len());
}

/// Pushing at least as many values as a buffer has slots fills every slot, and reading
/// the slots from the cursor that the pushes leave gives the last values pushed, oldest
/// first: what `iter` then yields. `push` moves the cursor on by one and fills the slot
/// under it, so `slots_after_pushes` is what a run of pushes leaves.
pub proof fn lemma_pushes_then_iter<T, const N: usize>(b: CircularBuffer<T, N>, items: Seq<T>)
    requires
        b.wf(),
        N > 0,
        items.len() >= N,
    ensures
        ({
            let slots = slots_after_pushes(b.slots(), b.cursor(), N as int, items);
            let cursor = (b.cursor() + items.len()) % (N as int);
            &&& slots.len() == N
            &&& forall|p: int| 0 <= p < N ==> #[trigger] slots[p] is Some
            &&& forall|i: int|
                0 <= i < N ==> #[trigger] slots[(cursor + i) % (N as int)] == Some(
                    items[items.len() - N + i],
                )
        }),
{
    b.lemma_cursor_in_bounds();
    let n = N as int;
    let c = b.cursor();
    let m = items.len() as int;
    let slots = slots_after_pushes(b.slots(), c, n, items);
    let cursor = (c + m) % n;
    lemma_recent_pushes(b.slots(), c, n, items);
    assert forall|i: int| 0 <= i < n implies #[trigger] slots[(cursor + i) % n] == Some(
        items[m - n + i],
    ) by {
        let j = n - 1 - i;
        assert(slots[(c + m - 1 - j) % n] == Some(items[m - 1 - j]));
        assert(c + m - 1 - j == -n + (c + m + i));
        vstd::arithmetic::div_mod::lemma_mod_sub_multiples_vanish(c + m + i, n);
        vstd::arithmetic::div_mod::lemma_add_mod_noop_right(i, c + m, n);
        assert((cursor + i) % n == (c + m + i) % n) by {
            vstd::arithmetic::div_mod::lemma_add_mod_noop_right(i, c + m, n);
            assert(i + (c + m) % n == cursor + i);
            assert(i + (c + m) == c + m + i);
        }
    }
    assert forall|p: int| 0 <= p < n implies #[trigger] slots[p] is Some by {
        let i = (p - (c + m)) % n;
        vstd::arithmetic::div_mod::lemma_mod_bound(p - (c + m), n);
        assert(slots[(cursor + i) % n] == Some(items[m - n + i]));
        assert((cursor + i) % n == p) by {
            vstd::arithmetic::div_mod::lemma_add_mod_noop_right(i, c + m, n);
            vstd::arithmetic::div_mod::lemma_add_mod_noop_right(c + m, p - (c + m), n);
            vstd::arithmetic::div_mod::lemma_small_mod(p as nat, n as nat);
            assert(i + (c + m) % n == cursor + i);
            assert(c + m + (p - (c + m)) == p);
            assert((i + (c + m)) % n == (c + m + i) % n);
        }
    }
}

/// A fixed size circular buffer.
pub struct CircularBuffer<T, const N: usize> {
    data: Vec<Option<T>>,
    current: usize,
}

impl<T, const N: usize> CircularBuffer<T, N> {
    /// The slots of the buffer, by position.
    pub closed spec fn slots(&self) -> Seq<Option<T>> {
        self.data@
    }

    /// The slot that the next push overwrites.
    pub closed spec fn cursor(&self) -> int {
        self.current as int
    }

    /// The buffer has exactly `N` slots and its cursor points at one of them.
    pub closed spec fn wf(&self) -> bool {
        &&& self.data@.len() == N
        &&& (N == 0 || self.current < N)
    }

    /// The cursor of a well-formed buffer with slots names one of them.
    pub proof fn lemma_cursor_in_bounds(&self)
        requires
            self.wf(),
            N > 0,
        ensures
            0 <= self.cursor() < N,
            self.slots().len() == N,
    {
    }

    /// An empty buffer: every slot holds nothing.
    pub fn new() -> (r: Self)
        ensures
            r.wf(),
            r.slots().len() == N,
            r.cursor() == 0,
            forall|i: int| 0 <= i < N ==> r.slots()[i] == None::<T>,
    {
        let mut data: Vec<Option<T>> = Vec::new();
        let mut i: usize = 0;
        while i < N
            invariant
                i <= N,
                data@.len() == i,
                forall|j: int| 0 <= j < i ==> data@[j] == None::<T>,
            decreases N - i,
        {
            data.push(None);
            i += 1;
        }
        Self { data, current: 0 }
    }

    /// The number of slots.
    pub fn len(&self) -> (r: usize)
        ensures
            r == N,
    {
        N
    }

    /// Push a value into the buffer, overwriting the oldest value if the buffer is full.
    pub fn push(&mut self, value: T)
        requires
            N > 0,
            old(self).wf(),
        ensures
            final(self).wf(),
            final(self).slots() == old(self).slots().update(old(self).cursor(), Some(value)),
            final(self).cursor() == (old(self).cursor() + 1) % (N as int),
            final(self).slots().len() == N,
    {
        let cur = self.current;
        self.data.set(cur, Some(value));
        self.current = (cur + 1) % N;
    }

    /// Get the last value pushed into the buffer.
    pub fn last(&self) -> (r: Option<&T>)
        requires
            self.wf(),
        ensures
            N == 0 ==> r is None,
            N > 0 ==> r == (match self.slots()[(self.cursor() + N - 1) % (N as int)] {
                Some(v) => Some(&v),
                None => None,
            }),
    {
        if N == 0 {
            return None;
        }
        let index = if self.current == 0 { N - 1 } else { self.current - 1 };
        assert(index == (self.cursor() + N - 1) % (N as int)) by {
            if self.current == 0 {
                vstd::arithmetic::div_mod::lemma_small_mod((N - 1) as nat, N as nat);
            } else {
                vstd::arithmetic::div_mod::lemma_mod_add_multiples_vanish(index as int, N as int);
                vstd::arithmetic::div_mod::lemma_small_mod(index as nat, N as nat);
            }
        }
        match &self.data[index] {
            Some(v) => Some(v),
            None => None,
        }
    }

    /// The slot at `index`.
    pub fn index(&self, index: usize) -> (r: &Option<T>)
        requires
            self.wf(),
            index < N,
        ensures
            *r == self.slots()[index as int],
    {
        &self.data[index]
    }

    /// Mutable access to the slot at `index`.
    pub fn set(&mut self, index: usize, value: Option<T>)
        requires
            old(self).wf(),
            index < N,
        ensures
            final(self).wf(),
            final(self).slots() == old(self).slots().update(index as int, value),
            final(self).cursor() == old(self).cursor(),
    {
        self.data.set(index, value);
    }

    /// All values, oldest first, starting at the slot that the next push overwrites.
    /// Every slot must hold a value.
    pub fn iter(&self) -> (r: Vec<&T>)
        requires
            self.wf(),
            forall|i: int| 0 <= i < N ==> self.slots()[i] is Some,
        ensures
            r@.len() == N,
            forall|i: int|
                0 <= i < N ==> Some(*r@[i]) == self.slots()[(self.cursor() + i) % (N as int)],
    {
        let mut out: Vec<&T> = Vec::new();
        let mut k: usize = 0;
        while k < N
            invariant
                k <= N,
                self.data@.len() == N,
                N == 0 || self.current < N,
                out@.len() == k,
                forall|i: int| 0 <= i < N ==> self.slots()[i] is Some,
                forall|i: int|
                    0 <= i < k ==> Some(*out@[i]) == self.data@[(self.current + i) % (N as int)],
            decreases N - k,
        {
            let i = if k < N - self.current {
                self.current + k
            } else {
                k - (N - self.current)
            };
            assert(i == (self.current + k) % (N as int)) by {
                if k < N - self.current {
                    vstd::arithmetic::div_mod::lemma_small_mod(i as nat, N as nat);
                } else {
                    vstd::arithmetic::div_mod::lemma_small_mod(i as nat, N as nat);
                    vstd::arithmetic::div_mod::lemma_mod_add_multiples_vanish(i as int, N as int);
                }
            }
            assert(self.slots()[i as int] is Some);
            match &self.data[i] {
                Some(v) => out.push(v),
                None => {},
            }
            k += 1;
        }
        out
    }
}

} // verus!

verus! {

/// The little-endian 16-bit word made of `lo` and `hi`.
pub open spec fn word(lo: u8, hi: u8) -> u16 {
    (hi as int * 256 + lo as int) as u16
}

/// The low byte of a word.
pub open spec fn low_byte(value: u16) -> u8 {
    (value % 256) as u8
}

/// The high byte of a word.
pub open spec fn high_byte(value: u16) -> u8 {
    (value / 256) as u8
}

/// Build a word from its low and high bytes.
pub fn word_from_bytes(lo: u8, hi: u8) -> (r: u16)
    ensures
        r == word(lo, hi),
        low_byte(r) == lo,
        high_byte(r) == hi,
{
    let r = ((hi as u16) << 8) | (lo as u16);
    assert(((hi as u16) << 8) | (lo as u16) == (hi as u16) * 256 + (lo as u16)) by (bit_vector);
    r
}

/// The low byte of a word.
pub fn low_byte_of(value: u16) -> (r: u8)
    ensures
        r == low_byte(value),
{
    assert((value & 0xFF) as u8 == (value % 256) as u8) by (bit_vector);
    (value & 0xFF) as u8
}

/// The high byte of a word.
pub fn high_byte_of(value: u16) -> (r: u8)
    ensures
        r == high_byte(value),
{
    assert((value >> 8) as u8 == (value / 256) as u8) by (bit_vector);
    (value >> 8) as u8
}

/// The last value of a circular buffer is the one pushed most recently: after a push
/// into a well-formed buffer with slots, the slot that `last` reads holds the pushed
/// value, and every other slot is unchanged.
pub proof fn lemma_push_then_last<T, const N: usize>(b: CircularBuffer<T, N>, value: T)
    requires
        b.wf(),
        N > 0,
    ensures
        ({
            let pushed = b.slots().update(b.cursor(), Some(value));
            let next = (b.cursor() + 1) % (N as int);
            &&& pushed[(next + N - 1) % (N as int)] == Some(value)
            &&& forall|i: int|
                0 <= i < N && i != (next + N - 1) % (N as int) ==> pushed[i] == b.slots()[i]
        }),
{
    b.lemma_cursor_in_bounds();
    let n = N as int;
    let cursor = b.cursor();
    let next = (cursor + 1) % n;
    if cursor + 1 < n {
        vstd::arithmetic::div_mod::lemma_small_mod((cursor + 1) as nat, n as nat);
        vstd::arithmetic::div_mod::lemma_mod_add_multiples_vanish(cursor, n);
        vstd::arithmetic::div_mod::lemma_small_mod(cursor as nat, n as nat);
    } else {
        vstd::arithmetic::div_mod::lemma_mod_self_0(n);
        vstd::arithmetic::div_mod::lemma_small_mod((n - 1) as nat, n as nat);
    }
    assert((next + n - 1) % n == cursor);
}

/// A word is rebuilt from its two bytes.
pub proof fn lemma_word_bytes(value: u16)
    ensures
        word(low_byte(value), high_byte(value)) == value,
{
}

/// Bit `n` of `value`, as a number shifted down.
pub open spec fn bit_value(value: u8, n: u8) -> u8 {
    (value >> n) & 1
}

/// Setting or clearing bit `n` of `value`.
pub open spec fn with_bit(value: u8, n: u8, set: bool) -> u8 {
    if set {
        value | (1u8 << n)
    } else {
        value & !(1u8 << n)
    }
}

/// Bit `n` of a byte is the bit of weight `2^n`: its mask is `0x01`, `0x02`, ... `0x80`.
pub proof fn lemma_bit_masks(value: u8)
    by (bit_vector)
    ensures
        bit_of(value, 0) == (value & 0x01 != 0),
        bit_of(value, 1) == (value & 0x02 != 0),
        bit_of(value, 2) == (value & 0x04 != 0),
        bit_of(value, 3) == (value & 0x08 != 0),
        bit_of(value, 4) == (value & 0x10 != 0),
        bit_of(value, 5) == (value & 0x20 != 0),
        bit_of(value, 6) == (value & 0x40 != 0),
        bit_of(value, 7) == (value & 0x80 != 0),
{
}

/// Reading a bit gives back what was written there, and the other bits keep their value.
pub proof fn lemma_with_bit(value: u8, n: u8, set: bool, m: u8)
    by (bit_vector)
    requires
        n < 8,
        m < 8,
    ensures
        bit_of(with_bit(value, n, set), n) == set,
        m != n ==> bit_of(with_bit(value, n, set), m) == bit_of(value, m),
{
}

} // verus!

verus! {

/// `value` with bit `n` set or cleared.
pub fn set_bit(value: u8, n: u8, set: bool) -> (r: u8)
    requires
        n < 8,
    ensures
        r == with_bit(value, n, set),
{
    if set {
        value | (1u8 << n)
    } else {
        value & !(1u8 << n)
    }
}

} // verus!

verus! {

/// `String::push` appends the character at the end of the string, as its documentation
/// says; nothing else is claimed.
pub assume_specification[ String::push ](s: &mut String, ch: char)
    ensures
        final(s)@ == old(s)@.push(ch),
;

/// The string made of `chars`.
pub fn string_of_chars(chars: &Vec<char>) -> (r: String)
    ensures
        r@ == chars@,
{
    let mut s = String::new();
    let mut i: usize = 0;
    while i < chars.len()
        invariant
            i <= chars@.len(),
            s@ == chars@.subrange(0, i as int),
        decreases chars@.len() - i,
    {
        s.push(chars[i]);
        i += 1;
    }
    s
}


/// A copy of a byte vector.
pub fn copy_bytes(v: &Vec<u8>) -> (r: Vec<u8>)
    ensures
        r@ == v@,
{
    let mut out: Vec<u8> = Vec::new();
    let mut i: usize = 0;
    while i < v.len()
        invariant
            i <= v@.len(),
            out@ == v@.subrange(0, i as int),
        decreases v@.len() - i,
    {
        out.push(v[i]);
        i += 1;
    }
    assert(v@.subrange(0, v@.len() as int) =~= v@);
    out
}

/// The upper-case hexadecimal digit of a value below 16.
pub open spec fn hex_char(d: nat) -> char {
    if d < 10 {
        (48 + d) as char
    } else {
        (55 + d) as char
    }
}

/// `v` in upper-case hexadecimal, with at least `width` digits (zeros in front).
pub open spec fn hex_string(v: nat, width: nat) -> Seq<char>
    decreases v, width,
{
    if v < 16 && width <= 1 {
        seq![hex_char(v)]
    } else {
        hex_string(v / 16, if width > 0 {
            (width - 1) as nat
        } else {
            0
        }).push(hex_char(v % 16))
    }
}

/// `s` followed by spaces up to `width` characters.
pub open spec fn pad_right(s: Seq<char>, width: nat) -> Seq<char> {
    if s.len() >= width {
        s
    } else {
        s + Seq::new((width - s.len()) as nat, |i: int| ' ')
    }
}

fn hex_digit_char(d: u16) -> (r: char)
    requires
        d < 16,
    ensures
        r == hex_char(d as nat),
{
    if d < 10 {
        (48 + d as u8) as char
    } else {
        (55 + d as u8) as char
    }
}

/// Append `v` in upper-case hexadecimal, with at least `width` digits.
pub fn push_hex(out: &mut Vec<char>, v: u16, width: usize)
    ensures
        final(out)@ == old(out)@ + hex_string(v as nat, width as nat),
    decreases v, width,
{
    if v < 16 && width <= 1 {
        out.push(hex_digit_char(v));
    } else {
        let w: usize = if width > 0 { width - 1 } else { 0 };
        push_hex(out, v / 16, w);
        out.push(hex_digit_char(v % 16));
        assert(old(out)@ + hex_string(v as nat, width as nat) =~= old(out)@ + hex_string(
            (v / 16) as nat,
            w as nat,
        ) + seq![hex_char((v % 16) as nat)]);
    }
}

/// `v` in decimal, without leading zeros.
pub open spec fn decimal_string(v: nat) -> Seq<char>
    decreases v,
{
    if v < 10 {
        seq![hex_char(v)]
    } else {
        decimal_string(v / 10).push(hex_char(v % 10))
    }
}

/// Append `v` in decimal.
pub fn push_decimal(out: &mut Vec<char>, v: usize)
    ensures
        final(out)@ == old(out)@ + decimal_string(v as nat),
    decreases v,
{
    if v >= 10 {
        push_decimal(out, v / 10);
    }
    let d: u16 = (v % 10) as u16;
    out.push(hex_digit_char(d));
    assert(old(out)@ + decimal_string(v as nat) =~= if v >= 10 {
        old(out)@ + decimal_string((v / 10) as nat) + seq![hex_char((v % 10) as nat)]
    } else {
        old(out)@ + seq![hex_char(v as nat)]
    });
}

/// Append the characters of `s`.
pub fn push_str(out: &mut Vec<char>, s: &str)
    ensures
        final(out)@ == old(out)@ + s@,
{
    let ghost orig = out@;
    let n = s.unicode_len();
    let mut i: usize = 0;
    while i < n
        invariant
            i <= n,
            n == s@.len(),
            out@ == orig + s@.subrange(0, i as int),
        decreases n - i,
    {
        out.push(s.get_char(i));
        i += 1;
        assert(out@ =~= orig + s@.subrange(0, i as int));
    }
    assert(s@.subrange(0, n as int) =~= s@);
}

/// Append spaces until `out` holds `start + width` characters.
pub fn pad_to(out: &mut Vec<char>, start: usize, width: usize)
    requires
        start <= old(out)@.len(),
    ensures
        final(out)@ == old(out)@.subrange(0, start as int) + pad_right(
            old(out)@.subrange(start as int, old(out)@.len() as int),
            width as nat,
        ),
{
    let ghost orig = out@;
    while out.len() - start < width
        invariant
            start <= orig.len() <= out@.len(),
            out@.subrange(0, orig.len() as int) == orig,
            forall|i: int| orig.len() <= i < out@.len() ==> out@[i] == ' ',
            out@.len() <= (if orig.len() >= start + width { orig.len() } else { (start + width) as nat }),
        decreases start + width - out@.len(),
    {
        out.push(' ');
    }
    let ghost tail = orig.subrange(start as int, orig.len() as int);
    assert(out@ =~= orig.subrange(0, start as int) + pad_right(tail, width as nat));
}

} // verus!
