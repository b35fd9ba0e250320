//! The counter payload: the integers `0 .. MAX_VALUE`, each sent as eight
//! big-endian bytes.
//!
//! Both transports pull from a generator of this kind, so that the same
//! logical stream travels over each of them.

use vstd::prelude::*;

verus! {

/// Number of values in the counter stream.
pub const MAX_VALUE: u64 = 1_000_000;

/// The eight big-endian bytes of `value`, most significant first.
pub open spec fn be_bytes(value: u64) -> Seq<u8> {
    seq![
        ((value / 0x100_0000_0000_0000) % 0x100) as u8,
        ((value / 0x1_0000_0000_0000) % 0x100) as u8,
        ((value / 0x100_0000_0000) % 0x100) as u8,
        ((value / 0x1_0000_0000) % 0x100) as u8,
        ((value / 0x100_0000) % 0x100) as u8,
        ((value / 0x1_0000) % 0x100) as u8,
        ((value / 0x100) % 0x100) as u8,
        (value % 0x100) as u8,
    ]
}

/// The number that eight big-endian bytes stand for.
pub open spec fn be_value(bytes: Seq<u8>) -> int
    recommends
        bytes.len() == 8,
{
    bytes[0] * 0x100_0000_0000_0000 + bytes[1] * 0x1_0000_0000_0000 + bytes[2] * 0x100_0000_0000
        + bytes[3] * 0x1_0000_0000 + bytes[4] * 0x100_0000 + bytes[5] * 0x1_0000 + bytes[6] * 0x100
        + bytes[7]
}

/// Decoding undoes encoding: every `u64` is recovered from its eight bytes.
pub proof fn lemma_decode_encode(value: u64)
    ensures
        be_bytes(value).len() == 8,
        be_value(be_bytes(value)) == value,
{
    let v = value as int;
    let q1 = v / 0x100;
    let q2 = q1 / 0x100;
    let q3 = q2 / 0x100;
    let q4 = q3 / 0x100;
    let q5 = q4 / 0x100;
    let q6 = q5 / 0x100;
    let q7 = q6 / 0x100;
    assert(q2 == v / 0x1_0000);
    assert(q3 == v / 0x100_0000);
    assert(q4 == v / 0x1_0000_0000);
    assert(q5 == v / 0x100_0000_0000);
    assert(q6 == v / 0x1_0000_0000_0000);
    assert(q7 == v / 0x100_0000_0000_0000);
    assert(q7 < 0x100);
}

/// Encoding undoes decoding: eight bytes are recovered from their number.
pub proof fn lemma_encode_decode(bytes: Seq<u8>)
    requires
        bytes.len() == 8,
    ensures
        0 <= be_value(bytes) <= u64::MAX,
        be_bytes(be_value(bytes) as u64) == bytes,
{
    let v = be_value(bytes);
    let q1 = v / 0x100;
    let q2 = q1 / 0x100;
    let q3 = q2 / 0x100;
    let q4 = q3 / 0x100;
    let q5 = q4 / 0x100;
    let q6 = q5 / 0x100;
    let q7 = q6 / 0x100;
    assert(q2 == v / 0x1_0000);
    assert(q3 == v / 0x100_0000);
    assert(q4 == v / 0x1_0000_0000);
    assert(q5 == v / 0x100_0000_0000);
    assert(q6 == v / 0x1_0000_0000_0000);
    assert(q7 == v / 0x100_0000_0000_0000);
    assert(q7 == bytes[0]);
    assert(q6 % 0x100 == bytes[1]);
    assert(q5 % 0x100 == bytes[2]);
    assert(q4 % 0x100 == bytes[3]);
    assert(q3 % 0x100 == bytes[4]);
    assert(q2 % 0x100 == bytes[5]);
    assert(q1 % 0x100 == bytes[6]);
    assert(v % 0x100 == bytes[7]);
    assert(be_bytes(v as u64) =~= bytes);
}

/// Two different values never share an encoding.
pub proof fn lemma_encode_injective(a: u64, b: u64)
    requires
        be_bytes(a) == be_bytes(b),
    ensures
        a == b,
{
    lemma_decode_encode(a);
    lemma_decode_encode(b);
}

/// Encodes `value` as eight big-endian bytes.
pub fn encode(value: u64) -> (bytes: [u8; 8])
    ensures
        bytes@ == be_bytes(value),
{
    let bytes: [u8; 8] = [
        ((value / 0x100_0000_0000_0000) % 0x100) as u8,
        ((value / 0x1_0000_0000_0000) % 0x100) as u8,
        ((value / 0x100_0000_0000) % 0x100) as u8,
        ((value / 0x1_0000_0000) % 0x100) as u8,
        ((value / 0x100_0000) % 0x100) as u8,
        ((value / 0x1_0000) % 0x100) as u8,
        ((value / 0x100) % 0x100) as u8,
        (value % 0x100) as u8,
    ];
    assert(bytes@ =~= be_bytes(value));
    bytes
}

/// Decodes eight big-endian bytes.
pub fn decode(bytes: [u8; 8]) -> (value: u64)
    ensures
        value == be_value(bytes@),
        be_bytes(value) == bytes@,
{
    proof {
        lemma_encode_decode(bytes@);
    }
    let high: u64 = bytes[0] as u64 * 0x100_0000 + bytes[1] as u64 * 0x1_0000 + bytes[2] as u64
        * 0x100 + bytes[3] as u64;
    let low: u64 = bytes[4] as u64 * 0x100_0000 + bytes[5] as u64 * 0x1_0000 + bytes[6] as u64
        * 0x100 + bytes[7] as u64;
    high * 0x1_0000_0000 + low
}

/// What one call does to a generator whose cursor stands at `cursor`: where
/// the cursor stands afterwards, and the value handed out, if any.
pub open spec fn next_of(cursor: nat) -> (nat, Option<u64>) {
    if cursor < MAX_VALUE {
        (cursor + 1, Some(cursor as u64))
    } else {
        (cursor, None)
    }
}

/// Where the cursor of a fresh generator stands after `calls` calls.
pub open spec fn cursor_after(calls: nat) -> nat
    decreases calls,
{
    if calls == 0 {
        0
    } else {
        next_of(cursor_after((calls - 1) as nat)).0
    }
}

/// The value that call number `k` on a fresh generator hands out, the first
/// call being number 0.
pub open spec fn value_of_call(k: nat) -> Option<u64> {
    next_of(cursor_after(k)).1
}

/// Call number `k` on a fresh generator hands out `k` while `k` is below
/// `MAX_VALUE`, and nothing from then on.
pub proof fn lemma_counter_sequence(k: nat)
    ensures
        cursor_after(k) == if k < MAX_VALUE {
            k
        } else {
            MAX_VALUE as nat
        },
        value_of_call(k) == if k < MAX_VALUE {
            Some(k as u64)
        } else {
            None
        },
    decreases k,
{
    if k > 0 {
        lemma_counter_sequence((k - 1) as nat);
    }
}

/// No two calls hand out the same value, nor the same bytes, and a later
/// call hands out the greater value.
pub proof fn lemma_counter_no_repeats(i: nat, j: nat)
    requires
        i < j < MAX_VALUE,
    ensures
        value_of_call(i) is Some,
        value_of_call(j) is Some,
        value_of_call(i).unwrap() < value_of_call(j).unwrap(),
        be_bytes(value_of_call(i).unwrap()) != be_bytes(value_of_call(j).unwrap()),
{
    lemma_counter_sequence(i);
    lemma_counter_sequence(j);
    if be_bytes(i as u64) == be_bytes(j as u64) {
        lemma_encode_injective(i as u64, j as u64);
    }
}

/// Produces the counter stream, one value a call.
pub struct CounterGenerator {
    cursor: u64,
}

impl CounterGenerator {
    /// How many values have been handed out: the value that the next call
    /// hands out, or `MAX_VALUE` once the stream is exhausted.
    pub closed spec fn cursor(&self) -> nat {
        self.cursor as nat
    }

    /// The cursor never passes the end of the stream.
    pub open spec fn wf(&self) -> bool {
        self.cursor() <= MAX_VALUE
    }

    /// A generator at the start of the stream.
    pub fn new() -> (generator: Self)
        ensures
            generator.wf(),
            generator.cursor() == 0,
    {
        CounterGenerator { cursor: 0 }
    }

    /// How many values are still to come.
    pub fn remaining(&self) -> (left: u64)
        requires
            self.wf(),
        ensures
            left == MAX_VALUE - self.cursor(),
    {
        MAX_VALUE - self.cursor
    }

    /// Hands out the next value as eight big-endian bytes and moves on by
    /// one; once `MAX_VALUE` values are out, hands out nothing and stays put.
    pub fn next(&mut self) -> (payload: Option<[u8; 8]>)
        requires
            old(self).wf(),
        ensures
            final(self).wf(),
            final(self).cursor() == next_of(old(self).cursor()).0,
            match next_of(old(self).cursor()).1 {
                Some(value) => payload matches Some(bytes) && bytes@ == be_bytes(value),
                None => payload is None,
            },
    {
        if self.cursor < MAX_VALUE {
            let bytes = encode(self.cursor);
            self.cursor = self.cursor + 1;
            Some(bytes)
        } else {
            None
        }
    }
}

} // verus!
