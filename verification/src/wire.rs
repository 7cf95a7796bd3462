//! Byte-level primitives shared by every wire contract.
//!
//! Integers are big-endian. A reader consumes a byte slice from its front; what it
//! returns is stated over the bytes that were left before the call.

use vstd::prelude::*;
use vstd::string::*;
use vstd::utf8::*;

verus! {

/// The big-endian notation of a number in `width` bytes.
pub open spec fn be(value: nat, width: nat) -> Seq<u8>
    decreases width,
{
    if width == 0 {
        Seq::empty()
    } else {
        be(value / 256, (width - 1) as nat).push((value % 256) as u8)
    }
}

/// The number that a big-endian notation denotes.
pub open spec fn from_be(bytes: Seq<u8>) -> nat
    decreases bytes.len(),
{
    if bytes.len() == 0 {
        0
    } else {
        from_be(bytes.drop_last()) * 256 + bytes.last() as nat
    }
}

pub open spec fn pow256(n: nat) -> nat
    decreases n,
{
    if n == 0 {
        1
    } else {
        256 * pow256((n - 1) as nat)
    }
}

pub proof fn lemma_be(value: nat, width: nat)
    ensures
        be(value, width).len() == width,
        value < pow256(width) ==> from_be(be(value, width)) == value,
    decreases width,
{
    if width > 0 {
        lemma_be(value / 256, (width - 1) as nat);
        assert(be(value, width).drop_last() =~= be(value / 256, (width - 1) as nat));
    }
}

pub proof fn lemma_from_be(bytes: Seq<u8>)
    ensures
        from_be(bytes) < pow256(bytes.len()),
        be(from_be(bytes), bytes.len()) == bytes,
    decreases bytes.len(),
{
    if bytes.len() > 0 {
        lemma_from_be(bytes.drop_last());
        let high = from_be(bytes.drop_last());
        let low = bytes.last() as nat;
        assert((high * 256 + low) / 256 == high);
        assert((high * 256 + low) % 256 == low);
        assert(be(from_be(bytes), bytes.len()) =~= bytes);
    }
}

pub proof fn lemma_pow256()
    ensures
        pow256(1) == 0x100,
        pow256(2) == 0x1_0000,
        pow256(4) == 0x1_0000_0000,
        pow256(8) == 0x1_0000_0000_0000_0000,
{
    reveal_with_fuel(pow256, 9);
}

proof fn lemma_be_1(v: nat)
    ensures
        be(v, 1) == seq![(v % 256) as u8],
{
    reveal_with_fuel(be, 2);
    assert(be(v, 1) =~= seq![(v % 256) as u8]);
}

proof fn lemma_be_2(v: nat)
    ensures
        be(v, 2) == seq![(v / 256 % 256) as u8, (v % 256) as u8],
{
    lemma_be_1(v / 256);
    assert(be(v, 2) =~= be(v / 256, 1).push((v % 256) as u8));
}

proof fn lemma_be_4(v: nat)
    ensures
        be(v, 4) == seq![
            (v / 0x100_0000 % 256) as u8,
            (v / 0x1_0000 % 256) as u8,
            (v / 0x100 % 256) as u8,
            (v % 256) as u8,
        ],
{
    lemma_be_2(v / 256 / 256);
    assert(be(v / 256, 3) =~= be(v / 256 / 256, 2).push((v / 256 % 256) as u8));
    assert(be(v, 4) =~= be(v / 256, 3).push((v % 256) as u8));
}

proof fn lemma_low_word(v: nat)
    ensures
        ({
            let w = v % 0x1_0000_0000;
            &&& w % 256 == v % 256
            &&& w / 0x100 % 256 == v / 256 % 256
            &&& w / 0x1_0000 % 256 == v / 256 / 256 % 256
            &&& w / 0x100_0000 % 256 == v / 256 / 256 / 256 % 256
            &&& v / 256 / 256 / 256 / 256 == v / 0x1_0000_0000
        }),
{
    let q = v / 0x1_0000_0000;
    let w = v % 0x1_0000_0000;
    assert(v == q * 0x1_0000_0000 + w);
    assert(v / 256 == q * 0x100_0000 + w / 256);
    assert(v / 256 / 256 == q * 0x1_0000 + w / 0x1_0000);
    assert(v / 256 / 256 / 256 == q * 0x100 + w / 0x100_0000);
}

proof fn lemma_be_push(v: nat, width: nat)
    requires
        width > 0,
    ensures
        be(v, width) == be(v / 256, (width - 1) as nat).push((v % 256) as u8),
{
}

proof fn lemma_be_8(v: nat)
    ensures
        be(v, 8) == be(v / 0x1_0000_0000, 4) + be(v % 0x1_0000_0000, 4),
{
    let high = be(v / 0x1_0000_0000, 4);
    let w = v % 0x1_0000_0000;
    lemma_low_word(v);
    lemma_be_4(w);
    lemma_be_push(v, 8);
    lemma_be_push(v / 256, 7);
    lemma_be_push(v / 256 / 256, 6);
    lemma_be_push(v / 256 / 256 / 256, 5);
    let a = (v / 256 / 256 / 256 % 256) as u8;
    let b = (v / 256 / 256 % 256) as u8;
    let c = (v / 256 % 256) as u8;
    let d = (v % 256) as u8;
    assert(be(w, 4) == seq![a, b, c, d]);
    assert(be(v, 8) == high.push(a).push(b).push(c).push(d));
    assert(high.push(a).push(b).push(c).push(d) =~= high + seq![a, b, c, d]);
}

pub fn put_u8(bytes: &mut Vec<u8>, value: u8)
    ensures
        final(bytes)@ == old(bytes)@ + be(value as nat, 1),
{
    bytes.push(value);
    proof {
        lemma_be_1(value as nat);
        assert(bytes@ =~= old(bytes)@ + be(value as nat, 1));
    }
}

pub fn put_u16(bytes: &mut Vec<u8>, value: u16)
    ensures
        final(bytes)@ == old(bytes)@ + be(value as nat, 2),
{
    bytes.push((value / 256) as u8);
    bytes.push((value % 256) as u8);
    proof {
        lemma_be_2(value as nat);
        assert(bytes@ =~= old(bytes)@ + be(value as nat, 2));
    }
}

pub fn put_u32(bytes: &mut Vec<u8>, value: u32)
    ensures
        final(bytes)@ == old(bytes)@ + be(value as nat, 4),
{
    bytes.push((value / 0x100_0000) as u8);
    bytes.push((value / 0x1_0000 % 256) as u8);
    bytes.push((value / 0x100 % 256) as u8);
    bytes.push((value % 256) as u8);
    proof {
        lemma_be_4(value as nat);
        assert(bytes@ =~= old(bytes)@ + be(value as nat, 4));
    }
}

pub fn put_u64(bytes: &mut Vec<u8>, value: u64)
    ensures
        final(bytes)@ == old(bytes)@ + be(value as nat, 8),
{
    put_u32(bytes, (value / 0x1_0000_0000) as u32);
    put_u32(bytes, (value % 0x1_0000_0000) as u32);
    proof {
        lemma_be_8(value as nat);
        assert(bytes@ =~= old(bytes)@ + be(value as nat, 8));
    }
}

/// The unsigned number with the same 32 bits.
pub open spec fn bits32(value: i32) -> nat {
    if value >= 0 {
        value as nat
    } else {
        (value + 0x1_0000_0000) as nat
    }
}

/// The unsigned number with the same 64 bits.
pub open spec fn bits64(value: i64) -> nat {
    if value >= 0 {
        value as nat
    } else {
        (value + 0x1_0000_0000_0000_0000) as nat
    }
}

/// The signed number with the same 32 bits.
pub open spec fn signed32(bits: u32) -> i32 {
    if bits < 0x8000_0000 {
        bits as i32
    } else {
        (bits - 0x1_0000_0000) as i32
    }
}

/// The signed number with the same 64 bits.
pub open spec fn signed64(bits: u64) -> i64 {
    if bits < 0x8000_0000_0000_0000 {
        bits as i64
    } else {
        (bits - 0x1_0000_0000_0000_0000) as i64
    }
}

pub fn put_i32(bytes: &mut Vec<u8>, value: i32)
    ensures
        final(bytes)@ == old(bytes)@ + be(bits32(value), 4),
{
    let wide: i64 = if value >= 0 {
        value as i64
    } else {
        value as i64 + 0x1_0000_0000
    };
    put_u32(bytes, wide as u32);
}

pub fn put_i64(bytes: &mut Vec<u8>, value: i64)
    ensures
        final(bytes)@ == old(bytes)@ + be(bits64(value), 8),
{
    let wide: i128 = if value >= 0 {
        value as i128
    } else {
        value as i128 + 0x1_0000_0000_0000_0000
    };
    put_u64(bytes, wide as u64);
}

pub fn to_signed32(bits: u32) -> (value: i32)
    ensures
        value == signed32(bits),
{
    if bits < 0x8000_0000 {
        bits as i32
    } else {
        let wide: i64 = bits as i64 - 0x1_0000_0000;
        wide as i32
    }
}

pub fn to_signed64(bits: u64) -> (value: i64)
    ensures
        value == signed64(bits),
{
    if bits < 0x8000_0000_0000_0000 {
        bits as i64
    } else {
        let wide: i128 = bits as i128 - 0x1_0000_0000_0000_0000;
        wide as i64
    }
}

/// A flag as one byte.
pub open spec fn flag_bytes(flag: bool) -> Seq<u8> {
    be(if flag { 1 } else { 0 }, 1)
}

pub fn put_flag(bytes: &mut Vec<u8>, flag: bool)
    ensures
        final(bytes)@ == old(bytes)@ + flag_bytes(flag),
{
    if flag {
        put_u8(bytes, 1);
    } else {
        put_u8(bytes, 0);
    }
}

/// Appends a slice.
pub fn put_slice(bytes: &mut Vec<u8>, value: &[u8])
    ensures
        final(bytes)@ == old(bytes)@ + value@,
{
    bytes.extend_from_slice(value);
    proof {
        assert(bytes@ =~= old(bytes)@ + value@);
    }
}

/// The number of bytes in the UTF-8 form of a text.
pub fn byte_len(text: &str) -> (n: usize)
    ensures
        n == encode_utf8(text@).len(),
{
    text.as_bytes().len()
}

/// Copies a slice into a vector.
pub fn to_vec(value: &[u8]) -> (copy: Vec<u8>)
    ensures
        copy@ == value@,
{
    let mut copy: Vec<u8> = Vec::new();
    put_slice(&mut copy, value);
    proof {
        assert(copy@ =~= value@);
    }
    copy
}

/// The text with which `String::from_utf8` refuses bytes that are not UTF-8.
pub uninterp spec fn utf8_refusal(bytes: Seq<u8>) -> Seq<char>;

/// `String::from_utf8` accepts exactly the valid UTF-8 sequences and keeps their characters.
/// What its error says of any other sequence is not described here, only named.
#[verifier::external_body]
pub(crate) fn utf8_text(bytes: Vec<u8>) -> (r: Result<String, String>)
    ensures
        match r {
            Ok(text) => valid_utf8(bytes@) && text@ == decode_utf8(bytes@),
            Err(message) => !valid_utf8(bytes@) && message@ == utf8_refusal(bytes@),
        },
{
    match String::from_utf8(bytes) {
        Ok(text) => Ok(text),
        Err(error) => Err(format!("{error}")),
    }
}

/// A prefix of `count` bytes and what follows it, where there are that many.
pub open spec fn split(bytes: Seq<u8>, count: nat) -> Option<(Seq<u8>, Seq<u8>)> {
    if count <= bytes.len() {
        Some((bytes.subrange(0, count as int), bytes.subrange(count as int, bytes.len() as int)))
    } else {
        None
    }
}

/// The number in the first `width` bytes and what follows them.
pub open spec fn split_number(bytes: Seq<u8>, width: nat) -> Option<(nat, Seq<u8>)> {
    match split(bytes, width) {
        Some((head, rest)) => Some((from_be(head), rest)),
        None => None,
    }
}

/// Reading back a number that was written in front of other bytes.
pub proof fn lemma_split_number(value: nat, width: nat, rest: Seq<u8>)
    requires
        value < pow256(width),
    ensures
        split_number(be(value, width) + rest, width) == Some((value, rest)),
{
    lemma_be(value, width);
    let bytes = be(value, width) + rest;
    assert(bytes.subrange(0, width as int) =~= be(value, width));
    assert(bytes.subrange(width as int, bytes.len() as int) =~= rest);
}

/// A number that was read stood in front of the rest.
pub proof fn lemma_number_read(bytes: Seq<u8>, width: nat)
    requires
        split_number(bytes, width) is Some,
    ensures
        ({
            let (value, rest) = split_number(bytes, width)->0;
            value < pow256(width) && bytes == be(value, width) + rest
        }),
{
    let head = bytes.subrange(0, width as int);
    lemma_from_be(head);
    let rest = bytes.subrange(width as int, bytes.len() as int);
    assert(bytes =~= head + rest);
}

/// Splitting off bytes that were written in front.
pub proof fn lemma_split(head: Seq<u8>, rest: Seq<u8>)
    ensures
        split(head + rest, head.len()) == Some((head, rest)),
{
    let bytes = head + rest;
    assert(bytes.subrange(0, head.len() as int) =~= head);
    assert(bytes.subrange(head.len() as int, bytes.len() as int) =~= rest);
}

/// Concatenation may be regrouped from the left to the right.
pub proof fn lemma_cat2(a: Seq<u8>, b: Seq<u8>, z: Seq<u8>)
    ensures
        a + b + z == a + (b + z),
{
    assert(a + b + z =~= a + (b + z));
}

pub proof fn lemma_cat3(a: Seq<u8>, b: Seq<u8>, c: Seq<u8>, z: Seq<u8>)
    ensures
        a + b + c + z == a + (b + (c + z)),
{
    lemma_cat2(a, b, c + z);
    assert(a + b + c + z =~= (a + b) + (c + z));
}

pub proof fn lemma_cat4(a: Seq<u8>, b: Seq<u8>, c: Seq<u8>, d: Seq<u8>, z: Seq<u8>)
    ensures
        a + b + c + d + z == a + (b + (c + (d + z))),
{
    lemma_cat3(a, b, c, d + z);
    assert(a + b + c + d + z =~= (a + b + c) + (d + z));
}

pub proof fn lemma_cat5(a: Seq<u8>, b: Seq<u8>, c: Seq<u8>, d: Seq<u8>, e: Seq<u8>, z: Seq<u8>)
    ensures
        a + b + c + d + e + z == a + (b + (c + (d + (e + z)))),
{
    lemma_cat4(a, b, c, d, e + z);
    assert(a + b + c + d + e + z =~= (a + b + c + d) + (e + z));
}

pub proof fn lemma_cat6(a: Seq<u8>, b: Seq<u8>, c: Seq<u8>, d: Seq<u8>, e: Seq<u8>, f: Seq<u8>, z: Seq<u8>)
    ensures
        a + b + c + d + e + f + z == a + (b + (c + (d + (e + (f + z))))),
{
    lemma_cat5(a, b, c, d, e, f + z);
    assert(a + b + c + d + e + f + z =~= (a + b + c + d + e) + (f + z));
}

pub proof fn lemma_cat7(a: Seq<u8>, b: Seq<u8>, c: Seq<u8>, d: Seq<u8>, e: Seq<u8>, f: Seq<u8>, g: Seq<u8>, z: Seq<u8>)
    ensures
        a + b + c + d + e + f + g + z == a + (b + (c + (d + (e + (f + (g + z)))))),
{
    lemma_cat6(a, b, c, d, e, f, g + z);
    assert(a + b + c + d + e + f + g + z =~= (a + b + c + d + e + f) + (g + z));
}

pub proof fn lemma_cat_empty(bytes: Seq<u8>)
    ensures
        bytes + Seq::<u8>::empty() == bytes,
{
    assert(bytes + Seq::<u8>::empty() =~= bytes);
}

pub proof fn lemma_empty_cat(bytes: Seq<u8>)
    ensures
        Seq::<u8>::empty() + bytes == bytes,
{
    assert(Seq::<u8>::empty() + bytes =~= bytes);
}

/// Consumes a byte slice from its front.
pub struct Reader<'a> {
    pub rest: &'a [u8],
}

impl<'a> View for Reader<'a> {
    type V = Seq<u8>;

    open spec fn view(&self) -> Seq<u8> {
        self.rest@
    }
}

impl<'a> Reader<'a> {
    pub fn new(bytes: &'a [u8]) -> (reader: Self)
        ensures
            reader@ == bytes@,
    {
        Reader { rest: bytes }
    }

    /// Takes the next `count` bytes; leaves the reader alone where there are fewer.
    pub fn take(&mut self, count: usize) -> (r: Option<&'a [u8]>)
        ensures
            match r {
                Some(head) => split(old(self)@, count as nat) == Some((head@, final(self)@)),
                None => split(old(self)@, count as nat) is None && final(self)@ == old(self)@,
            },
    {
        if count <= self.rest.len() {
            let (head, rest) = self.rest.split_at(count);
            self.rest = rest;
            Some(head)
        } else {
            None
        }
    }

    pub fn u8(&mut self) -> (r: Option<u8>)
        ensures
            match r {
                Some(value) => split_number(old(self)@, 1) == Some((value as nat, final(self)@)),
                None => split_number(old(self)@, 1) is None,
            },
    {
        match self.take(1) {
            Some(head) => {
                proof {
                    lemma_from_be(head@);
                    reveal_with_fuel(from_be, 2);
                }
                Some(head[0])
            },
            None => None,
        }
    }

    pub fn u16(&mut self) -> (r: Option<u16>)
        ensures
            match r {
                Some(value) => split_number(old(self)@, 2) == Some((value as nat, final(self)@)),
                None => split_number(old(self)@, 2) is None,
            },
    {
        match self.take(2) {
            Some(head) => {
                proof {
                    reveal_with_fuel(from_be, 3);
                }
                Some(head[0] as u16 * 256 + head[1] as u16)
            },
            None => None,
        }
    }

    pub fn u32(&mut self) -> (r: Option<u32>)
        ensures
            match r {
                Some(value) => split_number(old(self)@, 4) == Some((value as nat, final(self)@)),
                None => split_number(old(self)@, 4) is None,
            },
    {
        match self.take(4) {
            Some(head) => {
                proof {
                    reveal_with_fuel(from_be, 5);
                }
                Some(
                    head[0] as u32 * 0x100_0000 + head[1] as u32 * 0x1_0000 + head[2] as u32 * 0x100
                        + head[3] as u32,
                )
            },
            None => None,
        }
    }

    pub fn u64(&mut self) -> (r: Option<u64>)
        ensures
            match r {
                Some(value) => split_number(old(self)@, 8) == Some((value as nat, final(self)@)),
                None => split_number(old(self)@, 8) is None,
            },
    {
        match self.take(8) {
            Some(head) => {
                proof {
                    reveal_with_fuel(from_be, 9);
                }
                let high: u64 = head[0] as u64 * 0x100_0000 + head[1] as u64 * 0x1_0000
                    + head[2] as u64 * 0x100 + head[3] as u64;
                let low: u64 = head[4] as u64 * 0x100_0000 + head[5] as u64 * 0x1_0000
                    + head[6] as u64 * 0x100 + head[7] as u64;
                Some(high * 0x1_0000_0000 + low)
            },
            None => None,
        }
    }

    pub fn is_empty(&self) -> (b: bool)
        ensures
            b == (self@.len() == 0),
    {
        self.rest.len() == 0
    }
}

} // verus!
