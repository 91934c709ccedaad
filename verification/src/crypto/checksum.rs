use vstd::prelude::*;

use crate::crypto::hash;
use crate::ser::ByteSink;

verus! {

/// The sum of the bytes, as a number without bound.
pub open spec fn byte_sum(bytes: Seq<u8>) -> nat
    decreases bytes.len(),
{
    if bytes.len() == 0 {
        0
    } else {
        byte_sum(bytes.drop_last()) + bytes.last() as nat
    }
}

/// The additive checksum of the format: the sum of the bytes modulo 65536.
pub open spec fn additive_checksum(bytes: Seq<u8>) -> u16 {
    (byte_sum(bytes) % 65536) as u16
}

/// The two bytes of a 16-bit number, the more significant one first.
pub open spec fn be16(x: u16) -> Seq<u8> {
    seq![(x / 256) as u8, (x % 256) as u8]
}

/// The sum of a concatenation is the sum of the sums.
pub proof fn lemma_byte_sum_concat(a: Seq<u8>, b: Seq<u8>)
    ensures
        byte_sum(a + b) == byte_sum(a) + byte_sum(b),
    decreases b.len(),
{
    if b.len() == 0 {
        assert(a + b =~= a);
    } else {
        assert((a + b).drop_last() =~= a + b.drop_last());
        lemma_byte_sum_concat(a, b.drop_last());
    }
}

/// The additive checksum notices every change of a single byte: two byte
/// strings that differ in exactly one place never have the same checksum.
pub proof fn lemma_additive_checksum_detects_one_byte(bytes: Seq<u8>, i: int, b: u8)
    requires
        0 <= i < bytes.len(),
        bytes[i] != b,
    ensures
        additive_checksum(bytes.update(i, b)) != additive_checksum(bytes),
{
    let head = bytes.take(i);
    let tail = bytes.skip(i + 1);
    assert(bytes =~= head + seq![bytes[i]] + tail);
    assert(bytes.update(i, b) =~= head + seq![b] + tail);
    lemma_byte_sum_concat(head + seq![bytes[i]], tail);
    lemma_byte_sum_concat(head, seq![bytes[i]]);
    lemma_byte_sum_concat(head + seq![b], tail);
    lemma_byte_sum_concat(head, seq![b]);
    assert(byte_sum(seq![b]) == b as nat) by {
        reveal_with_fuel(byte_sum, 2);
        assert(seq![b].drop_last() =~= Seq::<u8>::empty());
    }
    assert(byte_sum(seq![bytes[i]]) == bytes[i] as nat) by {
        reveal_with_fuel(byte_sum, 2);
        assert(seq![bytes[i]].drop_last() =~= Seq::<u8>::empty());
    }
    let rest = byte_sum(head) + byte_sum(tail);
    assert(byte_sum(bytes) == rest + bytes[i] as nat);
    assert(byte_sum(bytes.update(i, b)) == rest + b as nat);
    assert((rest + b as nat) % 65536 != (rest + bytes[i] as nat) % 65536) by {
        let x = rest + b as nat;
        let y = rest + bytes[i] as nat;
        if x % 65536 == y % 65536 {
            vstd::arithmetic::div_mod::lemma_fundamental_div_mod(x as int, 65536);
            vstd::arithmetic::div_mod::lemma_fundamental_div_mod(y as int, 65536);
            assert(x - y == 65536 * (x as int / 65536 - y as int / 65536)) by (nonlinear_arith)
                requires
                    x as int == 65536 * (x as int / 65536) + x as int % 65536,
                    y as int == 65536 * (y as int / 65536) + y as int % 65536,
                    x as int % 65536 == y as int % 65536,
            ;
            let k = x as int / 65536 - y as int / 65536;
            assert(-255 <= x - y <= 255);
            assert(k == 0) by (nonlinear_arith)
                requires
                    -255 <= 65536 * k <= 255,
            ;
        }
    }
}

/// The running additive checksum of all bytes written to it.
pub struct SimpleChecksum {
    sum: u16,
    seen: Ghost<Seq<u8>>,
}

impl SimpleChecksum {
    #[verifier::type_invariant]
    spec fn sum_of_seen(self) -> bool {
        self.sum == additive_checksum(self.seen@)
    }

    /// A checksum that has seen nothing yet.
    pub fn new() -> (c: SimpleChecksum)
        ensures
            c.written() == Seq::<u8>::empty(),
    {
        SimpleChecksum { sum: 0, seen: Ghost(Seq::empty()) }
    }

    /// The checksum of what was written, as it stands on the wire: two
    /// bytes, the more significant one first.
    pub fn finalize(&self) -> (out: [u8; 2])
        ensures
            out@ == be16(additive_checksum(self.written())),
    {
        proof {
            use_type_invariant(self);
        }
        let out = [(self.sum / 256) as u8, (self.sum % 256) as u8];
        assert(out@ =~= be16(additive_checksum(self.written())));
        out
    }

    /// Writes the checksum's two bytes to `writer`.
    pub fn to_writer<W: ByteSink>(&self, writer: &mut W)
        ensures
            final(writer).written() == old(writer).written() + be16(
                additive_checksum(self.written()),
            ),
    {
        let bytes = self.finalize();
        writer.write_all(bytes.as_slice());
    }
}

impl Default for SimpleChecksum {
    fn default() -> (c: SimpleChecksum)
        ensures
            c.written() == Seq::<u8>::empty(),
    {
        SimpleChecksum::new()
    }
}

impl ByteSink for SimpleChecksum {
    closed spec fn written(&self) -> Seq<u8> {
        self.seen@
    }

    fn write_all(&mut self, buf: &[u8]) {
        proof {
            use_type_invariant(&*self);
        }
        let mut sum: u16 = self.sum;
        let mut i: usize = 0;
        while i < buf.len()
            invariant
                i <= buf.len(),
                sum == additive_checksum(old(self).seen@ + buf@.take(i as int)),
            decreases buf.len() - i,
        {
            let wide: u32 = sum as u32 + buf[i] as u32;
            proof {
                let before = old(self).seen@ + buf@.take(i as int);
                let after = old(self).seen@ + buf@.take(i + 1);
                assert(after.drop_last() =~= before);
                assert(after.last() == buf@[i as int]);
                assert((byte_sum(before) + buf@[i as int] as nat) % 65536 == ((byte_sum(before)
                    % 65536) + buf@[i as int] as nat) % 65536) by {
                    vstd::arithmetic::div_mod::lemma_add_mod_noop(
                        byte_sum(before) as int,
                        buf@[i as int] as int,
                        65536,
                    );
                    vstd::arithmetic::div_mod::lemma_mod_twice(byte_sum(before) as int, 65536);
                    vstd::arithmetic::div_mod::lemma_add_mod_noop(
                        byte_sum(before) as int % 65536,
                        buf@[i as int] as int,
                        65536,
                    );
                }
            }
            sum = (wide % 65536) as u16;
            i += 1;
        }
        assert(buf@.take(buf.len() as int) =~= buf@);
        *self = SimpleChecksum { sum, seen: Ghost(old(self).seen@ + buf@) };
    }
}

/// The SHA-1 digest of `data`.
pub fn calculate_sha1(data: &[u8]) -> (out: Vec<u8>)
    ensures
        out@ == hash::sha1_digest(data@),
        out@.len() == 20,
{
    hash::sha1(data)
}

} // verus!
