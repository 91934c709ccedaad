use vstd::prelude::*;

use crate::crypto::checksum::be16;
use crate::errors::PgpError;
use crate::ser::ByteSink;

verus! {

/// How many bits a number needs: none for zero, and one more than its
/// half needs for any other.
pub open spec fn bit_length(n: nat) -> nat
    decreases n,
{
    if n == 0 {
        0
    } else {
        1 + bit_length(n / 2)
    }
}

/// A byte needs at most eight bits, and none only if it is zero.
pub proof fn lemma_byte_bit_length(b: u8)
    ensures
        bit_length(b as nat) <= 8,
        bit_length(b as nat) == 0 <==> b == 0,
{
    reveal_with_fuel(bit_length, 10);
}

/// The bit length of a big-endian number as the format counts it: eight for
/// every byte after the first, and for the first byte the bits it needs.
pub open spec fn bit_size_of(val: Seq<u8>) -> nat {
    if val.len() == 0 {
        0
    } else {
        ((val.len() - 1) * 8 + bit_length(val[0] as nat)) as nat
    }
}

/// The bit length that the two-byte prefix of a field announces: the
/// value's bit length, cut to sixteen bits.
pub open spec fn mpi_bits(val: Seq<u8>) -> u16 {
    (bit_size_of(val) % 65536) as u16
}

/// A field on the wire: the announced bit length, then the bytes.
pub open spec fn mpi_encoding(val: Seq<u8>) -> Seq<u8> {
    be16(mpi_bits(val)) + val
}

/// The number that two bytes stand for, the more significant one first.
pub open spec fn be16_value(hi: u8, lo: u8) -> u16 {
    (hi * 256 + lo) as u16
}

/// How many bytes hold a number of that many bits.
pub open spec fn mpi_body_len(bits: u16) -> int {
    (bits + 7) / 8
}

/// Reading one field from the front of `input`: what is left and the
/// field's bytes, or how many bytes the field takes where the input ends
/// too early.
pub open spec fn parse_mpi(input: Seq<u8>) -> Result<(Seq<u8>, Seq<u8>), PgpError> {
    if input.len() < 2 {
        Err(PgpError::Incomplete(2))
    } else {
        let n = mpi_body_len(be16_value(input[0], input[1]));
        if input.len() < 2 + n {
            Err(PgpError::Incomplete((2 + n) as usize))
        } else {
            Ok((input.skip(2 + n), input.subrange(2, 2 + n)))
        }
    }
}

/// A field that reads back as it was written: it has no leading zero byte,
/// and its bit length fits the prefix.
pub open spec fn is_minimal(val: Seq<u8>) -> bool {
    &&& val.len() > 0 ==> val[0] != 0
    &&& bit_size_of(val) < 65536
}

/// A minimal field announces exactly as many bytes as it has.
pub proof fn lemma_minimal_body_len(val: Seq<u8>)
    requires
        is_minimal(val),
    ensures
        mpi_body_len(mpi_bits(val)) == val.len(),
{
    if val.len() > 0 {
        lemma_byte_bit_length(val[0]);
    }
}

/// A field that is not minimal announces another number of bytes than it
/// has.
pub proof fn lemma_not_minimal_body_len(val: Seq<u8>)
    requires
        !is_minimal(val),
    ensures
        mpi_body_len(mpi_bits(val)) != val.len(),
{
    if val.len() > 0 {
        lemma_byte_bit_length(val[0]);
    }
}

/// Writing a minimal field and reading it back gives the field, and leaves
/// what followed it.
pub proof fn lemma_parse_mpi_of_encoding(val: Seq<u8>, tail: Seq<u8>)
    requires
        is_minimal(val),
    ensures
        parse_mpi(mpi_encoding(val) + tail) == Ok::<(Seq<u8>, Seq<u8>), PgpError>((tail, val)),
{
    let input = mpi_encoding(val) + tail;
    let bits = mpi_bits(val);
    assert(input[0] == (bits / 256) as u8);
    assert(input[1] == (bits % 256) as u8);
    assert(be16_value(input[0], input[1]) == bits);
    lemma_minimal_body_len(val);
    assert(input.skip(2 + val.len() as int) =~= tail);
    assert(input.subrange(2, 2 + val.len() as int) =~= val);
}

/// A field that is not minimal does not read back as itself.
pub proof fn lemma_parse_mpi_is_not_field(val: Seq<u8>, tail: Seq<u8>)
    requires
        !is_minimal(val),
    ensures
        parse_mpi(mpi_encoding(val) + tail) matches Ok((_, read)) ==> read != val,
{
    let input = mpi_encoding(val) + tail;
    let bits = mpi_bits(val);
    assert(input[0] == (bits / 256) as u8);
    assert(input[1] == (bits % 256) as u8);
    assert(be16_value(input[0], input[1]) == bits);
    lemma_not_minimal_body_len(val);
}

/// A beginning of the input that holds the whole first field reads the same
/// field, and leaves the beginning of what the whole input leaves.
pub proof fn lemma_parse_mpi_prefix(input: Seq<u8>, keep: int)
    requires
        parse_mpi(input) is Ok,
        input.len() - parse_mpi(input)->Ok_0.0.len() <= keep <= input.len(),
    ensures
        parse_mpi(input.take(keep)) == Ok::<(Seq<u8>, Seq<u8>), PgpError>(
            (
                parse_mpi(input)->Ok_0.0.take(
                    keep - (input.len() - parse_mpi(input)->Ok_0.0.len()),
                ),
                parse_mpi(input)->Ok_0.1,
            ),
        ),
{
    let n = mpi_body_len(be16_value(input[0], input[1]));
    let short = input.take(keep);
    assert(short.skip(2 + n) =~= input.skip(2 + n).take(keep - (2 + n)));
    assert(short.subrange(2, 2 + n) =~= input.subrange(2, 2 + n));
}

/// Where a field was read, every shorter beginning of the same input that
/// cuts into the field is reported as incomplete.
pub proof fn lemma_parse_mpi_truncated(input: Seq<u8>, keep: int)
    requires
        parse_mpi(input) is Ok,
        0 <= keep < input.len() - parse_mpi(input)->Ok_0.0.len(),
    ensures
        parse_mpi(input.take(keep)) is Err,
        parse_mpi(input.take(keep))->Err_0 is Incomplete,
{
}

fn significant_bits(b: u8) -> (n: usize)
    ensures
        n == bit_length(b as nat),
{
    let mut rest: u8 = b;
    let mut n: usize = 0;
    proof {
        lemma_byte_bit_length(b);
    }
    while rest != 0
        invariant
            n <= 8,
            bit_length(b as nat) == n + bit_length(rest as nat),
            n + bit_length(rest as nat) <= 8,
        decreases rest,
    {
        rest = rest / 2;
        n += 1;
    }
    n
}

/// The bit length that the prefix of `val` announces.
pub fn announced_bits(val: &[u8]) -> (bits: u16)
    ensures
        bits == mpi_bits(val@),
{
    if val.len() == 0 {
        return 0;
    }
    let whole: usize = (val.len() - 1) % 8192;
    let top: usize = significant_bits(val[0]);
    proof {
        lemma_byte_bit_length(val[0]);
    }
    let bits: usize = whole * 8 + top;
    proof {
        let len = val@.len() as int - 1;
        let top = bit_length(val@[0] as nat) as int;
        assert((len * 8 + top) % 65536 == ((len % 8192) * 8 + top) % 65536) by {
            vstd::arithmetic::div_mod::lemma_fundamental_div_mod(len, 8192);
            let q = len / 8192;
            let r = len % 8192;
            assert(len * 8 + top == 65536 * q + (r * 8 + top)) by (nonlinear_arith)
                requires
                    len == 8192 * q + r,
            ;
            vstd::arithmetic::div_mod::lemma_mod_multiples_vanish(q, r * 8 + top, 65536);
        }
    }
    (bits % 65536) as u16
}

/// Writes `val` as one field: two bytes of bit length, then the bytes.
pub fn write_mpi<W: ByteSink>(val: &[u8], writer: &mut W)
    ensures
        final(writer).written() == old(writer).written() + mpi_encoding(val@),
{
    let bits = announced_bits(val);
    let prefix = [(bits / 256) as u8, (bits % 256) as u8];
    assert(prefix@ =~= be16(bits));
    writer.write_all(prefix.as_slice());
    writer.write_all(val);
    assert(old(writer).written() + be16(bits) + val@ =~= old(writer).written() + (be16(bits)
        + val@));
}

/// Reads one field from the front of `input`: what is left of the input,
/// and the field's bytes.
pub fn mpi<'a>(input: &'a [u8]) -> (res: Result<(&'a [u8], &'a [u8]), PgpError>)
    ensures
        match parse_mpi(input@) {
            Ok((rest, val)) => res matches Ok((r, v)) && r@ == rest && v@ == val,
            Err(e) => res matches Err(x) && x == e,
        },
{
    if input.len() < 2 {
        return Err(PgpError::Incomplete(2));
    }
    let bits: u16 = (input[0] as u16) * 256 + input[1] as u16;
    let n: usize = ((bits as usize) + 7) / 8;
    if input.len() - 2 < n {
        return Err(PgpError::Incomplete(2 + n));
    }
    let val = vstd::slice::slice_subrange(input, 2, 2 + n);
    let rest = vstd::slice::slice_subrange(input, 2 + n, input.len());
    assert(rest@ =~= input@.skip(2 + n));
    Ok((rest, val))
}

} // verus!
