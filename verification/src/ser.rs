use vstd::prelude::*;

verus! {

/// Something that bytes are written to and that keeps them in order: a
/// buffer, a running checksum.
pub trait ByteSink {
    /// All that was written so far, first byte first.
    spec fn written(&self) -> Seq<u8>;

    /// Appends `buf`.
    fn write_all(&mut self, buf: &[u8])
        ensures
            final(self).written() == old(self).written() + buf@,
    ;
}

impl ByteSink for Vec<u8> {
    open spec fn written(&self) -> Seq<u8> {
        self@
    }

    fn write_all(&mut self, buf: &[u8]) {
        self.extend_from_slice(buf);
        assert(self@ =~= old(self)@ + buf@);
    }
}

/// A value with a wire form.
pub trait Serialize {
    /// The bytes that stand for the value on the wire.
    spec fn wire_bytes(&self) -> Seq<u8>;

    /// Writes the wire form to `writer`, after what it already holds.
    fn to_writer<W: ByteSink>(&self, writer: &mut W)
        ensures
            final(writer).written() == old(writer).written() + self.wire_bytes(),
    ;
}

/// The wire form of `value` in a buffer of its own.
pub fn to_bytes<T: Serialize>(value: &T) -> (out: Vec<u8>)
    ensures
        out@ == value.wire_bytes(),
{
    let mut out: Vec<u8> = Vec::new();
    value.to_writer(&mut out);
    assert(out@ =~= value.wire_bytes());
    out
}

} // verus!
