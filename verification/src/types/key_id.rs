use vstd::prelude::*;

use crate::errors::{Field, PgpError};

verus! {

/// The eight bytes that identify a key.
#[derive(Debug, Clone, Copy, PartialEq, Eq, Hash)]
pub struct KeyId([u8; 8]);

impl View for KeyId {
    type V = Seq<u8>;

    closed spec fn view(&self) -> Seq<u8> {
        self.0@
    }
}

impl KeyId {
    /// A key identifier has eight bytes.
    pub proof fn lemma_len(self)
        ensures
            self@.len() == 8,
    {
    }

    /// The identifier that `input` holds; `input` must be exactly eight
    /// bytes long.
    pub fn from_slice(input: &[u8]) -> (res: Result<KeyId, PgpError>)
        ensures
            input@.len() == 8 ==> (res matches Ok(id) && id@ == input@),
            input@.len() != 8 ==> res == Err::<KeyId, PgpError>(PgpError::Malformed(Field::KeyId)),
    {
        if input.len() != 8 {
            return Err(PgpError::Malformed(Field::KeyId));
        }
        let mut bytes = [0u8; 8];
        let mut i: usize = 0;
        while i < 8
            invariant
                i <= 8,
                input@.len() == 8,
                forall|j: int| 0 <= j < i ==> bytes@[j] == input@[j],
            decreases 8 - i,
        {
            bytes[i] = input[i];
            i += 1;
        }
        assert(bytes@ =~= input@);
        Ok(KeyId(bytes))
    }

    /// The identifier's bytes.
    pub fn as_ref(&self) -> (out: &[u8])
        ensures
            out@ == self@,
    {
        self.0.as_slice()
    }
}

} // verus!
