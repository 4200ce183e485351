//! The counter program's single record.
use crate::codec::{read_u32_le, write_u32_le};
use crate::program_error::ProgramError;
use vstd::bytes::{spec_u32_from_le_bytes, spec_u32_to_le_bytes};
use vstd::prelude::*;

verus! {

/// Exact byte length of a packed counter record.
pub const HELLO_LEN: usize = 4;

/// The mathematical value of a counter record.
#[verifier::ext_equal]
pub struct HelloView {
    pub times: u32,
}

/// The counter record: how many times the slot has been greeted.
#[derive(Clone, Copy, Debug, Default, PartialEq)]
pub struct Hello {
    pub times: u32,
}

impl View for Hello {
    type V = HelloView;

    open spec fn view(&self) -> HelloView {
        HelloView { times: self.times }
    }
}

/// The packed form of a counter record.
pub open spec fn spec_pack_hello(h: HelloView) -> Seq<u8> {
    spec_u32_to_le_bytes(h.times)
}

/// Strict parse of a counter record: the buffer must have exactly the fixed
/// length.
pub open spec fn spec_unpack_hello(d: Seq<u8>) -> Option<HelloView> {
    if d.len() == HELLO_LEN {
        Some(HelloView { times: spec_u32_from_le_bytes(d) })
    } else {
        None
    }
}

impl Hello {
    /// Whether the record is usable; records of this type always are.
    pub fn is_initialized(&self) -> (b: bool)
        ensures
            b,
    {
        true
    }

    /// Strict parse from a slot buffer.
    pub fn unpack_from_slice(src: &[u8]) -> (r: Result<Hello, ProgramError>)
        ensures
            match r {
                Ok(h) => spec_unpack_hello(src@) == Some(h@),
                Err(e) => spec_unpack_hello(src@) is None && e == ProgramError::InvalidAccountData,
            },
    {
        if src.len() != HELLO_LEN {
            return Err(ProgramError::InvalidAccountData);
        }
        let h = Hello { times: read_u32_le(src, 0) };
        proof {
            assert(src@.subrange(0, 4) =~= src@);
        }
        Ok(h)
    }

    /// The packed form of this record, as a fresh buffer.
    pub fn pack_to_vec(&self) -> (out: Vec<u8>)
        ensures
            out@ == spec_pack_hello(self@),
    {
        let mut out: Vec<u8> = Vec::new();
        write_u32_le(&mut out, self.times);
        proof {
            assert(out@ =~= spec_pack_hello(self@));
        }
        out
    }

    /// Overwrite a correctly sized slot buffer with this record; the codec's
    /// only write path is total on such a buffer.
    pub fn pack_into_slice(&self, dst: &mut Vec<u8>)
        requires
            old(dst)@.len() == HELLO_LEN,
        ensures
            final(dst)@ == spec_pack_hello(self@),
    {
        *dst = self.pack_to_vec();
    }

    /// Overwrite a correctly sized slot buffer with this record.
    pub fn pack(h: Hello, dst: &mut Vec<u8>) -> (r: Result<(), ProgramError>)
        ensures
            match r {
                Ok(_) => old(dst)@.len() == HELLO_LEN && final(dst)@ == spec_pack_hello(h@),
                Err(e) => old(dst)@.len() != HELLO_LEN && final(dst)@ == old(dst)@ && e
                    == ProgramError::InvalidAccountData,
            },
    {
        if dst.len() != HELLO_LEN {
            return Err(ProgramError::InvalidAccountData);
        }
        *dst = h.pack_to_vec();
        Ok(())
    }
}

/// Round trip: every counter record survives pack then unpack unchanged, and
/// its packed form has exactly the fixed length.
pub proof fn lemma_hello_round_trip(h: HelloView)
    ensures
        spec_pack_hello(h).len() == HELLO_LEN,
        spec_unpack_hello(spec_pack_hello(h)) == Some(h),
{
    vstd::bytes::lemma_auto_spec_u32_to_from_le_bytes();
    assert(spec_unpack_hello(spec_pack_hello(h))->Some_0 =~= h);
}

} // verus!
