//! Identity keys and the derived-authority key function.
use vstd::prelude::*;

verus! {

/// A 32-byte identity key: the host's name for a program, a slot or a signer.
#[derive(Clone, Copy, Debug, PartialEq, Eq)]
pub struct Pubkey {
    pub bytes: [u8; 32],
}

impl View for Pubkey {
    type V = Seq<u8>;

    open spec fn view(&self) -> Seq<u8> {
        self.bytes@
    }
}

impl Pubkey {
    /// Byte-wise equality of two keys.
    pub fn eq_key(&self, other: &Pubkey) -> (r: bool)
        ensures
            r == (self@ == other@),
    {
        let mut i: usize = 0;
        while i < 32
            invariant
                i <= 32,
                forall|j: int| 0 <= j < i ==> self.bytes@[j] == other.bytes@[j],
            decreases 32 - i,
        {
            if self.bytes[i] != other.bytes[i] {
                assert(self@[i as int] != other@[i as int]);
                return false;
            }
            i += 1;
        }
        proof {
            assert(self@ =~= other@);
        }
        true
    }

    /// Read a key out of `src` at byte offset `off`.
    pub fn read(src: &[u8], off: usize) -> (k: Pubkey)
        requires
            off + 32 <= src@.len(),
        ensures
            k@ == src@.subrange(off as int, off as int + 32),
    {
        let n: usize = src.len();
        let mut bytes = [0u8; 32];
        let mut i: usize = 0;
        while i < 32
            invariant
                i <= 32,
                off + 32 <= n == src@.len(),
                forall|j: int| 0 <= j < i ==> bytes@[j] == src@[off + j],
            decreases 32 - i,
        {
            bytes[i] = src[off + i];
            i += 1;
        }
        proof {
            assert(bytes@ =~= src@.subrange(off as int, off as int + 32));
        }
        Pubkey { bytes }
    }

    /// Append the key's 32 bytes to `out`.
    pub fn write(&self, out: &mut Vec<u8>)
        ensures
            final(out)@ == old(out)@ + self@,
    {
        let mut i: usize = 0;
        while i < 32
            invariant
                i <= 32,
                out@ == old(out)@ + self@.subrange(0, i as int),
            decreases 32 - i,
        {
            out.push(self.bytes[i]);
            proof {
                assert(old(out)@ + self@.subrange(0, i as int + 1) =~= (old(out)@
                    + self@.subrange(0, i as int)).push(self@[i as int]));
            }
            i += 1;
        }
        proof {
            assert(self@.subrange(0, 32) =~= self@);
        }
    }
}

/// The deterministic derived-authority key function: from a single 32-byte
/// seed and a program identity to either a derived key, or nothing where no
/// valid derived key exists for that pair.
pub uninterp spec fn derived_address(seed: Seq<u8>, program_id: Seq<u8>) -> Option<Seq<u8>>;

/// Relies on `solana_pubkey::Pubkey::create_program_address`: a deterministic
/// derivation from the seed bytes and the program identity, which fails
/// exactly when the derived bytes name a point on the ed25519 curve. The
/// single seed here is 32 bytes long, within the seed-length bound, so no
/// other failure can occur.
#[verifier::external_body]
fn create_program_address(seed: &Pubkey, program_id: &Pubkey) -> (r: Option<Pubkey>)
    ensures
        match r {
            Some(k) => derived_address(seed@, program_id@) == Some(k@),
            None => derived_address(seed@, program_id@) is None,
        },
{
    let s = solana_pubkey::Pubkey::new_from_array(seed.bytes);
    let p = solana_pubkey::Pubkey::new_from_array(program_id.bytes);
    match solana_pubkey::Pubkey::create_program_address(&[&s.to_bytes()[..]], &p) {
        Ok(k) => Some(Pubkey { bytes: k.to_bytes() }),
        Err(_) => None,
    }
}

/// The derived authority for a bridge descriptor: the descriptor's own key is
/// the seed, the bridging program's identity the context.
pub fn derive_authority(seed: &Pubkey, program_id: &Pubkey) -> (r: Option<Pubkey>)
    ensures
        match r {
            Some(k) => derived_address(seed@, program_id@) == Some(k@),
            None => derived_address(seed@, program_id@) is None,
        },
{
    create_program_address(seed, program_id)
}

} // verus!
