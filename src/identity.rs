//! 32-byte principals and program-derived record addresses.
use anchor_lang::solana_program::pubkey::Pubkey;
use vstd::prelude::*;

verus! {

/// A 32-byte principal: a signer, a pool or a record key.
#[derive(Clone, Copy, Debug)]
pub struct Identity {
    pub bytes: [u8; 32],
}

impl View for Identity {
    type V = Seq<u8>;

    open spec fn view(&self) -> Seq<u8> {
        self.bytes@
    }
}

impl Identity {
    pub fn new(bytes: [u8; 32]) -> (r: Identity)
        ensures
            r.bytes == bytes,
    {
        Identity { bytes }
    }

    /// The all-zero identity, which marks a record that was never filled in.
    pub fn zero() -> (r: Identity)
        ensures
            r@ == Seq::new(32, |i: int| 0u8),
    {
        let r = Identity { bytes: [0u8; 32] };
        assert(r@ =~= Seq::new(32, |i: int| 0u8));
        r
    }

    pub fn to_vec(&self) -> (r: Vec<u8>)
        ensures
            r@ == self@,
    {
        vstd::slice::slice_to_vec(self.bytes.as_slice())
    }
}

impl PartialEq for Identity {
    fn eq(&self, other: &Identity) -> (r: bool) {
        let mut i: usize = 0;
        while i < 32
            invariant
                0 <= i <= 32,
                self@.len() == 32,
                other@.len() == 32,
                forall|j: int| 0 <= j < i ==> self@[j] == other@[j],
            decreases 32 - i,
        {
            if self.bytes[i] != other.bytes[i] {
                return false;
            }
            i = i + 1;
        }
        assert(self@ =~= other@);
        true
    }
}

impl vstd::std_specs::cmp::PartialEqSpecImpl for Identity {
    open spec fn obeys_eq_spec() -> bool {
        true
    }

    open spec fn eq_spec(&self, other: &Identity) -> bool {
        self@ == other@
    }
}

/// Most seeds an address derivation takes, the bump seed included.
pub const MAX_SEEDS: usize = 16;

/// Longest seed an address derivation takes.
pub const MAX_SEED_LEN: usize = 32;

/// The address that the runtime derives for a program and a list of seeds,
/// or none when no bump seed gives a valid address.
pub uninterp spec fn program_address(seeds: Seq<Seq<u8>>, program: Seq<u8>) -> Option<Seq<u8>>;

pub open spec fn seeds_view(seeds: Seq<Vec<u8>>) -> Seq<Seq<u8>> {
    seeds.map_values(|s: Vec<u8>| s@)
}

/// Relies on `Pubkey::try_find_program_address`: the address derived from the
/// seeds and the program id (the bump seed found is dropped), a function of
/// those arguments alone; `None` where no bump seed works. Called only within
/// the seed limits, one place being kept for the bump seed.
#[verifier::external_body]
pub(crate) fn find_program_address(seeds: &Vec<Vec<u8>>, program: &Identity) -> (r: Option<Identity>)
    requires
        seeds@.len() < MAX_SEEDS,
        forall|i: int| 0 <= i < seeds@.len() ==> #[trigger] seeds@[i]@.len() <= MAX_SEED_LEN,
    ensures
        program_address(seeds_view(seeds@), program@) == match r {
            Some(a) => Some(a@),
            None => None::<Seq<u8>>,
        },
{
    let parts: Vec<&[u8]> = seeds.iter().map(|s| s.as_slice()).collect();
    let program_id = Pubkey::new_from_array(program.bytes);
    Pubkey::try_find_program_address(&parts, &program_id).map(|found| Identity { bytes: found.0.to_bytes() })
}

} // verus!
