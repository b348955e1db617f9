use vstd::prelude::*;

verus! {

/// A 32-byte account identity.
#[derive(Clone, Copy, Debug, PartialEq, Eq)]
pub struct Pubkey {
    pub bytes: [u8; 32],
}

impl View for Pubkey {
    type V = Seq<u8>;

    open spec fn view(&self) -> Seq<u8> {
        self.bytes@
    }
}

/// The default (all-zero) identity, which marks an unset field.
pub open spec fn default_key() -> Seq<u8> {
    Seq::new(32, |i: int| 0u8)
}

pub open spec fn key_option_view(k: Option<Pubkey>) -> Option<Seq<u8>> {
    match k {
        Some(k) => Some(k@),
        None => None,
    }
}

pub open spec fn seed_views(seeds: Seq<Vec<u8>>) -> Seq<Seq<u8>> {
    seeds.map_values(|s: Vec<u8>| s@)
}

/// The program-derived address of `seeds` under `program_id`, or `None` where
/// no such address exists.
pub uninterp spec fn program_address_of(seeds: Seq<Seq<u8>>, program_id: Seq<u8>) -> Option<Seq<u8>>;

/// Relies on anchor_lang's `Pubkey::create_program_address`: a deterministic
/// function of the seeds and the program id, which fails on seeds that are too
/// many or too long and on hashes that lie on the curve.
#[verifier::external_body]
fn create_program_address(seeds: &Vec<Vec<u8>>, program_id: &Pubkey) -> (r: Option<Pubkey>)
    ensures
        key_option_view(r) == program_address_of(seed_views(seeds@), program_id@),
{
    let slices: Vec<&[u8]> = seeds.iter().map(|s| s.as_slice()).collect();
    let id = anchor_lang::prelude::Pubkey::new_from_array(program_id.bytes);
    match anchor_lang::prelude::Pubkey::create_program_address(&slices, &id) {
        Ok(k) => Some(Pubkey { bytes: k.to_bytes() }),
        Err(_) => None,
    }
}

/// The namespace tag of referrer token state addresses: `b"referrer_acc"`.
pub open spec fn referrer_seed_tag() -> Seq<u8> {
    seq![114u8, 101u8, 102u8, 101u8, 114u8, 114u8, 101u8, 114u8, 95u8, 97u8, 99u8, 99u8]
}

/// The address a referrer token state with the given referrer, reserve and bump
/// must have, or `None` where the bump is not a byte or no address exists.
pub open spec fn referrer_token_state_address_spec(
    program_id: Seq<u8>,
    referrer: Seq<u8>,
    reserve: Seq<u8>,
    bump: u64,
) -> Option<Seq<u8>> {
    if bump > 255 {
        None
    } else {
        program_address_of(seq![referrer_seed_tag(), referrer, reserve, seq![bump as u8]], program_id)
    }
}

impl Pubkey {
    pub fn new_from_array(bytes: [u8; 32]) -> (r: Pubkey)
        ensures
            r@ == bytes@,
    {
        Pubkey { bytes }
    }

    /// Whether the two identities are the same.
    pub fn key_eq(&self, other: &Pubkey) -> (r: bool)
        ensures
            r == (self@ == other@),
    {
        let mut i: usize = 0;
        while i < 32
            invariant
                0 <= i <= 32,
                self@.len() == 32,
                other@.len() == 32,
                forall|j: int| 0 <= j < i ==> self@[j] == other@[j],
            decreases 32 - i,
        {
            if self.bytes[i] != other.bytes[i] {
                return false;
            }
            i = i + 1;
        }
        assert(self@ =~= other@);
        true
    }

    /// Whether this is the default (unset) identity.
    pub fn is_default(&self) -> (r: bool)
        ensures
            r == (self@ == default_key()),
    {
        let mut i: usize = 0;
        while i < 32
            invariant
                0 <= i <= 32,
                self@.len() == 32,
                forall|j: int| 0 <= j < i ==> self@[j] == 0u8,
            decreases 32 - i,
        {
            if self.bytes[i] != 0 {
                assert(self@[i as int] != default_key()[i as int]);
                return false;
            }
            i = i + 1;
        }
        assert(self@ =~= default_key());
        true
    }

    /// The identity's bytes.
    pub fn to_vec(&self) -> (r: Vec<u8>)
        ensures
            r@ == self@,
    {
        let mut r: Vec<u8> = Vec::new();
        let mut i: usize = 0;
        while i < 32
            invariant
                0 <= i <= 32,
                self@.len() == 32,
                r@ == self@.subrange(0, i as int),
            decreases 32 - i,
        {
            r.push(self.bytes[i]);
            i = i + 1;
            assert(r@ =~= self@.subrange(0, i as int));
        }
        assert(r@ =~= self@);
        r
    }
}

fn referrer_seed_tag_bytes() -> (r: Vec<u8>)
    ensures
        r@ == referrer_seed_tag(),
{
    let r: Vec<u8> = vec![114u8, 101u8, 102u8, 101u8, 114u8, 114u8, 101u8, 114u8, 95u8, 97u8, 99u8, 99u8];
    assert(r@ =~= referrer_seed_tag());
    r
}

/// Recomputes the address of the referrer token state of `referrer` for the
/// reserve `reserve_key`, from the state's stored bump.
pub fn referrer_token_state_address(
    program_id: &Pubkey,
    referrer: &Pubkey,
    reserve_key: &Pubkey,
    bump: u64,
) -> (r: Option<Pubkey>)
    ensures
        key_option_view(r) == referrer_token_state_address_spec(program_id@, referrer@, reserve_key@, bump),
{
    if bump > 255 {
        return None;
    }
    let mut seeds: Vec<Vec<u8>> = Vec::new();
    seeds.push(referrer_seed_tag_bytes());
    seeds.push(referrer.to_vec());
    seeds.push(reserve_key.to_vec());
    let mut b: Vec<u8> = Vec::new();
    b.push(bump as u8);
    seeds.push(b);
    assert(seed_views(seeds@) =~= seq![referrer_seed_tag(), referrer@, reserve_key@, seq![bump as u8]]);
    create_program_address(&seeds, program_id)
}

} // verus!
