use vstd::prelude::*;

verus! {

/// A 32-byte public key: the identity of an owner, a program or an account.
#[derive(Clone, Copy, Debug, Eq)]
pub struct Pubkey {
    pub bytes: [u8; 32],
}

impl View for Pubkey {
    type V = Seq<u8>;

    open spec fn view(&self) -> Seq<u8> {
        self.bytes@
    }
}

impl PartialEq for Pubkey {
    fn eq(&self, other: &Pubkey) -> (r: bool) {
        let mut i: usize = 0;
        while i < 32
            invariant
                i <= 32,
                forall|j: int| 0 <= j < i ==> self.bytes@[j] == other.bytes@[j],
            decreases 32 - i,
        {
            if self.bytes[i] != other.bytes[i] {
                return false;
            }
            i += 1;
        }
        assert(self.bytes =~= other.bytes);
        true
    }
}

impl vstd::std_specs::cmp::PartialEqSpecImpl for Pubkey {
    open spec fn obeys_eq_spec() -> bool {
        true
    }

    open spec fn eq_spec(&self, other: &Pubkey) -> bool {
        *self == *other
    }
}

impl Pubkey {
    /// The key made of exactly these bytes.
    pub fn new_from_array(bytes: [u8; 32]) -> (r: Pubkey)
        ensures
            r.bytes == bytes,
    {
        Pubkey { bytes }
    }

    /// The 32 bytes of the key, in order.
    pub fn to_vec(&self) -> (r: Vec<u8>)
        ensures
            r@ == self@,
    {
        let mut out: Vec<u8> = Vec::with_capacity(32);
        let mut i: usize = 0;
        while i < 32
            invariant
                i <= 32,
                out@ == self@.subrange(0, i as int),
            decreases 32 - i,
        {
            out.push(self.bytes[i]);
            i += 1;
        }
        out
    }

    /// The key held in the 32 bytes of `bytes` that start at `at`.
    pub(crate) fn read(bytes: &[u8], at: usize) -> (r: Pubkey)
        requires
            at + 32 <= bytes@.len(),
        ensures
            r@ == bytes@.subrange(at as int, at + 32),
    {
        let len: usize = bytes.len();
        let mut key: [u8; 32] = [0u8; 32];
        let mut i: usize = 0;
        while i < 32
            invariant
                i <= 32,
                len == bytes@.len(),
                at + 32 <= len,
                forall|j: int| 0 <= j < i ==> key@[j] == bytes@[at + j],
            decreases 32 - i,
        {
            key[i] = bytes[at + i];
            i += 1;
        }
        assert(key@ =~= bytes@.subrange(at as int, at + 32));
        Pubkey { bytes: key }
    }

    /// Every string of 32 bytes is some key.
    pub proof fn lemma_key_of(bytes: Seq<u8>) -> (key: Pubkey)
        requires
            bytes.len() == 32,
        ensures
            key@ == bytes,
    {
        let key = Pubkey { bytes: array_of(bytes, 32) };
        lemma_array_of(bytes, 32);
        assert(key@ =~= bytes);
        key
    }

    /// Two keys are the same key exactly when they hold the same bytes.
    pub proof fn lemma_eq_by_view(a: Pubkey, b: Pubkey)
        ensures
            (a == b) <==> (a@ == b@),
    {
        if a@ == b@ {
            assert(a.bytes =~= b.bytes);
        }
    }
}

/// An array whose first `n` bytes are those of `bytes`.
spec fn array_of(bytes: Seq<u8>, n: nat) -> [u8; 32]
    decreases n,
{
    if n == 0 {
        arbitrary()
    } else {
        vstd::array::spec_array_update(array_of(bytes, (n - 1) as nat), n - 1, bytes[n - 1])
    }
}

proof fn lemma_array_of(bytes: Seq<u8>, n: nat)
    requires
        n <= 32,
    ensures
        forall|j: int| 0 <= j < n ==> array_of(bytes, n)@[j] == bytes[j],
    decreases n,
{
    if n > 0 {
        lemma_array_of(bytes, (n - 1) as nat);
    }
}

/// What `solana_program::pubkey::Pubkey::try_find_program_address` finds
/// for a program-derived address: from the seeds and the program's key to the
/// first address found off the curve and the bump seed that gave it, or to
/// nothing where no bump seed gives one or the seeds are refused.
pub uninterp spec fn program_address(seeds: Seq<Seq<u8>>, program_id: Seq<u8>) -> Option<
    (Seq<u8>, u8),
>;

/// What `solana_program::pubkey::Pubkey::is_on_curve` tells of the key with
/// these bytes: whether they are a point of the ed25519 curve, and so can be
/// the public key of a signing key.
pub uninterp spec fn on_curve(key: Seq<u8>) -> bool;

/// A derived address and its bump seed, as plain bytes.
pub open spec fn derivation_view(derived: Option<(Pubkey, u8)>) -> Option<(Seq<u8>, u8)> {
    match derived {
        Some((address, bump)) => Some((address@, bump)),
        None => None,
    }
}

/// The bytes of each seed, in order.
pub open spec fn seeds_view(seeds: Seq<Vec<u8>>) -> Seq<Seq<u8>> {
    seeds.map_values(|seed: Vec<u8>| seed@)
}

/// Calls `solana_program::pubkey::Pubkey::try_find_program_address`.
/// The contract claims that the outcome is a function of the seeds' bytes and
/// the program's key, so that the same input gives the same address and bump
/// seed, or the same refusal, on every call; and that an address that comes
/// back is off the curve, which is the test that the search puts every
/// candidate to.
#[verifier::external_body]
pub(crate) fn try_find_program_address(seeds: &Vec<Vec<u8>>, program_id: &Pubkey) -> (r: Option<
    (Pubkey, u8),
>)
    ensures
        derivation_view(r) == program_address(seeds_view(seeds@), program_id@),
        r matches Some((address, _)) ==> !on_curve(address@),
{
    let seeds: Vec<&[u8]> = seeds.iter().map(|seed| seed.as_slice()).collect();
    let program_id = solana_program::pubkey::Pubkey::new_from_array(program_id.bytes);
    solana_program::pubkey::Pubkey::try_find_program_address(&seeds, &program_id)
        .map(|(address, bump)| (Pubkey { bytes: address.to_bytes() }, bump))
}

} // verus!
