//! Identities, seed tuples and the key-less addresses derived from them.
use anchor_lang::prelude::Pubkey;
use vstd::prelude::*;
use vstd::slice::slice_to_vec;
use vstd::string::StringSliceAdditionalSpecFns;

verus! {

/// A 32-byte public identity: a party, an account address or a program.
#[derive(Clone, Copy, Debug, Eq)]
pub struct Key {
    pub bytes: [u8; 32],
}

impl View for Key {
    type V = Seq<u8>;

    open spec fn view(&self) -> Seq<u8> {
        self.bytes@
    }
}

impl PartialEq for Key {
    fn eq(&self, other: &Self) -> (r: bool) {
        let mut i: usize = 0;
        while i < 32
            invariant
                i <= 32,
                forall|j: int| 0 <= j < i ==> self.bytes@[j] == other.bytes@[j],
            decreases 32 - i,
        {
            if self.bytes[i] != other.bytes[i] {
                return false;
            }
            i += 1;
        }
        assert(self.bytes =~= other.bytes);
        true
    }
}

impl vstd::std_specs::cmp::PartialEqSpecImpl for Key {
    open spec fn obeys_eq_spec() -> bool {
        true
    }

    open spec fn eq_spec(&self, other: &Self) -> bool {
        *self == *other
    }
}

impl Key {
    /// The identity with the given 32 bytes.
    pub open spec fn with_bytes(bytes: Seq<u8>) -> Key {
        choose|k: Key| k@ == bytes
    }

    /// Two identities with the same bytes are the same identity.
    pub proof fn lemma_view_injective(a: Key, b: Key)
        requires
            a@ == b@,
        ensures
            a == b,
    {
        assert(a.bytes =~= b.bytes);
    }

    /// `with_bytes` gives back the identity whose bytes it was handed.
    pub proof fn lemma_with_bytes(k: Key)
        ensures
            Key::with_bytes(k@) == k,
    {
        Key::lemma_view_injective(Key::with_bytes(k@), k);
    }

    /// Returns the 32 bytes of the identity.
    pub fn to_vec(&self) -> (v: Vec<u8>)
        ensures
            v@ == self@,
    {
        slice_to_vec(self.bytes.as_slice())
    }
}

/// The tag of the seeds from which a user record's address is derived: `user` in ASCII.
pub const USER_TAG: [u8; 4] = [117, 115, 101, 114];

/// The tag of the seeds from which a promise record's address is derived: `promise` in
/// ASCII.
pub const PROMISE_TAG: [u8; 7] = [112, 114, 111, 109, 105, 115, 101];

/// The tag of the seeds from which a vault and its authority are derived:
/// `promise_wallet` in ASCII.
pub const PROMISE_WALLET_TAG: [u8; 14] = [
    112, 114, 111, 109, 105, 115, 101, 95, 119, 97, 108, 108, 101, 116,
];

/// 256 to the power `e`.
pub open spec fn pow256(e: nat) -> nat
    decreases e,
{
    if e == 0 {
        1
    } else {
        256 * pow256((e - 1) as nat)
    }
}

/// The base-256 digit of `x` that has weight `256^k`.
pub open spec fn digit(x: u64, k: nat) -> u8 {
    ((x as nat / pow256(k)) % 256) as u8
}

/// The eight bytes of `x`, most significant first.
pub open spec fn be_bytes(x: u64) -> Seq<u8> {
    Seq::new(8, |i: int| digit(x, (7 - i) as nat))
}

/// Two numbers with the same eight bytes are the same number.
pub proof fn lemma_be_bytes_injective(x: u64, y: u64)
    requires
        be_bytes(x) == be_bytes(y),
    ensures
        x == y,
{
    assert(digit(x, 7) == be_bytes(x)[0] && digit(y, 7) == be_bytes(y)[0]);
    assert(digit(x, 6) == be_bytes(x)[1] && digit(y, 6) == be_bytes(y)[1]);
    assert(digit(x, 5) == be_bytes(x)[2] && digit(y, 5) == be_bytes(y)[2]);
    assert(digit(x, 4) == be_bytes(x)[3] && digit(y, 4) == be_bytes(y)[3]);
    assert(digit(x, 3) == be_bytes(x)[4] && digit(y, 3) == be_bytes(y)[4]);
    assert(digit(x, 2) == be_bytes(x)[5] && digit(y, 2) == be_bytes(y)[5]);
    assert(digit(x, 1) == be_bytes(x)[6] && digit(y, 1) == be_bytes(y)[6]);
    assert(digit(x, 0) == be_bytes(x)[7] && digit(y, 0) == be_bytes(y)[7]);
    lemma_digits(x);
    lemma_digits(y);
}

/// A 64-bit number is the sum of its eight base-256 digits, each times its weight.
proof fn lemma_digits(x: u64)
    ensures
        x == digit(x, 7) * 0x100_0000_0000_0000 + digit(x, 6) * 0x1_0000_0000_0000 + digit(x, 5)
            * 0x100_0000_0000 + digit(x, 4) * 0x1_0000_0000 + digit(x, 3) * 0x100_0000 + digit(
            x,
            2,
        ) * 0x1_0000 + digit(x, 1) * 0x100 + digit(x, 0),
{
    reveal_with_fuel(pow256, 9);
    let q0 = x as nat;
    let q1 = q0 / 256;
    let q2 = q1 / 256;
    let q3 = q2 / 256;
    let q4 = q3 / 256;
    let q5 = q4 / 256;
    let q6 = q5 / 256;
    let q7 = q6 / 256;
    assert(q1 == q0 / 0x100);
    assert(q2 == q0 / 0x1_0000);
    assert(q3 == q0 / 0x100_0000);
    assert(q4 == q0 / 0x1_0000_0000);
    assert(q5 == q0 / 0x100_0000_0000);
    assert(q6 == q0 / 0x1_0000_0000_0000);
    assert(q7 == q0 / 0x100_0000_0000_0000);
    assert(q7 < 256);
    assert(pow256(0) == 1 && q0 / 1 == q0);
    assert(digit(x, 0) == q0 % 256);
    assert(digit(x, 1) == q1 % 256);
    assert(digit(x, 2) == q2 % 256);
    assert(digit(x, 3) == q3 % 256);
    assert(digit(x, 4) == q4 % 256);
    assert(digit(x, 5) == q5 % 256);
    assert(digit(x, 6) == q6 % 256);
    assert(digit(x, 7) == q7 % 256);
}

/// Calls `u64::to_be_bytes`: the eight bytes of `x` in big-endian order, that is byte `i`
/// holds the digit of weight `256^(7 - i)` of `x` written in base 256.
#[verifier::external_body]
fn to_be_bytes(x: u64) -> (r: [u8; 8])
    ensures
        r@ == be_bytes(x),
{
    x.to_be_bytes()
}

/// Returns the eight bytes of a sequence number, most significant first.
pub fn sequence_seed(sequence: u64) -> (seed: Vec<u8>)
    ensures
        seed@ == be_bytes(sequence),
{
    let bytes = to_be_bytes(sequence);
    slice_to_vec(bytes.as_slice())
}

/// The seed that stands for a slug: its UTF-8 bytes, cut after the first 32.
pub open spec fn spec_slug_seed(bytes: Seq<u8>) -> Seq<u8> {
    if bytes.len() > 32 {
        bytes.subrange(0, 32)
    } else {
        bytes
    }
}

/// Returns the seed that stands for `slug`: its bytes, of which only the first 32 count.
pub fn slug_seed(slug: &str) -> (seed: &[u8])
    ensures
        seed@ == spec_slug_seed(slug.spec_bytes()),
        seed@.len() <= 32,
{
    let b = slug.as_bytes();
    if b.len() > 32 {
        &b[0..32]
    } else {
        b
    }
}

/// The seed tuple of the user record registered under a slug with the given UTF-8 bytes.
pub open spec fn spec_user_seeds(slug_bytes: Seq<u8>) -> Seq<Seq<u8>> {
    seq![USER_TAG@, spec_slug_seed(slug_bytes)]
}

/// The seed tuple of the promise record that `owner` creates at counter value `sequence`.
pub open spec fn spec_promise_seeds(owner: Key, sequence: u64) -> Seq<Seq<u8>> {
    seq![PROMISE_TAG@, owner@, be_bytes(sequence)]
}

/// The seed tuple of the vault, and of its authority, that `owner` creates at counter
/// value `sequence`.
pub open spec fn spec_vault_seeds(owner: Key, sequence: u64) -> Seq<Seq<u8>> {
    seq![PROMISE_WALLET_TAG@, owner@, be_bytes(sequence)]
}

/// The seed tuple that signs for a vault's authority: the vault's seeds, then the bump.
pub open spec fn spec_signer_seeds(owner: Key, sequence: u64, bump: u8) -> Seq<Seq<u8>> {
    spec_vault_seeds(owner, sequence).push(seq![bump])
}

/// What `Pubkey::try_find_program_address` returns for a seed tuple and a program: the
/// address and its bump seed, or `None` where it finds no address.
pub uninterp spec fn program_address(seeds: Seq<Seq<u8>>, program_id: Seq<u8>) -> Option<
    (Seq<u8>, u8),
>;

/// The key-less address derived from a seed tuple under a program, with its bump seed.
pub open spec fn derived_address(seeds: Seq<Seq<u8>>, program_id: Key) -> Option<(Key, u8)> {
    match program_address(seeds, program_id@) {
        Some((address, bump)) => Some((Key::with_bytes(address), bump)),
        None => None,
    }
}

/// Calls `Pubkey::try_find_program_address` on the seeds and the program's identity. The
/// search depends on its two arguments alone, so its answer is `program_address` of them;
/// nothing more is claimed of it.
#[verifier::external_body]
fn try_find_program_address(seeds: &[&[u8]], program_id: &Key) -> (r: Option<(Key, u8)>)
    ensures
        r matches Some((address, bump)) ==> program_address(seeds.deep_view(), program_id@)
            == Some((address@, bump)),
        r is None ==> program_address(seeds.deep_view(), program_id@) is None,
{
    match Pubkey::try_find_program_address(seeds, &Pubkey::new_from_array(program_id.bytes)) {
        Some((address, bump)) => Some((Key { bytes: address.to_bytes() }, bump)),
        None => None,
    }
}

/// Derives the key-less address of a seed tuple under a program.
pub fn find_address(seeds: &Vec<Vec<u8>>, program_id: &Key) -> (r: Option<(Key, u8)>)
    ensures
        r == derived_address(seeds.deep_view(), *program_id),
{
    let mut parts: Vec<&[u8]> = Vec::new();
    let mut i: usize = 0;
    while i < seeds.len()
        invariant
            i <= seeds@.len(),
            parts@.len() == i,
            forall|j: int| 0 <= j < i ==> parts@[j]@ == seeds@[j]@,
        decreases seeds@.len() - i,
    {
        parts.push(seeds[i].as_slice());
        i += 1;
    }
    let parts = parts.as_slice();
    let r = try_find_program_address(parts, program_id);
    proof {
        lemma_deep_view(*seeds);
        assert(parts.deep_view() =~= seeds.deep_view());
        if let Some((address, bump)) = r {
            Key::lemma_with_bytes(address);
        }
    }
    r
}

/// Builds the seed tuple of the user record registered under `slug`.
pub fn user_seeds(slug: &str) -> (seeds: Vec<Vec<u8>>)
    ensures
        seeds.deep_view() == spec_user_seeds(slug.spec_bytes()),
{
    let mut seeds: Vec<Vec<u8>> = Vec::new();
    seeds.push(slice_to_vec(USER_TAG.as_slice()));
    seeds.push(slice_to_vec(slug_seed(slug)));
    proof {
        lemma_deep_view(seeds);
    }
    seeds
}

/// Builds the seed tuple of the promise record that `owner` creates at counter value
/// `sequence`.
pub fn promise_seeds(owner: &Key, sequence: u64) -> (seeds: Vec<Vec<u8>>)
    ensures
        seeds.deep_view() == spec_promise_seeds(*owner, sequence),
{
    let mut seeds: Vec<Vec<u8>> = Vec::new();
    seeds.push(slice_to_vec(PROMISE_TAG.as_slice()));
    seeds.push(owner.to_vec());
    seeds.push(sequence_seed(sequence));
    proof {
        lemma_deep_view(seeds);
    }
    seeds
}

/// Builds the seed tuple of the vault that `owner` creates at counter value `sequence`.
pub fn vault_seeds(owner: &Key, sequence: u64) -> (seeds: Vec<Vec<u8>>)
    ensures
        seeds.deep_view() == spec_vault_seeds(*owner, sequence),
{
    let mut seeds: Vec<Vec<u8>> = Vec::new();
    seeds.push(slice_to_vec(PROMISE_WALLET_TAG.as_slice()));
    seeds.push(owner.to_vec());
    seeds.push(sequence_seed(sequence));
    proof {
        lemma_deep_view(seeds);
    }
    seeds
}

/// Builds the seed tuple that signs for the authority of the vault that `owner` created
/// at counter value `sequence`, given the bump seed of that authority.
pub fn signer_seeds(owner: &Key, sequence: u64, bump: u8) -> (seeds: Vec<Vec<u8>>)
    ensures
        seeds.deep_view() == spec_signer_seeds(*owner, sequence, bump),
{
    let mut seeds = vault_seeds(owner, sequence);
    let ghost vault = seeds;
    let last: Vec<u8> = vec![bump];
    assert(last@ =~= seq![bump]);
    seeds.push(last);
    proof {
        lemma_deep_view(vault);
        lemma_deep_view(seeds);
        assert forall|i: int| 0 <= i < 3 implies seeds.deep_view()[i] == vault.deep_view()[i] by {
            assert(seeds@[i] == vault@[i]);
        }
        assert(seeds.deep_view() =~= vault.deep_view().push(seq![bump]));
    }
    seeds
}

/// The deep view of a seed tuple holds the view of each seed, in order.
proof fn lemma_deep_view(seeds: Vec<Vec<u8>>)
    ensures
        seeds.deep_view().len() == seeds@.len(),
        forall|i: int| 0 <= i < seeds@.len() ==> #[trigger] seeds.deep_view()[i] == seeds@[i]@,
{
    assert forall|i: int| 0 <= i < seeds@.len() implies #[trigger] seeds.deep_view()[i]
        == seeds@[i]@ by {
        assert(seeds@[i].deep_view() =~= seeds@[i]@);
    }
}

/// Derives the address of the user record registered under `slug`.
pub fn user_address(slug: &str, program_id: &Key) -> (r: Option<(Key, u8)>)
    ensures
        r == derived_address(spec_user_seeds(slug.spec_bytes()), *program_id),
{
    let seeds = user_seeds(slug);
    find_address(&seeds, program_id)
}

/// Derives the address of the promise record that `owner` creates at counter value
/// `sequence`.
pub fn promise_address(owner: &Key, sequence: u64, program_id: &Key) -> (r: Option<(Key, u8)>)
    ensures
        r == derived_address(spec_promise_seeds(*owner, sequence), *program_id),
{
    let seeds = promise_seeds(owner, sequence);
    find_address(&seeds, program_id)
}

/// Derives the authority of the vault that `owner` creates at counter value `sequence`.
/// The vault lives at the same address, so that it is its own authority.
pub fn vault_authority(owner: &Key, sequence: u64, program_id: &Key) -> (r: Option<(Key, u8)>)
    ensures
        r == derived_address(spec_vault_seeds(*owner, sequence), *program_id),
{
    let seeds = vault_seeds(owner, sequence);
    find_address(&seeds, program_id)
}

} // verus!
