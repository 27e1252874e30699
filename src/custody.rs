use vstd::prelude::*;
use anchor_lang::prelude::Pubkey;
use crate::state::Key;

verus! {

/// The fixed prefix of every custody handle's seeds: the bytes of "stake".
pub open spec fn stake_tag() -> Seq<u8> {
    seq![0x73u8, 0x74u8, 0x61u8, 0x6bu8, 0x65u8]
}

/// The seeds from which the custody handle of `user` under the
/// configuration `config` is derived: the same inputs always give the same
/// handle, so no secret needs to be stored to sign for it later.
pub open spec fn seeds_of(config: Seq<u8>, user: Seq<u8>) -> Seq<Seq<u8>> {
    seq![stake_tag(), config, user]
}

/// The signing seeds: the derivation seeds followed by the one-byte `bump`.
pub open spec fn signer_seeds_of(config: Seq<u8>, user: Seq<u8>, bump: u8) -> Seq<Seq<u8>> {
    seeds_of(config, user).push(seq![bump])
}

/// The address that the runtime derives from `seeds` for the program with
/// id `program`, or `None` where the seeds give no valid address.
pub uninterp spec fn program_address(seeds: Seq<Seq<u8>>, program: Seq<u8>) -> Option<Seq<u8>>;

pub open spec fn key_view(k: Option<Key>) -> Option<Seq<u8>> {
    match k {
        Some(k) => Some(k@),
        None => None,
    }
}

/// Relies on `Pubkey::create_program_address`: the derived address is a
/// function of the seeds and the program id alone, and the call fails exactly
/// where those seeds give no valid address.
#[verifier::external_body]
fn create_program_address(seeds: &Vec<Vec<u8>>, program: &Key) -> (r: Option<Key>)
    ensures
        key_view(r) == program_address(seeds@.map_values(|s: Vec<u8>| s@), program@),
{
    let refs: Vec<&[u8]> = seeds.iter().map(|s| s.as_slice()).collect();
    match Pubkey::create_program_address(&refs, &Pubkey::new_from_array(program.bytes)) {
        Ok(p) => Some(Key::new(p.to_bytes())),
        Err(_) => None,
    }
}

fn key_bytes(k: &Key) -> (r: Vec<u8>)
    ensures
        r@ == k@,
{
    let mut v: Vec<u8> = Vec::new();
    let mut i: usize = 0;
    while i < 32
        invariant
            0 <= i <= 32,
            k@.len() == 32,
            v@ == k@.subrange(0, i as int),
        decreases 32 - i,
    {
        v.push(k.bytes[i]);
        i = i + 1;
        proof {
            assert(v@ =~= k@.subrange(0, i as int));
        }
    }
    proof {
        assert(k@.subrange(0, 32) =~= k@);
    }
    v
}

/// The seeds of the custody handle of `user` under `config`.
pub fn custody_seeds(config: &Key, user: &Key) -> (r: Vec<Vec<u8>>)
    ensures
        r@.len() == 3,
        forall|j: int| 0 <= j < 3 ==> r@[j]@ == #[trigger] seeds_of(config@, user@)[j],
{
    let mut tag: Vec<u8> = Vec::new();
    tag.push(0x73u8);
    tag.push(0x74u8);
    tag.push(0x61u8);
    tag.push(0x6bu8);
    tag.push(0x65u8);
    proof {
        assert(tag@ =~= stake_tag());
    }
    let mut r: Vec<Vec<u8>> = Vec::new();
    r.push(tag);
    r.push(key_bytes(config));
    r.push(key_bytes(user));
    r
}

/// The seeds with which the custody handle signs: its derivation seeds
/// followed by the one-byte `bump` that completes them.
pub fn custody_signer_seeds(config: &Key, user: &Key, bump: u8) -> (r: Vec<Vec<u8>>)
    ensures
        r@.len() == 4,
        forall|j: int| 0 <= j < 3 ==> r@[j]@ == #[trigger] seeds_of(config@, user@)[j],
        r@[3]@ == seq![bump],
        r@.map_values(|s: Vec<u8>| s@) == signer_seeds_of(config@, user@, bump),
{
    let mut r = custody_seeds(config, user);
    let mut b: Vec<u8> = Vec::new();
    b.push(bump);
    proof {
        assert(b@ =~= seq![bump]);
    }
    r.push(b);
    proof {
        assert(r@.map_values(|s: Vec<u8>| s@) =~= signer_seeds_of(config@, user@, bump));
    }
    r
}

/// The custody handle of `user` under the configuration `config`, for the
/// program `program`, completed by `bump`: the same inputs always give the
/// same handle. `None` where those seeds give no valid address.
pub fn custody_handle(program: &Key, config: &Key, user: &Key, bump: u8) -> (r: Option<Key>)
    ensures
        key_view(r) == program_address(signer_seeds_of(config@, user@, bump), program@),
{
    let seeds = custody_signer_seeds(config, user, bump);
    create_program_address(&seeds, program)
}

} // verus!
