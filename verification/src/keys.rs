//! Account addresses, and the two fixed identities of the engine: the
//! operator who may administer it, and the signing authority that the
//! engine itself holds over the pool and the treasury.

use vstd::prelude::*;
use anchor_lang::prelude::Pubkey;

verus! {

/// The base58 form of the one identity that may administer the engine.
pub const OWNER: &'static str = "8FXRKgS2nDJ1axRRTvdgkQudUsBZZ5gKnp4zF1kK6vMw";

/// The base58 form of the engine's own program address.
pub const PROGRAM_ID: &'static str = "EcDwM6SLq81xpKS1ykf7UGjjyE84KJvjmAzWmLwy9tJx";

/// The tag from which the engine's signing authority is derived.
pub const AUTHORITY_TAG: &'static str = "authority_v4";

/// A 32-byte account address.
#[derive(Clone, Copy, Debug, PartialEq, Eq)]
pub struct Address {
    pub bytes: [u8; 32],
}

impl Address {
    /// The address as a sequence of 32 bytes.
    pub open spec fn view(&self) -> Seq<u8> {
        self.bytes@
    }

    /// Thirty-two zero bytes.
    pub open spec fn zero_bytes() -> Seq<u8> {
        Seq::new(32, |i: int| 0u8)
    }

    /// The address of thirty-two zero bytes.
    pub fn zero() -> (r: Address)
        ensures
            r@ == Address::zero_bytes(),
    {
        let r = Address { bytes: [0u8; 32] };
        proof {
            assert(r.bytes@ =~= Address::zero_bytes());
        }
        r
    }

    /// Whether two addresses hold the same bytes.
    pub fn same(&self, other: &Address) -> (r: bool)
        ensures
            r == (self@ == other@),
    {
        let mut i: usize = 0;
        while i < 32
            invariant
                i <= 32,
                forall|j: int| 0 <= j < i ==> self.bytes@[j] == other.bytes@[j],
            decreases 32 - i,
        {
            if self.bytes[i] != other.bytes[i] {
                return false;
            }
            i += 1;
        }
        proof {
            assert(self.bytes@ =~= other.bytes@);
        }
        true
    }
}

/// What decoding a base58 string as a 32-byte address yields: the bytes,
/// or nothing where the string is no such encoding.
pub uninterp spec fn base58_address(text: Seq<char>) -> Option<Seq<u8>>;

/// The program-derived address for one seed tag under a program, with the
/// bump seed that was found for it, or nothing where no bump seed gives a
/// valid address.
pub uninterp spec fn program_address(tag: Seq<char>, program: Seq<u8>) -> Option<(Seq<u8>, u8)>;

/// Decodes a base58 string with `Pubkey::from_str`. Trusted: the result is
/// the decoding of the text, a function of the text alone; a string that
/// does not decode to exactly 32 bytes gives `None`.
#[verifier::external_body]
fn parse_address(text: &str) -> (r: Option<Address>)
    ensures
        match r {
            Some(a) => base58_address(text@) == Some(a@),
            None => base58_address(text@) is None,
        },
{
    match text.parse::<Pubkey>() {
        Ok(key) => Some(Address { bytes: key.to_bytes() }),
        Err(_) => None,
    }
}

/// Derives a program address with `Pubkey::try_find_program_address`, called
/// with the tag's bytes as the only seed. Trusted: the result is the derived
/// address and its bump seed, a function of the tag and the program address
/// alone; `None` where the search finds nothing or the seed is refused.
#[verifier::external_body]
fn find_address(tag: &str, program: &Address) -> (r: Option<(Address, u8)>)
    ensures
        match r {
            Some(found) => program_address(tag@, program@) == Some((found.0@, found.1)),
            None => program_address(tag@, program@) is None,
        },
{
    let program_key = Pubkey::new_from_array(program.bytes);
    match Pubkey::try_find_program_address(&[tag.as_bytes()], &program_key) {
        Some((key, bump)) => Some((Address { bytes: key.to_bytes() }, bump)),
        None => None,
    }
}

/// The operator's address, where `OWNER` decodes to one.
pub open spec fn operator_spec() -> Option<Seq<u8>> {
    base58_address(OWNER@)
}

/// The engine's signing authority and its bump seed: the address derived
/// from `AUTHORITY_TAG` under the engine's program address.
pub open spec fn signing_authority_spec() -> Option<(Seq<u8>, u8)> {
    match base58_address(PROGRAM_ID@) {
        Some(program) => program_address(AUTHORITY_TAG@, program),
        None => None,
    }
}

/// The view of an optional address.
pub open spec fn view_address(a: Option<Address>) -> Option<Seq<u8>> {
    match a {
        Some(a) => Some(a@),
        None => None,
    }
}

/// The view of an optional address with its bump seed.
pub open spec fn view_signer(s: Option<(Address, u8)>) -> Option<(Seq<u8>, u8)> {
    match s {
        Some(s) => Some((s.0@, s.1)),
        None => None,
    }
}

/// The address of the operator who may administer the engine.
pub fn operator() -> (r: Option<Address>)
    ensures
        view_address(r) == operator_spec(),
{
    parse_address(OWNER)
}

/// The engine's own program address.
pub fn program_id() -> (r: Option<Address>)
    ensures
        view_address(r) == base58_address(PROGRAM_ID@),
{
    parse_address(PROGRAM_ID)
}

/// The signing authority that the engine holds over the pool and the
/// treasury, with its bump seed.
pub fn signing_authority() -> (r: Option<(Address, u8)>)
    ensures
        view_signer(r) == signing_authority_spec(),
{
    match parse_address(PROGRAM_ID) {
        Some(program) => find_address(AUTHORITY_TAG, &program),
        None => None,
    }
}

} // verus!
