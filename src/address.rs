use std::str::FromStr;
use vstd::prelude::*;

verus! {

/// A 32-byte on-chain account address.
#[derive(Clone, Copy, Debug)]
pub struct Address {
    pub bytes: [u8; 32],
}

impl Address {
    pub fn new(bytes: [u8; 32]) -> (r: Address)
        ensures
            r.bytes == bytes,
    {
        Address { bytes }
    }
}

impl PartialEq for Address {
    fn eq(&self, other: &Address) -> (r: bool) {
        let mut i: usize = 0;
        while i < 32
            invariant
                i <= 32,
                forall|j: int| 0 <= j < i ==> self.bytes@[j] == other.bytes@[j],
            decreases 32 - i,
        {
            if self.bytes[i] != other.bytes[i] {
                return false;
            }
            i = i + 1;
        }
        assert(self.bytes@ =~= other.bytes@);
        true
    }
}

impl vstd::std_specs::cmp::PartialEqSpecImpl for Address {
    open spec fn obeys_eq_spec() -> bool {
        true
    }

    open spec fn eq_spec(&self, other: &Address) -> bool {
        self.bytes@ == other.bytes@
    }
}

impl Eq for Address {}

/// The bytes of the Bubblegum program's address,
/// `BGUMAp9Gq7iTEuizy4pqaxsTyUCBK68MDfK752saRPUY` in base58.
pub open spec fn bubblegum_id_bytes() -> Seq<u8> {
    seq![
        152u8, 139, 128, 235, 121, 53, 40, 105, 178, 36, 116, 95, 89, 221, 191, 138,
        38, 88, 202, 19, 220, 104, 129, 33, 38, 53, 28, 174, 7, 193, 165, 165,
    ]
}

/// The bytes of the no-op logging program's address,
/// `noopb9bkMVfRPU8AsbpTUg8AQkHtKwMYZiFUjNRtMmV` in base58.
pub open spec fn noop_id_bytes() -> Seq<u8> {
    seq![
        11u8, 188, 15, 192, 187, 71, 202, 47, 116, 196, 17, 46, 148, 171, 19, 207,
        163, 198, 52, 229, 220, 23, 234, 203, 3, 205, 26, 35, 205, 126, 120, 124,
    ]
}

/// Relies on `mpl_bubblegum::ID`, declared in that crate from the base58
/// text given at `bubblegum_id_bytes`.
#[verifier::external_body]
pub(crate) fn bubblegum_program_id() -> (r: Address)
    ensures
        r.bytes@ == bubblegum_id_bytes(),
{
    Address { bytes: mpl_bubblegum::ID.to_bytes() }
}

/// Relies on `mpl_bubblegum::programs::SPL_NOOP_ID`, declared in that crate
/// from the base58 text given at `noop_id_bytes`.
#[verifier::external_body]
pub(crate) fn noop_program_id() -> (r: Address)
    ensures
        r.bytes@ == noop_id_bytes(),
{
    Address { bytes: mpl_bubblegum::programs::SPL_NOOP_ID.to_bytes() }
}

/// The 32 bytes that a base58 address text denotes, if it denotes one.
pub uninterp spec fn pubkey_of_text(s: Seq<char>) -> Option<Seq<u8>>;

/// Relies on `Pubkey::from_str` of solana-sdk: it decodes base58 text and
/// accepts it only when it gives exactly 32 bytes; the outcome depends on the
/// text alone.
#[verifier::external_body]
pub(crate) fn parse_address(s: &str) -> (r: Option<Address>)
    ensures
        r matches Some(a) ==> pubkey_of_text(s@) == Some(a.bytes@),
        r is None ==> pubkey_of_text(s@) is None,
{
    match solana_sdk::pubkey::Pubkey::from_str(s) {
        Ok(key) => Some(Address { bytes: key.to_bytes() }),
        Err(_) => None,
    }
}

/// The bytes that a base58 text decodes to, if it is valid base58.
pub uninterp spec fn base58_of_text(s: Seq<char>) -> Option<Seq<u8>>;

/// Relies on `bs58::decode(..).into_vec()`: it decodes base58 text with the
/// Bitcoin alphabet, failing on any other character; the outcome depends on
/// the text alone.
#[verifier::external_body]
pub(crate) fn decode_base58(s: &str) -> (r: Option<Vec<u8>>)
    ensures
        r matches Some(v) ==> base58_of_text(s@) == Some(v@),
        r is None ==> base58_of_text(s@) is None,
{
    match bs58::decode(s).into_vec() {
        Ok(v) => Some(v),
        Err(_) => None,
    }
}

} // verus!
