use vstd::prelude::*;

verus! {

broadcast use vstd::array::group_array_axioms;

/// A 32-byte account address, held as its raw bytes.
#[derive(Clone, Copy, Debug, PartialEq, Eq)]
pub struct Pubkey {
    pub bytes: [u8; 32],
}

/// Why a string is not the base58 form of an address.
#[derive(Clone, Copy, Debug, PartialEq, Eq, Structural)]
pub enum PubkeyError {
    /// The string, or what it decodes to, has the wrong length.
    WrongSize,
    /// The string is not valid base58.
    Invalid,
}

impl Pubkey {
    /// The address with the given bytes.
    pub fn new_from_array(bytes: [u8; 32]) -> (key: Pubkey)
        ensures
            key.bytes == bytes,
    {
        Pubkey { bytes }
    }

    /// The all-zero address, the value of a freshly allocated address field.
    pub fn zeroed() -> (key: Pubkey)
        ensures
            forall|i: int| 0 <= i < 32 ==> key.bytes[i] == 0,
    {
        Pubkey { bytes: [0u8; 32] }
    }

    /// The raw bytes of the address.
    pub fn to_bytes(&self) -> (bytes: [u8; 32])
        ensures
            bytes == self.bytes,
    {
        self.bytes
    }

    /// Whether two addresses are the same.
    pub fn key_eq(&self, other: &Pubkey) -> (same: bool)
        ensures
            same == (*self == *other),
    {
        let mut i: usize = 0;
        while i < 32
            invariant
                i <= 32,
                forall|j: int| 0 <= j < i ==> self.bytes[j] == other.bytes[j],
            decreases 32 - i,
        {
            if self.bytes[i] != other.bytes[i] {
                return false;
            }
            i = i + 1;
        }
        assert(self.bytes =~= other.bytes);
        true
    }
}

/// What the base58 parse of the runtime's address type makes of a string: the
/// 32 decoded bytes, or why the string is not an address.
pub uninterp spec fn pubkey_from_base58(text: Seq<char>) -> Result<Seq<u8>, PubkeyError>;

/// A parse result with the address taken as its bytes.
pub open spec fn parsed_bytes(parsed: Result<Pubkey, PubkeyError>) -> Result<Seq<u8>, PubkeyError> {
    match parsed {
        Ok(key) => Ok(key.bytes@),
        Err(e) => Err(e),
    }
}

/// The refusal of a text of the wrong length.
pub open spec fn wrong_size() -> Result<Seq<u8>, PubkeyError> {
    Err(PubkeyError::WrongSize)
}

/// Parses `text` with `FromStr` of `anchor_lang::prelude::Pubkey`
/// (solana-program's `Pubkey::from_str`). Trusted: the result is the named
/// base58 parse of the text, and a text of more than 44 characters is refused
/// as `WrongSize`, as that function's first test does. What base58 decodes a
/// text to is not stated.
#[verifier::external_body]
fn pubkey_from_str(text: &str) -> (parsed: Result<Pubkey, PubkeyError>)
    ensures
        parsed_bytes(parsed) == pubkey_from_base58(text@),
        text@.len() > 44 ==> parsed_bytes(parsed) == wrong_size(),
{
    match <anchor_lang::prelude::Pubkey as std::str::FromStr>::from_str(text) {
        Ok(key) => Ok(Pubkey { bytes: key.to_bytes() }),
        Err(anchor_lang::solana_program::pubkey::ParsePubkeyError::WrongSize) => Err(PubkeyError::WrongSize),
        Err(anchor_lang::solana_program::pubkey::ParsePubkeyError::Invalid) => Err(PubkeyError::Invalid),
    }
}

/// The base58 address of the mainnet USDC mint.
pub open spec fn mainnet_usdc_text() -> Seq<char> {
    "EPjFWdd5AufqSSqeM2qN1xzybapC8G4wEGGkZwyTDt1v"@
}

/// The mainnet USDC mint, parsed from its base58 address. Buying with this
/// quote mint is barred from trading with oneself.
pub fn mainnet_usdc_mint() -> (mint: Result<Pubkey, PubkeyError>)
    ensures
        parsed_bytes(mint) == pubkey_from_base58(mainnet_usdc_text()),
{
    pubkey_from_str("EPjFWdd5AufqSSqeM2qN1xzybapC8G4wEGGkZwyTDt1v")
}

} // verus!
