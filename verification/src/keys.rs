//! Account addresses and transaction signatures, held as plain bytes, and the
//! few operations on them that the rest of the library needs.
use vstd::prelude::*;

verus! {

broadcast use vstd::array::group_array_axioms;

/// A 32-byte account address.
#[derive(Clone, Copy, Debug, PartialEq, Eq, Hash)]
pub struct Pubkey(pub [u8; 32]);

/// A 64-byte transaction signature.
#[derive(Clone, Copy, Debug, PartialEq, Eq, Hash)]
pub struct Signature(pub [u8; 64]);

impl View for Pubkey {
    type V = Seq<u8>;

    open spec fn view(&self) -> Seq<u8> {
        self.0@
    }
}

impl View for Signature {
    type V = Seq<u8>;

    open spec fn view(&self) -> Seq<u8> {
        self.0@
    }
}

/// The all-zero address, which the clients use to mean "not configured".
pub open spec fn zero_key() -> Seq<u8> {
    Seq::new(32, |i: int| 0u8)
}

/// Byte-wise equality of two fixed-size byte arrays.
fn bytes_equal<const N: usize>(a: &[u8; N], b: &[u8; N]) -> (r: bool)
    ensures
        r == (a@ == b@),
{
    let mut i: usize = 0;
    while i < N
        invariant
            i <= N,
            a@.len() == N,
            b@.len() == N,
            forall|j: int| 0 <= j < i ==> a@[j] == b@[j],
        decreases N - i,
    {
        if a[i] != b[i] {
            return false;
        }
        i = i + 1;
    }
    assert(a@ =~= b@);
    true
}

impl Pubkey {
    /// The all-zero address (what `Pubkey::default()` is for the address type of the chain).
    pub fn zeroed() -> (r: Pubkey)
        ensures
            r@ == zero_key(),
    {
        let r = Pubkey([0u8; 32]);
        assert(r@ =~= zero_key());
        r
    }

    /// Whether two addresses hold the same bytes.
    pub fn same(&self, other: &Pubkey) -> (r: bool)
        ensures
            r == (self@ == other@),
    {
        bytes_equal(&self.0, &other.0)
    }

    /// Whether this is the all-zero address.
    pub fn is_zero(&self) -> (r: bool)
        ensures
            r == (self@ == zero_key()),
    {
        let z = Pubkey::zeroed();
        self.same(&z)
    }
}

impl Signature {
    /// Whether two signatures hold the same bytes.
    pub fn same(&self, other: &Signature) -> (r: bool)
        ensures
            r == (self@ == other@),
    {
        bytes_equal(&self.0, &other.0)
    }
}

/// The text that the chain's address type displays for the given 32 bytes (base58).
pub uninterp spec fn pubkey_text(bytes: Seq<u8>) -> Seq<char>;

/// The text that the chain's signature type displays for the given 64 bytes (base58).
pub uninterp spec fn signature_text(bytes: Seq<u8>) -> Seq<char>;

/// The bytes of the address that the given text parses to, if it parses.
pub uninterp spec fn pubkey_parse(text: Seq<char>) -> Option<Seq<u8>>;

/// The bytes of the signature that the given text parses to, if it parses.
pub uninterp spec fn signature_parse(text: Seq<char>) -> Option<Seq<u8>>;

/// The program-derived address and bump for the given seeds and program, if a bump is found.
pub uninterp spec fn program_address(seeds: Seq<Seq<u8>>, program_id: Seq<u8>) -> Option<(Seq<u8>, u8)>;

/// The views of a list of seeds.
pub open spec fn seeds_view(seeds: Seq<Vec<u8>>) -> Seq<Seq<u8>> {
    seeds.map_values(|s: Vec<u8>| s@)
}

/// Whether an optional (address, bump) pair holds what `found` holds.
pub open spec fn pda_matches(r: Option<(Pubkey, u8)>, found: Option<(Seq<u8>, u8)>) -> bool {
    match r {
        Some((key, bump)) => found == Some((key@, bump)),
        None => found is None,
    }
}

/// Base58 text of an address, as `solana_pubkey::Pubkey`'s `Display` writes it.
/// The result is named `pubkey_text` of the bytes; nothing else is claimed of it.
#[verifier::external_body]
pub(crate) fn pubkey_to_string(key: &Pubkey) -> (s: String)
    ensures
        s@ == pubkey_text(key@),
{
    solana_pubkey::Pubkey::new_from_array(key.0).to_string()
}

/// Base58 text of a signature, as `solana_signature::Signature`'s `Display` writes it.
/// The result is named `signature_text` of the bytes; nothing else is claimed of it.
#[verifier::external_body]
pub(crate) fn signature_to_string(sig: &Signature) -> (s: String)
    ensures
        s@ == signature_text(sig@),
{
    solana_signature::Signature::from(sig.0).to_string()
}

/// Parses base58 text into an address with `solana_pubkey::Pubkey::from_str`.
/// Whether it parses, and to what, is named `pubkey_parse` of the text.
#[verifier::external_body]
pub(crate) fn parse_pubkey(text: &str) -> (r: Option<Pubkey>)
    ensures
        match r {
            Some(k) => pubkey_parse(text@) == Some(k@),
            None => pubkey_parse(text@) is None,
        },
{
    match text.parse::<solana_pubkey::Pubkey>() {
        Ok(k) => Some(Pubkey(k.to_bytes())),
        Err(_) => None,
    }
}

/// Parses base58 text into a signature with `solana_signature::Signature::from_str`.
/// Whether it parses, and to what, is named `signature_parse` of the text.
#[verifier::external_body]
pub(crate) fn parse_signature(text: &str) -> (r: Option<Signature>)
    ensures
        match r {
            Some(s) => signature_parse(text@) == Some(s@),
            None => signature_parse(text@) is None,
        },
{
    match text.parse::<solana_signature::Signature>() {
        Ok(s) => Some(Signature(s.into())),
        Err(_) => None,
    }
}

/// Searches a program-derived address with `solana_pubkey::Pubkey::try_find_program_address`.
/// The outcome is named `program_address` of the seeds and the program id; the crate returns
/// `None` only when no bump among those it tries gives an address off the curve.
#[verifier::external_body]
pub(crate) fn find_program_address(seeds: &Vec<Vec<u8>>, program_id: &Pubkey) -> (r: Option<(Pubkey, u8)>)
    requires
        seeds@.len() < 16,
        forall|i: int| 0 <= i < seeds@.len() ==> (#[trigger] seeds@[i])@.len() <= 32,
    ensures
        pda_matches(r, program_address(seeds_view(seeds@), program_id@)),
{
    let refs: Vec<&[u8]> = seeds.iter().map(|s| s.as_slice()).collect();
    let program = solana_pubkey::Pubkey::new_from_array(program_id.0);
    solana_pubkey::Pubkey::try_find_program_address(&refs, &program)
        .map(|(k, bump)| (Pubkey(k.to_bytes()), bump))
}

/// The system program's address, `solana_sdk_ids::system_program::id()`: it is declared
/// as "11111111111111111111111111111111", the base58 text of 32 zero bytes.
#[verifier::external_body]
pub(crate) fn system_program_id() -> (r: Pubkey)
    ensures
        r@ == zero_key(),
{
    Pubkey(solana_sdk_ids::system_program::id().to_bytes())
}

} // verus!
