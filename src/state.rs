use vstd::prelude::*;

verus! {

/// The 32-byte address of an account on the ledger.
#[derive(Clone, Copy, Debug)]
pub struct Pubkey {
    pub bytes: [u8; 32],
}

impl PartialEq for Pubkey {
    fn eq(&self, other: &Pubkey) -> (r: bool)
        ensures
            r == (*self == *other),
    {
        let mut i: usize = 0;
        while i < 32
            invariant
                0 <= i <= 32,
                self.bytes@.len() == 32,
                other.bytes@.len() == 32,
                forall|j: int| 0 <= j < i ==> self.bytes@[j] == other.bytes@[j],
            decreases 32 - i,
        {
            if self.bytes[i] != other.bytes[i] {
                assert(self.bytes@[i as int] != other.bytes@[i as int]);
                return false;
            }
            i = i + 1;
        }
        proof {
            broadcast use vstd::array::axiom_array_ext_equal;
            assert(self.bytes =~= other.bytes);
        }
        true
    }
}

impl vstd::std_specs::cmp::PartialEqSpecImpl for Pubkey {
    open spec fn obeys_eq_spec() -> bool {
        true
    }

    open spec fn eq_spec(&self, other: &Pubkey) -> bool {
        *self == *other
    }
}

impl Eq for Pubkey {}

/// A named collection of tracked tokens, owned by one authority.
pub struct TokenTracker {
    /// The only account that may register tokens under this tracker.
    pub authority: Pubkey,
    pub name: String,
    /// How many token records were ever added under this tracker.
    pub token_count: u64,
}

/// One tracked token: its identity and its latest market and risk state.
pub struct TokenData {
    pub token_address: Pubkey,
    pub token_name: String,
    pub token_symbol: String,
    /// Ledger time at which the record was created.
    pub added_at: i64,
    /// Ledger time of the latest price update; `0` until the first one.
    pub last_price_update: i64,
    /// Price in USD, fixed point with 6 decimals.
    pub price_usd: u64,
    /// Price in SOL, fixed point with 9 decimals.
    pub price_sol: u64,
    /// Risk score, meant as 0 to 100 but not checked.
    pub risk_score: u8,
    pub is_active: bool,
}

/// Bytes the ledger reserves in front of every record to tell its kind.
pub const DISCRIMINATOR_LEN: u64 = 8;

/// Bytes allocated for a tracker record.
pub const TRACKER_SPACE: u64 = 84;

/// Bytes allocated for a token record.
pub const TOKEN_DATA_SPACE: u64 = 154;

/// Number of bytes in the UTF-8 encoding of `s`.
pub open spec fn byte_len(s: Seq<char>) -> nat {
    vstd::utf8::encode_utf8(s).len()
}

/// Size of a stored tracker whose name has `name_len` bytes: tag, key,
/// length-prefixed name, counter.
pub open spec fn tracker_size(name_len: nat) -> nat {
    (DISCRIMINATOR_LEN + 32 + 4 + name_len + 8) as nat
}

/// Size of a stored token record whose name and symbol have `name_len` and
/// `symbol_len` bytes.
pub open spec fn token_data_size(name_len: nat, symbol_len: nat) -> nat {
    (DISCRIMINATOR_LEN + 32 + (4 + name_len) + (4 + symbol_len) + 8 + 8 + 8 + 8 + 1 + 1) as nat
}

/// Whether a tracker named `name` fits the space allocated for it.
pub open spec fn tracker_fits(name: Seq<char>) -> bool {
    tracker_size(byte_len(name)) <= TRACKER_SPACE
}

/// Whether a token record with this name and symbol fits its space.
pub open spec fn token_data_fits(name: Seq<char>, symbol: Seq<char>) -> bool {
    token_data_size(byte_len(name), byte_len(symbol)) <= TOKEN_DATA_SPACE
}

/// Number of bytes in the UTF-8 encoding of `s`.
pub fn utf8_len(s: &String) -> (r: usize)
    ensures
        r == byte_len(s@),
{
    s.as_str().as_bytes().len()
}

/// Checks whether a tracker named `name` fits [`TRACKER_SPACE`].
pub fn tracker_name_fits(name: &String) -> (r: bool)
    ensures
        r == tracker_fits(name@),
{
    let n: usize = utf8_len(name);
    n as u64 <= TRACKER_SPACE - (DISCRIMINATOR_LEN + 32 + 4 + 8)
}

/// Checks whether a token record with this name and symbol fits
/// [`TOKEN_DATA_SPACE`].
pub fn token_strings_fit(name: &String, symbol: &String) -> (r: bool)
    ensures
        r == token_data_fits(name@, symbol@),
{
    let n: usize = utf8_len(name);
    let s: usize = utf8_len(symbol);
    let room: u64 = TOKEN_DATA_SPACE - (DISCRIMINATOR_LEN + 32 + 4 + 4 + 8 + 8 + 8 + 8 + 1 + 1);
    n as u64 <= room && s as u64 <= room - n as u64
}

} // verus!
