//! Account and note identifiers given as text.

use crate::engine::{
    account_id_from_bech32, account_id_from_hex, bech32_account_id_of, hex_account_id_of,
};
use crate::error::MultisigError;
use crate::hexcode::{starts_with, text_starts_with};
use vstd::prelude::*;
use vstd::string::*;

verus! {

/// An account ID of the ledger: two field elements.
#[derive(PartialEq, Eq, Structural, Debug, Clone, Copy)]
pub struct LedgerAccountId {
    pub prefix: u64,
    pub suffix: u64,
}

/// The text before the first `c`, or all of it.
pub open spec fn before_char(s: Seq<char>, c: char) -> Seq<char>
    decreases s.len(),
{
    if s.len() == 0 {
        s
    } else if s[0] == c {
        Seq::empty()
    } else {
        seq![s[0]] + before_char(s.skip(1), c)
    }
}

/// Text in one of the ledger's bech32 forms: testnet, mainnet or devnet.
pub open spec fn is_bech32_text(s: Seq<char>) -> bool {
    starts_with(s, seq!['m', 't', 's', 't', '1']) || starts_with(s, seq!['m', 'm', '1'])
        || starts_with(s, seq!['m', 'd', 'e', 'v', '1'])
}

/// The account ID written by an address, a bech32 ID or a hex ID.
pub open spec fn account_id_of_text(s: Seq<char>) -> Option<(u64, u64)> {
    let p = before_char(s, '_');
    if is_bech32_text(p) {
        bech32_account_id_of(p)
    } else {
        hex_account_id_of(p)
    }
}

/// A note ID with a `0x` prefix: kept when it starts with `0x` or `0X`, added otherwise.
pub open spec fn note_id_text(s: Seq<char>) -> Seq<char> {
    if starts_with(s, seq!['0', 'x']) || starts_with(s, seq!['0', 'X']) {
        s
    } else {
        seq!['0', 'x'] + s
    }
}

/// Relies on `str::split_once`: the text before the first `c`, or all of it.
#[verifier::external_body]
fn text_before(s: &str, c: char) -> (r: &str)
    ensures
        r@ == before_char(s@, c),
{
    s.split_once(c).map_or(s, |(a, _)| a)
}

/// Parses an account ID from a full address (the routing parameters after
/// `_` are dropped), a bech32 ID (`mtst1`, `mm1`, `mdev1`) or a hex ID.
pub fn parse_account_id(text: &str) -> (r: Result<LedgerAccountId, MultisigError>)
    ensures
        match r {
            Ok(id) => account_id_of_text(text@) == Some((id.prefix, id.suffix)),
            Err(e) => account_id_of_text(text@) is None && e == MultisigError::InvalidAccountId,
        },
{
    let part = text_before(text, '_');
    proof {
        reveal_strlit("mtst1");
        reveal_strlit("mm1");
        reveal_strlit("mdev1");
        assert("mtst1"@ =~= seq!['m', 't', 's', 't', '1']);
        assert("mm1"@ =~= seq!['m', 'm', '1']);
        assert("mdev1"@ =~= seq!['m', 'd', 'e', 'v', '1']);
    }
    let bech32 = text_starts_with(part, "mtst1") || text_starts_with(part, "mm1")
        || text_starts_with(part, "mdev1");
    let parsed = if bech32 {
        account_id_from_bech32(part)
    } else {
        account_id_from_hex(part)
    };
    match parsed {
        Some((prefix, suffix)) => Ok(LedgerAccountId { prefix, suffix }),
        None => Err(MultisigError::InvalidAccountId),
    }
}

/// Gives a note ID the `0x` prefix that the ledger's hex parser expects.
pub fn normalize_note_id(text: &str) -> (r: String)
    ensures
        r@ == note_id_text(text@),
{
    proof {
        reveal_strlit("0x");
        reveal_strlit("0X");
        assert("0x"@ =~= seq!['0', 'x']);
        assert("0X"@ =~= seq!['0', 'X']);
    }
    if text_starts_with(text, "0x") || text_starts_with(text, "0X") {
        text.to_owned()
    } else {
        let mut s = String::from_str("0x");
        s.append(text);
        assert(s@ =~= note_id_text(text@));
        s
    }
}

} // verus!
