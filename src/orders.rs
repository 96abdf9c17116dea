//! Layout of the inputs of a swap note for the order relay.

use crate::ids::LedgerAccountId;
use vstd::prelude::*;

verus! {

/// The twelve inputs of a swap note: the requested asset word, the deadline,
/// the tag of the payback note, four zeros, then the recipient's suffix and prefix.
pub open spec fn swap_inputs(
    requested_asset: [u64; 4],
    deadline: u64,
    p2id_tag: u32,
    recipient: LedgerAccountId,
) -> Seq<u64> {
    seq![
        requested_asset[0],
        requested_asset[1],
        requested_asset[2],
        requested_asset[3],
        deadline,
        p2id_tag as u64,
        0u64,
        0u64,
        0u64,
        0u64,
        recipient.suffix,
        recipient.prefix,
    ]
}

/// Builds the inputs of a swap note.
pub fn swap_note_inputs(
    requested_asset: &[u64; 4],
    deadline: u64,
    p2id_tag: u32,
    recipient: LedgerAccountId,
) -> (r: Vec<u64>)
    ensures
        r@ == swap_inputs(*requested_asset, deadline, p2id_tag, recipient),
{
    let r = vec![
        requested_asset[0],
        requested_asset[1],
        requested_asset[2],
        requested_asset[3],
        deadline,
        p2id_tag as u64,
        0,
        0,
        0,
        0,
        recipient.suffix,
        recipient.prefix,
    ];
    assert(r@ =~= swap_inputs(*requested_asset, deadline, p2id_tag, recipient));
    r
}

} // verus!
