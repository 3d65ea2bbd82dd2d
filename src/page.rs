use vstd::prelude::*;

use crate::hexcode::{hex_decode, is_hex_text};
use crate::tx::{
    format_gdk_tx, text_is, translate_error, translated, NormalizedTx, TxBody, TxDescriptor,
    TxError,
};

verus! {

/// Number of transactions requested from the backend per page.
pub const PER_PAGE: u32 = 10;

/// One page of the wallet's transaction history.
#[derive(Debug)]
pub struct Page {
    pub list: Vec<NormalizedTx>,
    pub page_id: u32,
    /// Present when the backend filled the whole window, so more may follow.
    pub next_page_id: Option<u64>,
}

pub open spec fn next_page_spec(page_id: u32, returned: nat) -> Option<u64> {
    if returned == PER_PAGE as nat {
        Some((page_id + 1) as u64)
    } else {
        None
    }
}

/// The window of the backend's listing that page `page_id` covers: how many entries
/// to ask for, and how many of the most recent to skip.
pub fn page_window(page_id: u32) -> (r: (u32, u64))
    ensures
        r.0 == PER_PAGE,
        r.1 == PER_PAGE * page_id,
{
    (PER_PAGE, PER_PAGE as u64 * page_id as u64)
}

/// The page that follows `page_id`, when the backend filled the whole window.
pub fn next_page_id(page_id: u32, returned: usize) -> (r: Option<u64>)
    ensures
        r == next_page_spec(page_id, returned as nat),
{
    if returned == PER_PAGE as usize {
        Some(page_id as u64 + 1)
    } else {
        None
    }
}

/// Coinbase rewards that have not matured yet.
pub open spec fn is_immature(d: TxDescriptor) -> bool {
    d.category matches Some(c) && c@ == "immature"@
}

pub open spec fn is_visible(d: TxDescriptor) -> bool {
    !is_immature(d)
}

/// The listed entries that belong in the history, in the backend's order.
pub open spec fn visible_spec(listed: Seq<TxDescriptor>) -> Seq<TxDescriptor> {
    listed.filter(|d: TxDescriptor| is_visible(d))
}

/// Drops the immature entries of a listing and keeps the rest in order.
pub fn visible_descriptors(listed: &Vec<TxDescriptor>) -> (r: Vec<TxDescriptor>)
    ensures
        r@ == visible_spec(listed@),
{
    let mut r: Vec<TxDescriptor> = Vec::new();
    let mut i: usize = 0;
    while i < listed.len()
        invariant
            i <= listed.len(),
            r@ == visible_spec(listed@.subrange(0, i as int)),
        decreases listed.len() - i,
    {
        let d = &listed[i];
        let immature = match &d.category {
            Some(c) => text_is(c, "immature"),
            None => false,
        };
        assert(immature == is_immature(listed@[i as int]));
        assert(listed@.subrange(0, i + 1).drop_last() =~= listed@.subrange(0, i as int));
        assert(listed@.subrange(0, i + 1).last() == listed@[i as int]);
        proof {
            reveal(Seq::filter);
            let next = listed@.subrange(0, i + 1);
            assert(visible_spec(next) == if is_visible(listed@[i as int]) {
                visible_spec(listed@.subrange(0, i as int)).push(listed@[i as int])
            } else {
                visible_spec(listed@.subrange(0, i as int))
            });
        }
        if !immature {
            r.push(d.duplicate());
        }
        i = i + 1;
    }
    assert(listed@.subrange(0, listed.len() as int) =~= listed@);
    r
}

/// No immature entry survives into the visible part of a listing.
pub proof fn lemma_visible_has_no_immature(listed: Seq<TxDescriptor>)
    ensures
        forall|i: int| 0 <= i < visible_spec(listed).len() ==> !is_immature(
            #[trigger] visible_spec(listed)[i],
        ),
{
    assert forall|i: int| 0 <= i < visible_spec(listed).len() implies !is_immature(
        #[trigger] visible_spec(listed)[i],
    ) by {
        listed.lemma_filter_pred(|d: TxDescriptor| is_visible(d), i);
    }
}

pub open spec fn is_block_id(s: Seq<char>) -> bool {
    s.len() == 64 && is_hex_text(s)
}

/// Checks that `s` is 32 bytes in hex, as transaction and block ids are.
pub fn check_id(s: &String) -> (r: bool)
    ensures
        r == is_block_id(s@),
{
    match hex_decode(s.as_str()) {
        Some(v) => v.len() == 32,
        None => false,
    }
}

/// The identifiers by which the body of `d` is fetched: its transaction id and the
/// hash of the block that holds it.
pub fn body_ids(d: &TxDescriptor) -> (r: Result<(String, String), TxError>)
    ensures
        d.txid.is_none() || d.blockhash.is_none() ==> r == Err::<(String, String), TxError>(
            TxError::MissingField,
        ),
        d.txid.is_some() && d.blockhash.is_some() ==> {
            let (t, b) = (d.txid.unwrap(), d.blockhash.unwrap());
            if is_block_id(t@) && is_block_id(b@) {
                r == Ok::<(String, String), TxError>((t, b))
            } else {
                r == Err::<(String, String), TxError>(TxError::InvalidHex)
            }
        },
{
    match (&d.txid, &d.blockhash) {
        (Some(t), Some(b)) => {
            if check_id(t) && check_id(b) {
                Ok((t.clone(), b.clone()))
            } else {
                Err(TxError::InvalidHex)
            }
        },
        _ => Err(TxError::MissingField),
    }
}

/// Assembles page `page_id` from the visible entries of a listing that returned
/// `returned` entries, and the body fetched for each of them. One entry that cannot be
/// translated fails the whole page, with the error of the first such entry.
pub fn build_page(
    page_id: u32,
    returned: usize,
    visible: &Vec<TxDescriptor>,
    bodies: &Vec<TxBody>,
) -> (r: Result<Page, TxError>)
    requires
        visible.len() == bodies.len(),
    ensures
        r.is_err() == exists|i: int|
            0 <= i < visible.len() && (#[trigger] translate_error(visible@[i])).is_some(),
        r matches Err(e) ==> exists|i: int|
            0 <= i < visible.len() && #[trigger] translate_error(visible@[i]) == Some(e) && forall|
                j: int,
            | 0 <= j < i ==> translate_error(#[trigger] visible@[j]).is_none(),
        r matches Ok(p) ==> {
            &&& p.page_id == page_id
            &&& p.next_page_id == next_page_spec(page_id, returned as nat)
            &&& p.list.len() == visible.len()
            &&& forall|i: int|
                0 <= i < visible.len() ==> translated(visible@[i], bodies@[i], #[trigger] p.list@[i])
        },
{
    let mut list: Vec<NormalizedTx> = Vec::new();
    let mut i: usize = 0;
    while i < visible.len()
        invariant
            i <= visible.len(),
            visible.len() == bodies.len(),
            list.len() == i,
            forall|j: int| 0 <= j < i ==> translate_error(#[trigger] visible@[j]).is_none(),
            forall|j: int| 0 <= j < i ==> translated(visible@[j], bodies@[j], #[trigger] list@[j]),
        decreases visible.len() - i,
    {
        match format_gdk_tx(&visible[i], &bodies[i]) {
            Ok(t) => list.push(t),
            Err(e) => return Err(e),
        }
        i = i + 1;
    }
    Ok(Page { list, page_id, next_page_id: next_page_id(page_id, returned) })
}

} // verus!
