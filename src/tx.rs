use vstd::prelude::*;

use crate::hexcode::{hex_chars, hex_decodes, hex_encode, is_hex_text, lemma_hex_round_trip};

verus! {

/// Which way a wallet transaction moved funds.
#[derive(Debug, Clone, Copy, PartialEq, Eq, Structural)]
pub enum Direction {
    Incoming,
    Outgoing,
}

/// Why a transaction descriptor could not be translated.
#[derive(Debug, Clone, Copy, PartialEq, Eq, Structural)]
pub enum TxError {
    /// A field the output record needs is absent from the descriptor.
    MissingField,
    /// The category is neither `send` nor `receive`.
    InvalidCategory,
    /// A transaction or block identifier is not 64 hex digits.
    InvalidHex,
}

/// One entry of the backend's transaction listing, as the backend reported it.
/// Fees are in satoshi, with the backend's sign (negative for fees paid).
#[derive(Debug)]
pub struct TxDescriptor {
    pub category: Option<String>,
    pub txid: Option<String>,
    pub blockhash: Option<String>,
    pub time: Option<u64>,
    pub label: Option<String>,
    pub fee: Option<i64>,
    pub replaceable: Option<String>,
}

/// The decoded transaction that a descriptor refers to.
#[derive(Debug)]
pub struct TxBody {
    /// Transaction id, as hex.
    pub txid: String,
    /// Canonical byte encoding of the whole transaction.
    pub raw: Vec<u8>,
    pub version: i32,
    pub lock_time: u32,
    pub weight: u64,
}

/// Block height reported for every transaction: the descriptor does not carry one.
pub const PLACEHOLDER_BLOCK_HEIGHT: u32 = 1;

/// A wallet transaction in the consumer's schema.
#[derive(Debug)]
pub struct NormalizedTx {
    pub block_height: u32,
    pub created_at: u64,
    pub direction: Direction,
    pub memo: Option<String>,
    pub txhash: String,
    /// The raw transaction, hex encoded.
    pub transaction: String,
    pub version: i32,
    pub lock_time: u32,
    pub size: usize,
    pub vsize: u64,
    pub weight: u64,
    pub rbf_optin: bool,
    /// Absolute fee, in satoshi.
    pub fee: u64,
}

pub open spec fn direction_of(category: Seq<char>) -> Option<Direction> {
    if category == "send"@ {
        Some(Direction::Outgoing)
    } else if category == "receive"@ {
        Some(Direction::Incoming)
    } else {
        None
    }
}

/// The first reason, if any, that `d` cannot be translated.
pub open spec fn translate_error(d: TxDescriptor) -> Option<TxError> {
    match d.category {
        None => Some(TxError::MissingField),
        Some(c) => if direction_of(c@).is_none() {
            Some(TxError::InvalidCategory)
        } else if d.time.is_none() || d.replaceable.is_none() {
            Some(TxError::MissingField)
        } else {
            None
        },
    }
}

/// The absolute value of the backend's fee, zero when it reports none.
pub open spec fn fee_spec(fee: Option<i64>) -> nat {
    match fee {
        None => 0,
        Some(f) => if f < 0 {
            (-f) as nat
        } else {
            f as nat
        },
    }
}

/// Virtual size: a quarter of the weight, rounded down.
pub open spec fn vsize_spec(weight: u64) -> u64 {
    weight / 4
}

/// Everything the translated record holds, given that translation succeeded.
pub open spec fn translated(d: TxDescriptor, b: TxBody, t: NormalizedTx) -> bool {
    &&& t.block_height == PLACEHOLDER_BLOCK_HEIGHT
    &&& Some(t.created_at) == d.time
    &&& Some(t.direction) == direction_of(d.category.unwrap()@)
    &&& t.memo == d.label
    &&& t.txhash == b.txid
    &&& t.transaction@ == hex_chars(b.raw@)
    &&& t.version == b.version
    &&& t.lock_time == b.lock_time
    &&& t.size == b.raw.len()
    &&& t.vsize == vsize_spec(b.weight)
    &&& t.weight == b.weight
    &&& t.rbf_optin == (d.replaceable.unwrap()@ == "yes"@)
    &&& t.fee as nat == fee_spec(d.fee)
}

/// Whether `s` holds exactly the characters of `lit`.
pub fn text_is(s: &String, lit: &str) -> (r: bool)
    ensures
        r == (s@ == lit@),
{
    *s == lit.to_owned()
}

pub fn clone_text(s: &Option<String>) -> (r: Option<String>)
    ensures
        r == *s,
{
    match s {
        Some(t) => Some(t.clone()),
        None => None,
    }
}

impl TxDescriptor {
    /// A field-for-field copy.
    pub fn duplicate(&self) -> (r: TxDescriptor)
        ensures
            r == *self,
    {
        TxDescriptor {
            category: clone_text(&self.category),
            txid: clone_text(&self.txid),
            blockhash: clone_text(&self.blockhash),
            time: self.time,
            label: clone_text(&self.label),
            fee: self.fee,
            replaceable: clone_text(&self.replaceable),
        }
    }
}

pub fn direction(category: &String) -> (r: Option<Direction>)
    ensures
        r == direction_of(category@),
{
    if text_is(category, "send") {
        Some(Direction::Outgoing)
    } else if text_is(category, "receive") {
        Some(Direction::Incoming)
    } else {
        None
    }
}

/// The absolute fee in satoshi.
pub fn fee_sat(fee: Option<i64>) -> (r: u64)
    ensures
        r as nat == fee_spec(fee),
{
    match fee {
        None => 0,
        Some(f) => if f < 0 {
            (0 - (f as i128)) as u64
        } else {
            f as u64
        },
    }
}

/// Translates one backend descriptor and its decoded transaction into the output record.
pub fn format_gdk_tx(d: &TxDescriptor, b: &TxBody) -> (r: Result<NormalizedTx, TxError>)
    ensures
        r.is_err() == translate_error(*d).is_some(),
        r matches Err(e) ==> Some(e) == translate_error(*d),
        r matches Ok(t) ==> translated(*d, *b, t),
{
    let direction = match &d.category {
        None => return Err(TxError::MissingField),
        Some(c) => match direction(c) {
            None => return Err(TxError::InvalidCategory),
            Some(dir) => dir,
        },
    };
    let created_at = match d.time {
        None => return Err(TxError::MissingField),
        Some(t) => t,
    };
    let rbf_optin = match &d.replaceable {
        None => return Err(TxError::MissingField),
        Some(s) => text_is(s, "yes"),
    };
    let transaction = hex_encode(b.raw.as_slice());
    Ok(NormalizedTx {
        block_height: PLACEHOLDER_BLOCK_HEIGHT,
        created_at,
        direction,
        memo: clone_text(&d.label),
        txhash: b.txid.clone(),
        transaction,
        version: b.version,
        lock_time: b.lock_time,
        size: b.raw.len(),
        vsize: b.weight / 4,
        weight: b.weight,
        rbf_optin,
        fee: fee_sat(d.fee),
    })
}

/// The hex text of a translated record decodes back to exactly the bytes of the
/// transaction it was made from.
pub proof fn lemma_transaction_text_round_trip(
    d: TxDescriptor,
    b: TxBody,
    t: NormalizedTx,
    decoded: Seq<u8>,
)
    requires
        translated(d, b, t),
    ensures
        is_hex_text(t.transaction@),
        hex_decodes(t.transaction@, b.raw@),
        hex_decodes(t.transaction@, decoded) ==> decoded == b.raw@,
{
    lemma_hex_round_trip(b.raw@, decoded);
}

} // verus!
