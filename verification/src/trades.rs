use vstd::prelude::*;

use crate::error::ApiError;
use crate::models::Trade;

verus! {

/// The creator recorded on new trades until requests carry their user.
pub const DEFAULT_CREATOR_ID: i32 = 1;

/// The body of a request to open a trade; `price_bits` is the IEEE-754 bit
/// pattern of the price.
#[derive(Debug, Clone)]
pub struct CreateTradeData {
    pub amount: i64,
    pub price_bits: u64,
    pub side: String,
}

/// The body of a request to change a trade; absent fields stay as they are.
#[derive(Debug, Clone)]
pub struct UpdateTradeData {
    pub amount: Option<i64>,
    pub price_bits: Option<u64>,
    pub status: Option<String>,
}

/// The columns an update writes; each absent column is left untouched.
#[derive(Debug, Clone)]
pub struct TradeChanges {
    pub amount: Option<i64>,
    pub price_bits: Option<u64>,
    pub status: Option<String>,
}

/// Status of a trade that is open for takers.
pub open spec fn spec_open_status() -> Seq<char> {
    "Open"@
}

/// Status of a trade that has been closed.
pub open spec fn spec_closed_status() -> Seq<char> {
    "Closed"@
}

/// Two trades agree on every column, comparing texts by their characters.
pub open spec fn same_trade(a: Trade, b: Trade) -> bool {
    &&& a.id == b.id
    &&& a.creator_id == b.creator_id
    &&& a.amount == b.amount
    &&& a.price_bits == b.price_bits
    &&& a.status@ == b.status@
    &&& a.created_at == b.created_at
}

impl TradeChanges {
    /// The row that results from writing these changes over `trade`.
    pub open spec fn applied_to(self, trade: Trade) -> Trade {
        Trade {
            id: trade.id,
            creator_id: trade.creator_id,
            amount: match self.amount {
                Some(a) => a,
                None => trade.amount,
            },
            price_bits: match self.price_bits {
                Some(p) => p,
                None => trade.price_bits,
            },
            status: match self.status {
                Some(s) => s,
                None => trade.status,
            },
            created_at: trade.created_at,
        }
    }
}

/// The trade recorded for a creation request made at `created_at`
/// (microseconds since the Unix epoch): id 0 until the database assigns one,
/// the default creator, the requested amount and price, and status "Open".
pub fn create_trade(data: &CreateTradeData, created_at: i64) -> (trade: Trade)
    ensures
        trade.id == 0,
        trade.creator_id == DEFAULT_CREATOR_ID,
        trade.amount == data.amount,
        trade.price_bits == data.price_bits,
        trade.status@ == spec_open_status(),
        trade.created_at == created_at,
{
    proof {
        reveal_strlit("Open");
    }
    Trade {
        id: 0,
        creator_id: DEFAULT_CREATOR_ID,
        amount: data.amount,
        price_bits: data.price_bits,
        status: String::from_str("Open"),
        created_at,
    }
}

/// The answer to a request for one trade, given what the lookup by id found.
pub fn get_trade(found: Option<Trade>) -> (r: Result<Trade, ApiError>)
    ensures
        found matches Some(t) ==> r matches Ok(u) && same_trade(u, t),
        found is None ==> r == Err::<Trade, ApiError>(ApiError::NotFound),
{
    match found {
        Some(t) => Ok(t),
        None => Err(ApiError::NotFound),
    }
}

/// `c` writes exactly the columns that `update` supplies, with its values.
pub open spec fn changes_for(update: UpdateTradeData, c: TradeChanges) -> bool {
    &&& c.amount == update.amount
    &&& c.price_bits == update.price_bits
    &&& (c.status is Some <==> update.status is Some)
    &&& (update.status matches Some(s) ==> c.status->Some_0@ == s@)
}

/// The columns to write for an update request, or `None` when the request
/// names no column, in which case nothing is written.
pub fn update_trade(update: &UpdateTradeData) -> (r: Option<TradeChanges>)
    ensures
        r is None <==> (update.amount is None && update.price_bits is None && update.status is None),
        r matches Some(c) ==> changes_for(*update, c),
{
    if update.amount.is_none() && update.price_bits.is_none() && update.status.is_none() {
        None
    } else {
        let status = match &update.status {
            Some(s) => Some(s.clone()),
            None => None,
        };
        Some(TradeChanges { amount: update.amount, price_bits: update.price_bits, status })
    }
}

/// The columns to write to close a trade: its status becomes "Closed".
pub fn close_trade() -> (c: TradeChanges)
    ensures
        c.amount is None,
        c.price_bits is None,
        c.status matches Some(s) && s@ == spec_closed_status(),
{
    proof {
        reveal_strlit("Closed");
    }
    TradeChanges { amount: None, price_bits: None, status: Some(String::from_str("Closed")) }
}

/// The status texts are spelled "Open" and "Closed", and they differ: a newly
/// created trade is never already closed.
pub proof fn lemma_status_texts()
    ensures
        spec_open_status() =~= seq!['O', 'p', 'e', 'n'],
        spec_closed_status() =~= seq!['C', 'l', 'o', 's', 'e', 'd'],
        spec_open_status() != spec_closed_status(),
{
    reveal_strlit("Open");
    reveal_strlit("Closed");
    assert(spec_open_status().len() != spec_closed_status().len());
}

/// An update changes exactly the columns the request supplies, to the
/// supplied values, and keeps the id, the creator and the creation time.
pub proof fn lemma_update_writes_supplied_columns(update: UpdateTradeData, c: TradeChanges, trade: Trade)
    requires
        changes_for(update, c),
    ensures
        c.applied_to(trade).id == trade.id,
        c.applied_to(trade).creator_id == trade.creator_id,
        c.applied_to(trade).created_at == trade.created_at,
        c.applied_to(trade).amount == (match update.amount { Some(a) => a, None => trade.amount }),
        c.applied_to(trade).price_bits == (match update.price_bits { Some(p) => p, None => trade.price_bits }),
        c.applied_to(trade).status@ == (match update.status { Some(s) => s@, None => trade.status@ }),
{
}

/// Writing the same changes twice leaves the row as writing them once.
pub proof fn lemma_changes_idempotent(c: TradeChanges, trade: Trade)
    ensures
        c.applied_to(c.applied_to(trade)) == c.applied_to(trade),
{
}

/// Closing a trade sets its status to "Closed" and keeps every other column;
/// closing it again changes nothing more.
pub proof fn lemma_close_sets_closed(c: TradeChanges, trade: Trade)
    requires
        c.amount is None,
        c.price_bits is None,
        c.status matches Some(s) && s@ == spec_closed_status(),
    ensures
        c.applied_to(trade).status@ == spec_closed_status(),
        c.applied_to(trade).id == trade.id,
        c.applied_to(trade).creator_id == trade.creator_id,
        c.applied_to(trade).amount == trade.amount,
        c.applied_to(trade).price_bits == trade.price_bits,
        c.applied_to(trade).created_at == trade.created_at,
        c.applied_to(c.applied_to(trade)) == c.applied_to(trade),
{
}

} // verus!
