use vstd::prelude::*;

verus! {

/// A stored user account.
///
/// `created_at` is the row's creation time in microseconds since the Unix epoch.
#[derive(Debug, Clone)]
pub struct User {
    pub id: i32,
    pub username: String,
    pub email: String,
    pub password_hash: String,
    pub created_at: i64,
}

/// The columns written when a user registers; the database assigns the id and
/// the creation time.
#[derive(Debug, Clone)]
pub struct NewUser {
    pub username: String,
    pub email: String,
    pub password_hash: String,
}

/// A stored trade offer.
///
/// `price_bits` is the IEEE-754 bit pattern of the price, carried unchanged;
/// `created_at` is the creation time in microseconds since the Unix epoch.
#[derive(Debug, Clone)]
pub struct Trade {
    pub id: i32,
    pub creator_id: i32,
    pub amount: i64,
    pub price_bits: u64,
    pub status: String,
    pub created_at: i64,
}

/// The columns written when a trade is inserted.
#[derive(Debug, Clone)]
pub struct NewTrade {
    pub creator_id: i32,
    pub amount: i64,
    pub price_bits: u64,
    pub status: String,
}

impl Trade {
    /// The insertable columns of this trade.
    pub fn to_new_trade(&self) -> (row: NewTrade)
        ensures
            row.creator_id == self.creator_id,
            row.amount == self.amount,
            row.price_bits == self.price_bits,
            row.status@ == self.status@,
    {
        NewTrade {
            creator_id: self.creator_id,
            amount: self.amount,
            price_bits: self.price_bits,
            status: self.status.clone(),
        }
    }
}

} // verus!
