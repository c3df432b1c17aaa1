use vstd::prelude::*;

verus! {

/// One atomic movement of `amount` units of the asset from `from` to `to`,
/// at `usd_price` cents per unit, at `ts` seconds since the Unix epoch.
#[derive(Debug, Clone, PartialEq, Eq)]
pub struct Transfer {
    pub ts: u64,
    pub from: String,
    pub to: String,
    pub amount: u64,
    pub usd_price: u64,
}

impl Transfer {
    /// A field-by-field copy.
    pub fn duplicate(&self) -> (r: Transfer)
        ensures
            r == *self,
    {
        Transfer {
            ts: self.ts,
            from: self.from.clone(),
            to: self.to.clone(),
            amount: self.amount,
            usd_price: self.usd_price,
        }
    }
}

impl Default for Transfer {
    fn default() -> (r: Transfer)
        ensures
            r.ts == 0,
            r.from@ == Seq::<char>::empty(),
            r.to@ == Seq::<char>::empty(),
            r.amount == 0,
            r.usd_price == 0,
    {
        Transfer { ts: 0, from: String::new(), to: String::new(), amount: 0, usd_price: 0 }
    }
}

/// The order in which a storage backend hands transfers out.
#[derive(Debug, Clone, Copy, PartialEq, Eq, Structural)]
pub enum TransferOrdering {
    /// As stored.
    Raw,
    /// Ascending by timestamp.
    Chronological,
    /// By transferred amount.
    ByVolume,
}

/// What is reported of one account.
pub struct UserStatsView {
    pub address: Seq<char>,
    pub total_volume: int,
    pub avg_buy_price: int,
    pub avg_sell_price: int,
    pub max_balance: int,
}

/// Summary of one account over a run: quantities in asset units, prices in
/// cents per unit (rounded down).
#[derive(Debug, Clone, PartialEq, Eq, Default)]
pub struct UserStats {
    pub address: String,
    pub total_volume: u128,
    pub avg_buy_price: u128,
    pub avg_sell_price: u128,
    pub max_balance: i128,
}

impl View for UserStats {
    type V = UserStatsView;

    open spec fn view(&self) -> UserStatsView {
        UserStatsView {
            address: self.address@,
            total_volume: self.total_volume as int,
            avg_buy_price: self.avg_buy_price as int,
            avg_sell_price: self.avg_sell_price as int,
            max_balance: self.max_balance as int,
        }
    }
}

} // verus!
