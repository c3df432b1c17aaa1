use vstd::prelude::*;

verus! {

/// Mathematical picture of a [`PriceAccumulator`]: the same six figures as
/// unbounded integers.
pub struct AccumulatorState {
    pub weight_sell_amount: int,
    pub weight_buy_amount: int,
    pub buy_volume: int,
    pub sell_volume: int,
    pub max_balance: int,
    pub balance: int,
}

/// The state of an account that has not taken part in any transfer yet.
pub open spec fn empty_state() -> AccumulatorState {
    AccumulatorState {
        weight_sell_amount: 0,
        weight_buy_amount: 0,
        buy_volume: 0,
        sell_volume: 0,
        max_balance: 0,
        balance: 0,
    }
}

/// One event folded into an account: a positive `amount` is a purchase, a
/// negative one a sale, both at `price` per unit.  The balance moves by
/// `amount` in every case and the peak balance follows it upwards.
pub open spec fn applied(s: AccumulatorState, amount: int, price: int) -> AccumulatorState {
    let balance = s.balance + amount;
    AccumulatorState {
        weight_sell_amount: if amount < 0 {
            s.weight_sell_amount + (-amount) * price
        } else {
            s.weight_sell_amount
        },
        weight_buy_amount: if amount > 0 {
            s.weight_buy_amount + amount * price
        } else {
            s.weight_buy_amount
        },
        buy_volume: if amount > 0 {
            s.buy_volume + amount
        } else {
            s.buy_volume
        },
        sell_volume: if amount < 0 {
            s.sell_volume - amount
        } else {
            s.sell_volume
        },
        max_balance: if balance > s.max_balance {
            balance
        } else {
            s.max_balance
        },
        balance,
    }
}

/// Volume-weighted average price: `weight / volume` rounded down to a whole
/// price unit, and zero when nothing was traded.
pub open spec fn average_price(weight: int, volume: int) -> int {
    if volume == 0 {
        0
    } else {
        weight / volume
    }
}

/// Every figure of `s` fits the machine integer that holds it, and so does
/// the total volume.
pub open spec fn within_limits(s: AccumulatorState) -> bool {
    &&& i128::MIN <= s.balance <= i128::MAX
    &&& i128::MIN <= s.max_balance <= i128::MAX
    &&& 0 <= s.buy_volume
    &&& 0 <= s.sell_volume
    &&& s.buy_volume + s.sell_volume <= u128::MAX
    &&& 0 <= s.weight_buy_amount <= u128::MAX
    &&& 0 <= s.weight_sell_amount <= u128::MAX
}

/// Running buy/sell figures of one account.  Quantities are whole asset units
/// and prices whole minor currency units (cents), so that every figure is exact.
#[derive(Debug)]
pub struct PriceAccumulator {
    /// Total paid to this account when it sold: quantity times unit price.
    pub weight_sell_amount: u128,
    /// Total paid by this account when it bought: quantity times unit price.
    pub weight_buy_amount: u128,
    pub buy_volume: u128,
    pub sell_volume: u128,
    pub max_balance: i128,
    pub balance: i128,
}

impl View for PriceAccumulator {
    type V = AccumulatorState;

    open spec fn view(&self) -> AccumulatorState {
        AccumulatorState {
            weight_sell_amount: self.weight_sell_amount as int,
            weight_buy_amount: self.weight_buy_amount as int,
            buy_volume: self.buy_volume as int,
            sell_volume: self.sell_volume as int,
            max_balance: self.max_balance as int,
            balance: self.balance as int,
        }
    }
}

impl Default for PriceAccumulator {
    fn default() -> (r: PriceAccumulator)
        ensures
            r@ == empty_state(),
    {
        PriceAccumulator {
            weight_sell_amount: 0,
            weight_buy_amount: 0,
            buy_volume: 0,
            sell_volume: 0,
            max_balance: 0,
            balance: 0,
        }
    }
}

impl PriceAccumulator {
    /// Whether folding `amount` at `usd_price` keeps every figure within its
    /// machine integer.
    pub open spec fn can_apply(&self, amount: int, usd_price: int) -> bool {
        within_limits(applied(self@, amount, usd_price))
    }

    /// Folds one event into the account: a positive `amount` was received
    /// (bought), a negative one was sent (sold), at `usd_price` per unit.
    pub fn accumulate(&mut self, amount: i128, usd_price: u64)
        requires
            old(self).can_apply(amount as int, usd_price as int),
        ensures
            final(self)@ == applied(old(self)@, amount as int, usd_price as int),
    {
        self.balance = self.balance + amount;
        if amount > 0 {
            let quantity = amount as u128;
            assert(quantity * (usd_price as u128) == amount * usd_price);
            self.weight_buy_amount = self.weight_buy_amount + quantity * (usd_price as u128);
            self.buy_volume = self.buy_volume + quantity;
        } else if amount < 0 {
            let quantity = (-(amount + 1)) as u128 + 1;
            assert(quantity * (usd_price as u128) == (-amount) * usd_price);
            self.weight_sell_amount = self.weight_sell_amount + quantity * (usd_price as u128);
            self.sell_volume = self.sell_volume + quantity;
        }
        if self.balance > self.max_balance {
            self.max_balance = self.balance;
        }
    }

    /// Average unit price paid on purchases; zero for an account that never bought.
    pub fn avg_buy_price(&self) -> (r: u128)
        ensures
            r == average_price(self.weight_buy_amount as int, self.buy_volume as int),
    {
        if self.buy_volume == 0 {
            return 0;
        }
        self.weight_buy_amount / self.buy_volume
    }

    /// Average unit price obtained on sales; zero for an account that never sold.
    pub fn avg_sell_price(&self) -> (r: u128)
        ensures
            r == average_price(self.weight_sell_amount as int, self.sell_volume as int),
    {
        if self.sell_volume == 0 {
            return 0;
        }
        self.weight_sell_amount / self.sell_volume
    }

    /// Quantity bought plus quantity sold.
    pub fn total_volume(&self) -> (r: u128)
        requires
            self.buy_volume + self.sell_volume <= u128::MAX,
        ensures
            r == self.buy_volume + self.sell_volume,
    {
        self.sell_volume + self.buy_volume
    }

    /// Highest balance reached so far, counting the initial zero.
    pub fn max_balance(&self) -> (r: i128)
        ensures
            r == self.max_balance,
    {
        self.max_balance
    }
}

} // verus!
