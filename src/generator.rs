use rand::distributions::Alphanumeric;
use rand::Rng;
use vstd::prelude::*;

use crate::clock::{ClockError, Now, SystemNow};
use crate::transfer::Transfer;

verus! {

#[verifier::external_type_specification]
#[verifier::external_body]
pub struct ExThreadRng(rand::rngs::ThreadRng);

pub assume_specification[ rand::thread_rng ]() -> rand::rngs::ThreadRng;

/// Relies on `Rng::gen_range` over an inclusive range: a value within the
/// range (it panics only on an empty one).
#[verifier::external_body]
fn draw_between(rng: &mut rand::rngs::ThreadRng, low: u64, high: u64) -> (r: u64)
    requires
        low <= high,
    ensures
        low <= r <= high,
{
    rng.gen_range(low..=high)
}

/// Relies on `Rng::sample_iter` with the `Alphanumeric` distribution: `len`
/// characters, each an ASCII letter or digit.
#[verifier::external_body]
fn alphanumeric(rng: &mut rand::rngs::ThreadRng, len: usize) -> (r: String)
    ensures
        r@.len() == len,
        forall|i: int| 0 <= i < len ==> is_alphanumeric(#[trigger] r@[i]),
{
    (&mut *rng).sample_iter(&Alphanumeric).take(len).map(char::from).collect()
}

/// An ASCII letter or digit.
pub open spec fn is_alphanumeric(c: char) -> bool {
    ('A' <= c && c <= 'Z') || ('a' <= c && c <= 'z') || ('0' <= c && c <= '9')
}

/// Number of random characters after the `0x` of a generated address.
pub const ADDRESS_SUFFIX_LEN: usize = 10;

/// A generated address: `0x` followed by ten ASCII letters or digits.
pub open spec fn is_generated_address(s: Seq<char>) -> bool {
    &&& s.len() == 2 + ADDRESS_SUFFIX_LEN
    &&& s[0] == '0'
    &&& s[1] == 'x'
    &&& forall|i: int| 2 <= i < s.len() ==> is_alphanumeric(#[trigger] s[i])
}

/// Thirty days, in seconds.
pub const DEFAULT_MAX_AGE_SECS: u64 = 86_400 * 30;

/// Bounds of generated transfers: amounts in asset units, prices in cents
/// per unit, and how far back timestamps may reach.
#[derive(Debug, Clone, Copy, PartialEq, Eq, Structural)]
pub struct TransferGenConfig {
    pub min_amount: u64,
    pub max_amount: u64,
    pub min_price: u64,
    pub max_price: u64,
    pub max_age_secs: u64,
}

impl Default for TransferGenConfig {
    /// Amounts from 1 to 1000 units, prices from $0.10 to $2.00, timestamps
    /// within the last thirty days.
    fn default() -> (r: TransferGenConfig)
        ensures
            r == (TransferGenConfig {
                min_amount: 1,
                max_amount: 1000,
                min_price: 10,
                max_price: 200,
                max_age_secs: DEFAULT_MAX_AGE_SECS,
            }),
    {
        TransferGenConfig {
            min_amount: 1,
            max_amount: 1000,
            min_price: 10,
            max_price: 200,
            max_age_secs: DEFAULT_MAX_AGE_SECS,
        }
    }
}

/// A transfer that `config` allows, dated within `max_age_secs` before `now`.
pub open spec fn generated_within(t: Transfer, config: TransferGenConfig, now: int) -> bool {
    &&& is_generated_address(t.from@)
    &&& is_generated_address(t.to@)
    &&& config.min_amount <= t.amount <= config.max_amount
    &&& config.min_price <= t.usd_price <= config.max_price
    &&& t.ts <= now
    &&& now <= t.ts + config.max_age_secs
}

/// Every transfer of `ts` is one that `config` allows relative to `now`.
pub open spec fn all_generated_within(ts: Seq<Transfer>, config: TransferGenConfig, now: int) -> bool {
    forall|i: int| 0 <= i < ts.len() ==> generated_within(#[trigger] ts[i], config, now)
}

/// Why no transfers could be generated.
#[derive(Debug, Clone, Copy, PartialEq, Eq, Structural)]
pub enum GenerateError {
    /// The system clock reads earlier than the Unix epoch.
    Clock,
    /// `min_amount` exceeds `max_amount`.
    EmptyAmountRange,
    /// `min_price` exceeds `max_price`.
    EmptyPriceRange,
}

/// A fresh random address.
fn rand_address(rng: &mut rand::rngs::ThreadRng) -> (r: String)
    ensures
        is_generated_address(r@),
{
    let suffix = alphanumeric(rng, ADDRESS_SUFFIX_LEN);
    let mut address = String::from_str("0x");
    proof {
        reveal_strlit("0x");
    }
    address.append(suffix.as_str());
    proof {
        assert forall|i: int| 2 <= i < address@.len() implies is_alphanumeric(
            #[trigger] address@[i],
        ) by {
            assert(address@[i] == suffix@[i - 2]);
        }
    }
    address
}

/// `count` random transfers within `config`, dated relative to `now`.
fn draw_transfers(
    config: &TransferGenConfig,
    rng: &mut rand::rngs::ThreadRng,
    now: u64,
    count: usize,
) -> (r: Vec<Transfer>)
    requires
        config.min_amount <= config.max_amount,
        config.min_price <= config.max_price,
    ensures
        r@.len() == count,
        forall|i: int| 0 <= i < count ==> generated_within(#[trigger] r@[i], *config, now as int),
{
    let mut out: Vec<Transfer> = Vec::new();
    let mut i: usize = 0;
    while i < count
        invariant
            i <= count,
            out@.len() == i,
            config.min_amount <= config.max_amount,
            config.min_price <= config.max_price,
            forall|m: int| 0 <= m < i ==> generated_within(#[trigger] out@[m], *config, now as int),
        decreases count - i,
    {
        let from = rand_address(rng);
        let to = rand_address(rng);
        let amount = draw_between(rng, config.min_amount, config.max_amount);
        let usd_price = draw_between(rng, config.min_price, config.max_price);
        let age = draw_between(rng, 0, config.max_age_secs);
        let ts = if age <= now {
            now - age
        } else {
            0
        };
        out.push(Transfer { ts, from, to, amount, usd_price });
        i = i + 1;
    }
    out
}

/// Something that produces transfers.
pub trait TransferGenerator {
    fn generate(&self, count: usize) -> Result<Vec<Transfer>, GenerateError>;
}

/// Generates random transfers between random addresses within its `config`.
pub struct DefaultTransferGenerator {
    pub config: TransferGenConfig,
}

impl Default for DefaultTransferGenerator {
    fn default() -> (r: DefaultTransferGenerator)
        ensures
            r.config.min_amount == 1 && r.config.max_amount == 1000,
            r.config.min_price == 10 && r.config.max_price == 200,
            r.config.max_age_secs == DEFAULT_MAX_AGE_SECS,
    {
        DefaultTransferGenerator { config: TransferGenConfig::default() }
    }
}

impl TransferGenerator for DefaultTransferGenerator {
    /// `count` transfers dated within `max_age_secs` before one reading of
    /// the clock; fails on an empty amount or price range, or a clock before
    /// the epoch.
    fn generate(&self, count: usize) -> (r: Result<Vec<Transfer>, GenerateError>)
        ensures
            self.config.min_amount > self.config.max_amount ==> r == Err::<Vec<Transfer>, GenerateError>(
                GenerateError::EmptyAmountRange,
            ),
            self.config.min_amount <= self.config.max_amount && self.config.min_price
                > self.config.max_price ==> r == Err::<Vec<Transfer>, GenerateError>(
                GenerateError::EmptyPriceRange,
            ),
            self.config.min_amount <= self.config.max_amount && self.config.min_price
                <= self.config.max_price ==> (r is Ok || r == Err::<Vec<Transfer>, GenerateError>(
                GenerateError::Clock,
            )),
            r matches Ok(v) ==> v@.len() == count && exists|now: int|
                #[trigger] all_generated_within(v@, self.config, now),
    {
        if self.config.min_amount > self.config.max_amount {
            return Err(GenerateError::EmptyAmountRange);
        }
        if self.config.min_price > self.config.max_price {
            return Err(GenerateError::EmptyPriceRange);
        }
        let mut rng = rand::thread_rng();
        let now = match SystemNow::now_unix() {
            Ok(seconds) => seconds,
            Err(ClockError) => return Err(GenerateError::Clock),
        };
        let transfers = draw_transfers(&self.config, &mut rng, now, count);
        proof {
            assert(all_generated_within(transfers@, self.config, now as int));
        }
        Ok(transfers)
    }
}

/// Builds a [`DefaultTransferGenerator`].
pub struct GeneratorBuilder {
    config: TransferGenConfig,
}

impl GeneratorBuilder {
    /// The configuration that the built generator will use.
    pub closed spec fn settings(&self) -> TransferGenConfig {
        self.config
    }

    pub fn with_config(self, config: TransferGenConfig) -> (r: GeneratorBuilder)
        ensures
            r.settings() == config,
    {
        GeneratorBuilder { config }
    }

    pub fn build(self) -> (r: DefaultTransferGenerator)
        ensures
            r.config == self.settings(),
    {
        DefaultTransferGenerator { config: self.config }
    }
}

/// A builder that starts from the default configuration.
pub fn generator() -> (r: GeneratorBuilder)
    ensures
        r.settings() == (TransferGenConfig {
            min_amount: 1,
            max_amount: 1000,
            min_price: 10,
            max_price: 200,
            max_age_secs: DEFAULT_MAX_AGE_SECS,
        }),
{
    GeneratorBuilder { config: TransferGenConfig::default() }
}

} // verus!
