//! Per-account trading statistics folded from a chronologically ordered
//! sequence of asset transfers.

pub mod accumulator;
pub mod calculator;
pub mod clock;
pub mod config;
pub mod generator;
pub mod laws;
pub mod storage;
pub mod transfer;

pub use accumulator::{AccumulatorState, PriceAccumulator};
pub use calculator::{
    calculate_user_stats, fits_accumulator_limits, CalculatesStats, StatsCalculator,
};
pub use clock::{ClockError, Now, SystemNow};
pub use config::{ClickhouseClientConfig, ConfigError};
pub use generator::{
    generator, DefaultTransferGenerator, GenerateError, GeneratorBuilder, TransferGenConfig,
    TransferGenerator,
};
pub use storage::{
    copy_transfers, select_query, ClickhouseStorage, MockStorage, StorageError, StorageResult,
    TABLE,
};
pub use transfer::{Transfer, TransferOrdering, UserStats, UserStatsView};
