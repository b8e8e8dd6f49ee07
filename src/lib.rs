//! Share price history comparison: price normalization, per-moment movements
//! between a current price and stored historical prices, and the cell layout
//! of the comparison report.

pub mod compare;
pub mod config;
pub mod laws;
pub mod price;
pub mod report;
pub mod share;
pub mod text;
pub mod timestamp;

pub use compare::{compare, Direction, Movement};
pub use config::ConnectionDetails;
pub use price::{normalize_price_text, Price, PriceError, MAX_PRICE_SCALE, PRICE_UNITS_BOUND};
pub use report::{build_header, build_report, build_row, Cell, Report, Tag};
pub use share::{Share, ShareMoment, ShareTimeline, StoredPrice, TimelineError};
pub use timestamp::Timestamp;
