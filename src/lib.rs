//! Portfolio positions: balances, interest accrual on cash holdings, and the
//! decisions behind refreshing a position's market price.
pub mod day_text;
pub mod moment;
pub mod position;
