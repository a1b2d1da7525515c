//! Staking-reward CSV conversion: turns exchange, explorer and aggregator
//! staking-income exports into tax-tool CSV schemas, restricted to an
//! inclusive date window and filtered to staking events.
//!
//! The pipeline in [`pipeline`] makes one ordered pass over the input rows:
//! each data row is read by the chosen input schema ([`records`]), filtered
//! by the date window ([`range`], [`timestamp`]) and the schema's acceptance
//! predicate, mapped to the chosen output schema ([`output`]), and rendered
//! as tabular text ([`csv`]).  Any malformed row fails the whole run
//! ([`error`]); filtered rows are skipped silently.

pub mod csv;
pub mod error;
pub mod formats;
pub mod numeric;
pub mod output;
pub mod pipeline;
pub mod range;
pub mod records;
pub mod text;
pub mod timestamp;
