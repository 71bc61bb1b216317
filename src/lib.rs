//! Growth of on-chain records: a record's storage buffer is resized only
//! together with a top-up of its balance to the minimum that the platform
//! requires for the new size.

pub mod growth;
pub mod ledger;
pub mod record;

pub use growth::{top_up_amount, GrowthError};
pub use ledger::{can_pay, growth_outcome, lemma_shrink_needs_no_top_up, resize_account, Ledger, RentRate};
pub use record::{preserves_prefix, Funder, FunderState, Record, RecordState};
