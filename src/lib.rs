//! Escrow for a bilateral over-the-counter swap of a base asset against a
//! quote asset, with a protocol fee withheld from the buyer's payment.
//!
//! The library holds the deal record and the settlement engine: every
//! operation checks its guards, updates the record and hands back the ledger
//! instructions that the host must carry out in the same atomic unit of work.
pub mod deal;
pub mod engine;
pub mod error;
pub mod events;
pub mod laws;
pub mod ledger;

pub use deal::{Address, Deal, DealStatus, BPS_DENOMINATOR, FEE_BPS};
pub use engine::{
    accept_and_settle, cancel_deal, deposit_base, initialize_deal, reclaim_expired,
    settlement_amounts, AcceptAndSettle, CancelDeal, DepositBase, InitializeDeal, ReclaimExpired,
    SELLER_FEE,
};
pub use error::ZetoError;
pub use events::{DealCancelled, DealFunded, DealInitialized, DealSettled};
pub use ledger::{Holding, LedgerOp};
