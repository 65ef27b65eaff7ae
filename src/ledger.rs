use vstd::prelude::*;

verus! {

/// A holding that an operation moves value between.
///
/// The vault is the escrow's own holding of the base asset; only the deal's
/// authority may move value out of it. The other holdings belong to the
/// parties, for the asset named in the variant.
#[derive(Clone, Copy, Debug, PartialEq, Eq, Structural)]
pub enum Holding {
    Vault,
    SellerBase,
    SellerQuote,
    BuyerBase,
    BuyerQuote,
    FeeBase,
    FeeQuote,
}

/// One instruction for the ledger. The host carries out the instructions
/// of an operation in order, all in one atomic unit of work.
#[derive(Clone, Copy, Debug, PartialEq, Eq, Structural)]
pub enum LedgerOp {
    /// Move `amount` units from one holding to another.
    Transfer { from: Holding, to: Holding, amount: u64 },
    /// Close the emptied vault; its storage deposit goes to the seller.
    CloseVault,
}

/// What one instruction adds to (or, negative, takes from) a holding.
pub open spec fn op_flow(op: LedgerOp, h: Holding) -> int {
    match op {
        LedgerOp::Transfer { from, to, amount } => {
            (if to == h { amount as int } else { 0 }) - (if from == h { amount as int } else { 0 })
        },
        LedgerOp::CloseVault => 0,
    }
}

/// Net change of a holding's balance over a sequence of instructions.
pub open spec fn net_flow(ops: Seq<LedgerOp>, h: Holding) -> int
    decreases ops.len(),
{
    if ops.len() == 0 {
        0
    } else {
        net_flow(ops.drop_last(), h) + op_flow(ops.last(), h)
    }
}

} // verus!
