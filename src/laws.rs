use vstd::prelude::*;
use crate::deal::{Address, Deal, DealStatus};
use crate::engine::{
    buyer_fee_of, cancel_refusal, deposit_refusal, funding_ops, initial_deal, initialize_refusal,
    reclaim_refusal, refund_ops, settle_refusal, settlement_ops, InitializeDeal, SELLER_FEE,
};
use crate::error::ZetoError;
use crate::ledger::{net_flow, op_flow, Holding, LedgerOp};

verus! {

/// Net flow over one instruction is that instruction's flow.
pub proof fn lemma_net_flow_single(op: LedgerOp, h: Holding)
    ensures
        net_flow(seq![op], h) == op_flow(op, h),
{
    assert(seq![op].drop_last() =~= Seq::<LedgerOp>::empty());
    assert(net_flow(Seq::<LedgerOp>::empty(), h) == 0);
    assert(seq![op].last() == op);
}

/// Net flow adds up over concatenated instruction sequences.
pub proof fn lemma_net_flow_concat(s: Seq<LedgerOp>, t: Seq<LedgerOp>, h: Holding)
    ensures
        net_flow(s + t, h) == net_flow(s, h) + net_flow(t, h),
    decreases t.len(),
{
    if t.len() == 0 {
        assert(s + t =~= s);
    } else {
        assert((s + t).drop_last() =~= s + t.drop_last());
        lemma_net_flow_concat(s, t.drop_last(), h);
    }
}

/// A first creation with valid terms succeeds and leaves a well-formed
/// record with status `Initialized`; a second creation for the same
/// identifier is always refused because the record exists.
pub proof fn law_initialize_once(
    ctx: InitializeDeal,
    deal_id: [u8; 32],
    base_amount: u64,
    quote_amount: u64,
    expiry_ts: i64,
    now: i64,
)
    requires
        expiry_ts > now,
        base_amount > 0,
        quote_amount > 0,
    ensures
        initialize_refusal(false, base_amount, quote_amount, expiry_ts, now) is None,
        initial_deal(ctx, deal_id, base_amount, quote_amount, expiry_ts, now).status
            == DealStatus::Initialized,
        initial_deal(ctx, deal_id, base_amount, quote_amount, expiry_ts, now).wf(),
        initialize_refusal(true, base_amount, quote_amount, expiry_ts, now) == Some(
            ZetoError::DealExists,
        ),
{
}

/// Funding succeeds exactly when the deal is `Initialized` and the caller
/// is its seller; then the vault, empty before, holds the base amount, taken
/// from the seller.
pub proof fn law_funding(deal: Deal, caller: Address)
    ensures
        deposit_refusal(deal, caller) is None <==> (deal.status == DealStatus::Initialized && caller
            == deal.seller),
        deposit_refusal(deal, caller) is None ==> {
            let after = deal.with_status(DealStatus::Funded);
            &&& after.status == DealStatus::Funded
            &&& after.vault_balance() == deal.base_amount
            &&& deal.vault_balance() + net_flow(funding_ops(deal), Holding::Vault)
                == after.vault_balance()
            &&& net_flow(funding_ops(deal), Holding::SellerBase) == -deal.base_amount
        },
{
    lemma_net_flow_single(funding_ops(deal)[0], Holding::Vault);
    lemma_net_flow_single(funding_ops(deal)[0], Holding::SellerBase);
    assert(funding_ops(deal) =~= seq![funding_ops(deal)[0]]);
}

/// Settlement is reached only from `Funded`.
pub proof fn law_settle_needs_funded(deal: Deal, caller: Address, now: i64)
    ensures
        settle_refusal(deal, caller, now) is None ==> deal.status == DealStatus::Funded,
{
}

/// Once the expiry has come, the buyer's settlement of a funded deal is
/// refused as expired, and the deal stays `Funded`.
pub proof fn law_settle_after_expiry(deal: Deal, now: i64)
    requires
        deal.status == DealStatus::Funded,
        now >= deal.expiry_ts,
    ensures
        settle_refusal(deal, deal.buyer, now) == Some(ZetoError::DealExpired),
{
}

/// Flows of a refund: the vault gives up the base amount, all of it to the
/// seller, and no other holding changes.
pub proof fn lemma_refund_flows(deal: Deal, h: Holding)
    ensures
        net_flow(refund_ops(deal), h) == if h == Holding::Vault {
            -deal.base_amount
        } else if h == Holding::SellerBase {
            deal.base_amount as int
        } else {
            0
        },
{
    let ops = refund_ops(deal);
    assert(ops =~= seq![ops[0]] + seq![ops[1]]);
    lemma_net_flow_concat(seq![ops[0]], seq![ops[1]], h);
    lemma_net_flow_single(ops[0], h);
    lemma_net_flow_single(ops[1], h);
}

/// The seller's cancellation of a funded deal pays the whole base amount
/// back to the seller and drains the vault to zero; a settled or cancelled
/// deal cannot be cancelled.
pub proof fn law_cancel(deal: Deal, caller: Address)
    ensures
        deal.status == DealStatus::Funded && caller == deal.seller ==> {
            &&& cancel_refusal(deal, caller) is None
            &&& net_flow(refund_ops(deal), Holding::SellerBase) == deal.base_amount
            &&& deal.vault_balance() + net_flow(refund_ops(deal), Holding::Vault) == 0
            &&& deal.with_status(DealStatus::Cancelled).vault_balance() == 0
        },
        deal.is_terminal() ==> cancel_refusal(deal, caller) is Some,
{
    lemma_refund_flows(deal, Holding::SellerBase);
    lemma_refund_flows(deal, Holding::Vault);
}

/// A reclaim of a funded deal is refused before the expiry; from the expiry
/// on it succeeds whoever asks, and the whole base amount goes to the
/// seller, drained from the vault, with no other holding touched.
pub proof fn law_reclaim(deal: Deal, now: i64, h: Holding)
    requires
        deal.status == DealStatus::Funded,
    ensures
        now < deal.expiry_ts ==> reclaim_refusal(deal, now) == Some(ZetoError::NotExpired),
        now >= deal.expiry_ts ==> {
            &&& reclaim_refusal(deal, now) is None
            &&& net_flow(refund_ops(deal), Holding::SellerBase) == deal.base_amount
            &&& deal.vault_balance() + net_flow(refund_ops(deal), Holding::Vault) == 0
            &&& (h != Holding::Vault && h != Holding::SellerBase) ==> net_flow(refund_ops(deal), h)
                == 0
        },
{
    lemma_refund_flows(deal, Holding::SellerBase);
    lemma_refund_flows(deal, Holding::Vault);
    lemma_refund_flows(deal, h);
}

/// A settled or cancelled deal refuses every operation, for every caller
/// and at every time, as not legal from its status.
pub proof fn law_terminal(deal: Deal, caller: Address, now: i64)
    requires
        deal.is_terminal(),
    ensures
        deposit_refusal(deal, caller) == Some(ZetoError::InvalidStatus),
        settle_refusal(deal, caller, now) == Some(ZetoError::InvalidStatus),
        cancel_refusal(deal, caller) == Some(ZetoError::InvalidStatus),
        reclaim_refusal(deal, now) == Some(ZetoError::InvalidStatus),
{
}

/// Net flow of a settlement into a holding, leg by leg.
pub proof fn lemma_settlement_flows(deal: Deal, h: Holding)
    requires
        buyer_fee_of(deal.quote_amount as int, deal.fee_bps as int) <= deal.quote_amount,
    ensures
        ({
            let fee = buyer_fee_of(deal.quote_amount as int, deal.fee_bps as int);
            let net = deal.quote_amount - fee;
            net_flow(settlement_ops(deal), h) == (if h == Holding::SellerQuote {
                net
            } else if h == Holding::FeeQuote {
                fee
            } else if h == Holding::BuyerQuote {
                -deal.quote_amount
            } else if h == Holding::BuyerBase {
                deal.base_amount as int
            } else if h == Holding::Vault {
                -(deal.base_amount + SELLER_FEE)
            } else if h == Holding::FeeBase {
                SELLER_FEE as int
            } else {
                0
            })
        }),
{
    let fee = buyer_fee_of(deal.quote_amount as int, deal.fee_bps as int);
    let ops = settlement_ops(deal);
    let a = seq![ops[0]];
    let f = if fee > 0 {
        seq![LedgerOp::Transfer { from: Holding::BuyerQuote, to: Holding::FeeQuote, amount: fee as u64 }]
    } else {
        Seq::<LedgerOp>::empty()
    };
    let b = seq![LedgerOp::Transfer {
        from: Holding::Vault,
        to: Holding::BuyerBase,
        amount: deal.base_amount,
    }];
    let c = seq![LedgerOp::CloseVault];
    assert(SELLER_FEE == 0);
    assert(ops =~= a + f + b + c);
    lemma_net_flow_concat(a + f + b, c, h);
    lemma_net_flow_concat(a + f, b, h);
    lemma_net_flow_concat(a, f, h);
    lemma_net_flow_single(ops[0], h);
    lemma_net_flow_single(b[0], h);
    lemma_net_flow_single(c[0], h);
    assert(b =~= seq![b[0]]);
    assert(c =~= seq![c[0]]);
    if fee > 0 {
        lemma_net_flow_single(f[0], h);
        assert(f =~= seq![f[0]]);
    } else {
        assert(net_flow(f, h) == 0);
    }
}

/// A successful settlement conserves value: the buyer receives the whole
/// deposited base amount (the seller's base fee being zero), the quote
/// amount is split exactly into what reaches the seller and the fee, and the
/// vault is left empty.
pub proof fn law_settlement_conservation(deal: Deal, caller: Address, now: i64)
    requires
        settle_refusal(deal, caller, now) is None,
    ensures
        net_flow(settlement_ops(deal), Holding::BuyerBase) + SELLER_FEE == deal.base_amount,
        net_flow(settlement_ops(deal), Holding::SellerQuote) + net_flow(
            settlement_ops(deal),
            Holding::FeeQuote,
        ) == deal.quote_amount,
        net_flow(settlement_ops(deal), Holding::BuyerQuote) == -deal.quote_amount,
        net_flow(settlement_ops(deal), Holding::FeeQuote) == buyer_fee_of(
            deal.quote_amount as int,
            deal.fee_bps as int,
        ),
        deal.vault_balance() + net_flow(settlement_ops(deal), Holding::Vault) == 0,
        deal.with_status(DealStatus::Settled).vault_balance() == 0,
{
    lemma_settlement_flows(deal, Holding::BuyerBase);
    lemma_settlement_flows(deal, Holding::SellerQuote);
    lemma_settlement_flows(deal, Holding::FeeQuote);
    lemma_settlement_flows(deal, Holding::BuyerQuote);
    lemma_settlement_flows(deal, Holding::Vault);
}

} // verus!
