use vstd::prelude::*;
use crate::deal::{Address, Deal, DealStatus, BPS_DENOMINATOR, FEE_BPS};
use crate::error::ZetoError;
use crate::events::{DealCancelled, DealFunded, DealInitialized, DealSettled};
use crate::ledger::{Holding, LedgerOp};

verus! {

/// Fee withheld from the vault's base asset for the fee recipient. The
/// protocol charges the seller nothing at present.
pub const SELLER_FEE: u64 = 0;

/// The identities presented when a deal is created.
#[derive(Clone, Copy, Debug)]
pub struct InitializeDeal {
    pub seller: Address,
    pub buyer: Address,
    pub base_mint: Address,
    pub quote_mint: Address,
    pub fee_recipient: Address,
    /// Bump of the deal's derived custodial address.
    pub bump: u8,
}

/// The signer that asks to fund a deal.
#[derive(Clone, Copy, Debug)]
pub struct DepositBase {
    pub seller: Address,
}

/// The signer that asks to settle a deal.
#[derive(Clone, Copy, Debug)]
pub struct AcceptAndSettle {
    pub buyer: Address,
}

/// The signer that asks to cancel a deal.
#[derive(Clone, Copy, Debug)]
pub struct CancelDeal {
    pub seller: Address,
}

/// Whoever asks to reclaim an expired deal; any party may.
#[derive(Clone, Copy, Debug)]
pub struct ReclaimExpired {
    pub caller: Address,
}

/// Fee on a quote amount: rounded down.
pub open spec fn buyer_fee_of(quote_amount: int, fee_bps: int) -> int {
    quote_amount * fee_bps / BPS_DENOMINATOR as int
}

/// The settlement amounts can be computed without wrapping.
pub open spec fn settlement_fits(quote_amount: int, fee_bps: int) -> bool {
    quote_amount * fee_bps <= u64::MAX as int && buyer_fee_of(quote_amount, fee_bps) <= quote_amount
}

/// The record that a successful creation writes.
pub open spec fn initial_deal(
    ctx: InitializeDeal,
    deal_id: [u8; 32],
    base_amount: u64,
    quote_amount: u64,
    expiry_ts: i64,
    now: i64,
) -> Deal {
    Deal {
        deal_id,
        seller: ctx.seller,
        buyer: ctx.buyer,
        base_mint: ctx.base_mint,
        quote_mint: ctx.quote_mint,
        base_amount,
        quote_amount,
        expiry_ts,
        fee_bps: FEE_BPS as u16,
        fee_recipient: ctx.fee_recipient,
        status: DealStatus::Initialized,
        created_at: now,
        bump: ctx.bump,
    }
}

/// The first guard of creation that fails, if any.
pub open spec fn initialize_refusal(
    exists: bool,
    base_amount: u64,
    quote_amount: u64,
    expiry_ts: i64,
    now: i64,
) -> Option<ZetoError> {
    if exists {
        Some(ZetoError::DealExists)
    } else if expiry_ts <= now {
        Some(ZetoError::ExpiryInPast)
    } else if base_amount == 0 || quote_amount == 0 {
        Some(ZetoError::InvalidAmount)
    } else {
        None
    }
}

/// The first guard of funding that fails, if any.
pub open spec fn deposit_refusal(deal: Deal, caller: Address) -> Option<ZetoError> {
    if deal.status != DealStatus::Initialized {
        Some(ZetoError::InvalidStatus)
    } else if caller != deal.seller {
        Some(ZetoError::Unauthorized)
    } else {
        None
    }
}

/// The first guard of settlement that fails, if any.
pub open spec fn settle_refusal(deal: Deal, caller: Address, now: i64) -> Option<ZetoError> {
    if deal.status != DealStatus::Funded {
        Some(ZetoError::InvalidStatus)
    } else if caller != deal.buyer {
        Some(ZetoError::Unauthorized)
    } else if now >= deal.expiry_ts {
        Some(ZetoError::DealExpired)
    } else if !settlement_fits(deal.quote_amount as int, deal.fee_bps as int) {
        Some(ZetoError::Overflow)
    } else {
        None
    }
}

/// The first guard of cancellation that fails, if any.
pub open spec fn cancel_refusal(deal: Deal, caller: Address) -> Option<ZetoError> {
    if deal.status != DealStatus::Initialized && deal.status != DealStatus::Funded {
        Some(ZetoError::InvalidStatus)
    } else if caller != deal.seller {
        Some(ZetoError::Unauthorized)
    } else {
        None
    }
}

/// The first guard of a reclaim that fails, if any. The caller is not
/// consulted.
pub open spec fn reclaim_refusal(deal: Deal, now: i64) -> Option<ZetoError> {
    if deal.status != DealStatus::Funded {
        Some(ZetoError::InvalidStatus)
    } else if now < deal.expiry_ts {
        Some(ZetoError::NotExpired)
    } else {
        None
    }
}

/// One transfer instruction.
pub open spec fn transfer(from: Holding, to: Holding, amount: u64) -> LedgerOp {
    LedgerOp::Transfer { from, to, amount }
}

/// Instructions that fund the vault.
pub open spec fn funding_ops(deal: Deal) -> Seq<LedgerOp> {
    seq![transfer(Holding::SellerBase, Holding::Vault, deal.base_amount)]
}

/// Instructions that return the vault's content to the seller and close it.
pub open spec fn refund_ops(deal: Deal) -> Seq<LedgerOp> {
    seq![transfer(Holding::Vault, Holding::SellerBase, deal.base_amount), LedgerOp::CloseVault]
}

/// Instructions of a settlement: the quote legs, paid by the buyer, come
/// before the base legs, paid out of the vault.
pub open spec fn settlement_ops(deal: Deal) -> Seq<LedgerOp> {
    let fee = buyer_fee_of(deal.quote_amount as int, deal.fee_bps as int);
    let net = (deal.quote_amount - fee) as u64;
    seq![transfer(Holding::BuyerQuote, Holding::SellerQuote, net)]
        + (if fee > 0 {
        seq![transfer(Holding::BuyerQuote, Holding::FeeQuote, fee as u64)]
    } else {
        Seq::empty()
    })
        + seq![transfer(Holding::Vault, Holding::BuyerBase, deal.base_amount)]
        + (if SELLER_FEE > 0 {
        seq![transfer(Holding::Vault, Holding::FeeBase, SELLER_FEE)]
    } else {
        Seq::empty()
    })
        + seq![LedgerOp::CloseVault]
}

/// Computes the buyer's fee and the quote amount that reaches the seller:
/// `(fee, quote_amount - fee)`, with the fee rounded down.
pub fn settlement_amounts(quote_amount: u64, fee_bps: u16) -> (r: Result<(u64, u64), ZetoError>)
    ensures
        settlement_fits(quote_amount as int, fee_bps as int) <==> r is Ok,
        r is Ok ==> r->Ok_0.0 == buyer_fee_of(quote_amount as int, fee_bps as int)
            && r->Ok_0.1 == quote_amount - r->Ok_0.0,
        r is Err ==> r->Err_0 == ZetoError::Overflow,
{
    let product = match quote_amount.checked_mul(fee_bps as u64) {
        Some(p) => p,
        None => return Err(ZetoError::Overflow),
    };
    let buyer_fee = match product.checked_div(BPS_DENOMINATOR) {
        Some(f) => f,
        None => return Err(ZetoError::Overflow),
    };
    match quote_amount.checked_sub(buyer_fee) {
        Some(net) => Ok((buyer_fee, net)),
        None => Err(ZetoError::Overflow),
    }
}

/// Hands back the vault's content to the seller and closes the vault: the
/// tail shared by cancellation of a funded deal and by reclaim.
fn refund_vault(deal: &Deal) -> (ops: Vec<LedgerOp>)
    ensures
        ops@ == refund_ops(*deal),
{
    let mut ops: Vec<LedgerOp> = Vec::new();
    ops.push(LedgerOp::Transfer {
        from: Holding::Vault,
        to: Holding::SellerBase,
        amount: deal.base_amount,
    });
    ops.push(LedgerOp::CloseVault);
    ops
}

/// Creates the record of a new deal in `slot`, the place that the deal's
/// identifier selects, with status `Initialized`. No value moves.
///
/// Fails, leaving `slot` as it was, when a record already stands there, when
/// the expiry is not later than `now`, or when an amount is zero.
pub fn initialize_deal(
    slot: &mut Option<Deal>,
    ctx: &InitializeDeal,
    deal_id: [u8; 32],
    base_amount: u64,
    quote_amount: u64,
    expiry_ts: i64,
    now: i64,
) -> (r: Result<DealInitialized, ZetoError>)
    ensures
        r is Err <==> initialize_refusal(old(slot).is_some(), base_amount, quote_amount, expiry_ts, now)
            is Some,
        r is Err ==> *final(slot) == *old(slot) && initialize_refusal(
            old(slot).is_some(),
            base_amount,
            quote_amount,
            expiry_ts,
            now,
        ) == Some(r->Err_0),
        r is Ok ==> *final(slot) == Some(
            initial_deal(*ctx, deal_id, base_amount, quote_amount, expiry_ts, now),
        ) && r->Ok_0 == (DealInitialized {
            deal_id,
            seller: ctx.seller,
            buyer: ctx.buyer,
            base_mint: ctx.base_mint,
            quote_mint: ctx.quote_mint,
            base_amount,
            quote_amount,
            expiry_ts,
        }),
{
    if slot.is_some() {
        return Err(ZetoError::DealExists);
    }
    if expiry_ts <= now {
        return Err(ZetoError::ExpiryInPast);
    }
    if base_amount == 0 || quote_amount == 0 {
        return Err(ZetoError::InvalidAmount);
    }
    let deal = Deal {
        deal_id,
        seller: ctx.seller,
        buyer: ctx.buyer,
        base_mint: ctx.base_mint,
        quote_mint: ctx.quote_mint,
        base_amount,
        quote_amount,
        expiry_ts,
        fee_bps: FEE_BPS as u16,
        fee_recipient: ctx.fee_recipient,
        status: DealStatus::Initialized,
        created_at: now,
        bump: ctx.bump,
    };
    *slot = Some(deal);
    Ok(DealInitialized {
        deal_id,
        seller: ctx.seller,
        buyer: ctx.buyer,
        base_mint: ctx.base_mint,
        quote_mint: ctx.quote_mint,
        base_amount,
        quote_amount,
        expiry_ts,
    })
}

/// The seller moves the base amount into the vault; the deal becomes
/// `Funded`.
///
/// Fails, leaving the deal as it was, unless the deal is `Initialized` and
/// the signer is its seller.
pub fn deposit_base(deal: &mut Deal, ctx: &DepositBase) -> (r: Result<
    (Vec<LedgerOp>, DealFunded),
    ZetoError,
>)
    ensures
        r is Err <==> deposit_refusal(*old(deal), ctx.seller) is Some,
        r is Err ==> *final(deal) == *old(deal) && deposit_refusal(*old(deal), ctx.seller) == Some(
            r->Err_0,
        ),
        r is Ok ==> *final(deal) == old(deal).with_status(DealStatus::Funded) && r->Ok_0.0@
            == funding_ops(*old(deal)) && r->Ok_0.1 == (DealFunded {
            deal_id: old(deal).deal_id,
            seller: old(deal).seller,
            amount: old(deal).base_amount,
        }),
{
    if deal.status != DealStatus::Initialized {
        return Err(ZetoError::InvalidStatus);
    }
    if !ctx.seller.same(&deal.seller) {
        return Err(ZetoError::Unauthorized);
    }
    let mut ops: Vec<LedgerOp> = Vec::new();
    ops.push(LedgerOp::Transfer {
        from: Holding::SellerBase,
        to: Holding::Vault,
        amount: deal.base_amount,
    });
    deal.status = DealStatus::Funded;
    let event = DealFunded { deal_id: deal.deal_id, seller: deal.seller, amount: deal.base_amount };
    Ok((ops, event))
}

/// The buyer settles a funded deal before its expiry: the buyer pays the
/// quote amount, less the fee, to the seller and the fee to the fee
/// recipient; the vault pays the whole base amount to the buyer and is
/// closed. The deal becomes `Settled`.
///
/// Fails, leaving the deal as it was, unless the deal is `Funded`, the
/// signer is its buyer, `now` is before the expiry and the amounts can be
/// computed without wrapping.
pub fn accept_and_settle(deal: &mut Deal, ctx: &AcceptAndSettle, now: i64) -> (r: Result<
    (Vec<LedgerOp>, DealSettled),
    ZetoError,
>)
    ensures
        r is Err <==> settle_refusal(*old(deal), ctx.buyer, now) is Some,
        r is Err ==> *final(deal) == *old(deal) && settle_refusal(*old(deal), ctx.buyer, now)
            == Some(r->Err_0),
        r is Ok ==> *final(deal) == old(deal).with_status(DealStatus::Settled) && r->Ok_0.0@
            == settlement_ops(*old(deal)) && r->Ok_0.1 == (DealSettled {
            deal_id: old(deal).deal_id,
            buyer: old(deal).buyer,
            seller: old(deal).seller,
            base_to_buyer: old(deal).base_amount,
            quote_to_seller: (old(deal).quote_amount - buyer_fee_of(
                old(deal).quote_amount as int,
                old(deal).fee_bps as int,
            )) as u64,
            buyer_fee: buyer_fee_of(old(deal).quote_amount as int, old(deal).fee_bps as int) as u64,
            seller_fee: SELLER_FEE,
        }),
{
    if deal.status != DealStatus::Funded {
        return Err(ZetoError::InvalidStatus);
    }
    if !ctx.buyer.same(&deal.buyer) {
        return Err(ZetoError::Unauthorized);
    }
    if now >= deal.expiry_ts {
        return Err(ZetoError::DealExpired);
    }
    let (buyer_fee, quote_to_seller) = match settlement_amounts(deal.quote_amount, deal.fee_bps) {
        Ok(amounts) => amounts,
        Err(e) => return Err(e),
    };
    let seller_fee: u64 = SELLER_FEE;
    let base_to_buyer = deal.base_amount;

    let mut ops: Vec<LedgerOp> = Vec::new();
    ops.push(LedgerOp::Transfer {
        from: Holding::BuyerQuote,
        to: Holding::SellerQuote,
        amount: quote_to_seller,
    });
    if buyer_fee > 0 {
        ops.push(LedgerOp::Transfer {
            from: Holding::BuyerQuote,
            to: Holding::FeeQuote,
            amount: buyer_fee,
        });
    }
    ops.push(LedgerOp::Transfer { from: Holding::Vault, to: Holding::BuyerBase, amount: base_to_buyer });
    if seller_fee > 0 {
        ops.push(LedgerOp::Transfer { from: Holding::Vault, to: Holding::FeeBase, amount: seller_fee });
    }
    ops.push(LedgerOp::CloseVault);
    proof {
        assert(ops@ =~= settlement_ops(*old(deal)));
    }
    deal.status = DealStatus::Settled;
    let event = DealSettled {
        deal_id: deal.deal_id,
        buyer: deal.buyer,
        seller: deal.seller,
        base_to_buyer,
        quote_to_seller,
        buyer_fee,
        seller_fee,
    };
    Ok((ops, event))
}

/// The seller cancels a deal that is not yet settled. A funded deal first
/// returns the base amount from the vault to the seller and closes the
/// vault. The deal becomes `Cancelled`.
///
/// Fails, leaving the deal as it was, unless the deal is `Initialized` or
/// `Funded` and the signer is its seller.
pub fn cancel_deal(deal: &mut Deal, ctx: &CancelDeal) -> (r: Result<
    (Vec<LedgerOp>, DealCancelled),
    ZetoError,
>)
    ensures
        r is Err <==> cancel_refusal(*old(deal), ctx.seller) is Some,
        r is Err ==> *final(deal) == *old(deal) && cancel_refusal(*old(deal), ctx.seller) == Some(
            r->Err_0,
        ),
        r is Ok ==> *final(deal) == old(deal).with_status(DealStatus::Cancelled) && r->Ok_0.0@ == (
        if old(deal).status == DealStatus::Funded {
            refund_ops(*old(deal))
        } else {
            Seq::empty()
        }) && r->Ok_0.1 == (DealCancelled {
            deal_id: old(deal).deal_id,
            seller: old(deal).seller,
        }),
{
    if deal.status != DealStatus::Initialized && deal.status != DealStatus::Funded {
        return Err(ZetoError::InvalidStatus);
    }
    if !ctx.seller.same(&deal.seller) {
        return Err(ZetoError::Unauthorized);
    }
    let ops = if deal.status == DealStatus::Funded {
        refund_vault(deal)
    } else {
        Vec::new()
    };
    deal.status = DealStatus::Cancelled;
    Ok((ops, DealCancelled { deal_id: deal.deal_id, seller: deal.seller }))
}

/// Anyone returns the base amount of a funded deal to its seller once the
/// expiry has come, and closes the vault. The deal becomes `Cancelled`.
///
/// Fails, leaving the deal as it was, unless the deal is `Funded` and `now`
/// is at or after its expiry. Who calls makes no difference.
pub fn reclaim_expired(deal: &mut Deal, ctx: &ReclaimExpired, now: i64) -> (r: Result<
    (Vec<LedgerOp>, DealCancelled),
    ZetoError,
>)
    ensures
        r is Err <==> reclaim_refusal(*old(deal), now) is Some,
        r is Err ==> *final(deal) == *old(deal) && reclaim_refusal(*old(deal), now) == Some(
            r->Err_0,
        ),
        r is Ok ==> *final(deal) == old(deal).with_status(DealStatus::Cancelled) && r->Ok_0.0@
            == refund_ops(*old(deal)) && r->Ok_0.1 == (DealCancelled {
            deal_id: old(deal).deal_id,
            seller: old(deal).seller,
        }),
{
    if deal.status != DealStatus::Funded {
        return Err(ZetoError::InvalidStatus);
    }
    if now < deal.expiry_ts {
        return Err(ZetoError::NotExpired);
    }
    let ops = refund_vault(deal);
    deal.status = DealStatus::Cancelled;
    Ok((ops, DealCancelled { deal_id: deal.deal_id, seller: deal.seller }))
}

} // verus!
