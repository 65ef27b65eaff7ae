use zeto_escrow::{
    accept_and_settle, cancel_deal, deposit_base, initialize_deal, reclaim_expired,
    settlement_amounts, AcceptAndSettle, Address, CancelDeal, Deal, DealCancelled, DealFunded,
    DealInitialized, DealSettled, DealStatus, DepositBase, Holding, InitializeDeal, LedgerOp,
    ReclaimExpired, ZetoError, FEE_BPS, SELLER_FEE,
};

const NOW: i64 = 1_000;
const EXPIRY: i64 = 2_000;

fn addr(tag: u8) -> Address {
    Address::new([tag; 32])
}

fn seller() -> Address {
    addr(1)
}

fn buyer() -> Address {
    addr(2)
}

fn stranger() -> Address {
    addr(9)
}

fn ctx() -> InitializeDeal {
    InitializeDeal {
        seller: seller(),
        buyer: buyer(),
        base_mint: addr(3),
        quote_mint: addr(4),
        fee_recipient: addr(5),
        bump: 254,
    }
}

fn new_deal(base: u64, quote: u64) -> Deal {
    let mut slot: Option<Deal> = None;
    initialize_deal(&mut slot, &ctx(), [7; 32], base, quote, EXPIRY, NOW).unwrap();
    slot.unwrap()
}

fn funded_deal(base: u64, quote: u64) -> Deal {
    let mut deal = new_deal(base, quote);
    deposit_base(&mut deal, &DepositBase { seller: seller() }).unwrap();
    deal
}

fn flow(ops: &[LedgerOp], h: Holding) -> i128 {
    let mut total: i128 = 0;
    for op in ops {
        if let LedgerOp::Transfer { from, to, amount } = *op {
            if to == h {
                total += amount as i128;
            }
            if from == h {
                total -= amount as i128;
            }
        }
    }
    total
}

#[test]
fn initialize_sets_terms_and_status() {
    let mut slot: Option<Deal> = None;
    let ev = initialize_deal(&mut slot, &ctx(), [7; 32], 500, 10_000, EXPIRY, NOW).unwrap();
    let deal = slot.unwrap();
    assert_eq!(deal.status(), DealStatus::Initialized);
    assert_eq!(deal.base_amount, 500);
    assert_eq!(deal.quote_amount, 10_000);
    assert_eq!(deal.fee_bps as u64, FEE_BPS);
    assert_eq!(deal.created_at, NOW);
    assert_eq!(deal.bump, 254);
    assert_eq!(
        ev,
        DealInitialized {
            deal_id: [7; 32],
            seller: seller(),
            buyer: buyer(),
            base_mint: addr(3),
            quote_mint: addr(4),
            base_amount: 500,
            quote_amount: 10_000,
            expiry_ts: EXPIRY,
        }
    );
}

#[test]
fn second_initialize_fails_with_exists() {
    let mut slot: Option<Deal> = None;
    initialize_deal(&mut slot, &ctx(), [7; 32], 500, 10_000, EXPIRY, NOW).unwrap();
    let before = slot;
    let r = initialize_deal(&mut slot, &ctx(), [7; 32], 1, 1, EXPIRY + 5, NOW);
    assert_eq!(r, Err(ZetoError::DealExists));
    assert_eq!(slot, before);
}

#[test]
fn initialize_rejects_expiry_not_in_future() {
    let mut slot: Option<Deal> = None;
    assert_eq!(
        initialize_deal(&mut slot, &ctx(), [7; 32], 500, 10_000, NOW, NOW),
        Err(ZetoError::ExpiryInPast)
    );
    assert_eq!(
        initialize_deal(&mut slot, &ctx(), [7; 32], 500, 10_000, NOW - 1, NOW),
        Err(ZetoError::ExpiryInPast)
    );
    assert!(slot.is_none());
}

#[test]
fn initialize_rejects_zero_amounts() {
    let mut slot: Option<Deal> = None;
    assert_eq!(
        initialize_deal(&mut slot, &ctx(), [7; 32], 0, 10_000, EXPIRY, NOW),
        Err(ZetoError::InvalidAmount)
    );
    assert_eq!(
        initialize_deal(&mut slot, &ctx(), [7; 32], 500, 0, EXPIRY, NOW),
        Err(ZetoError::InvalidAmount)
    );
    assert!(slot.is_none());
}

#[test]
fn fund_moves_base_into_vault() {
    let mut deal = new_deal(500, 10_000);
    let (ops, ev) = deposit_base(&mut deal, &DepositBase { seller: seller() }).unwrap();
    assert_eq!(deal.status, DealStatus::Funded);
    assert_eq!(
        ops,
        vec![LedgerOp::Transfer { from: Holding::SellerBase, to: Holding::Vault, amount: 500 }]
    );
    assert_eq!(flow(&ops, Holding::Vault), 500);
    assert_eq!(ev, DealFunded { deal_id: [7; 32], seller: seller(), amount: 500 });
}

#[test]
fn fund_by_other_caller_fails_unchanged() {
    let mut deal = new_deal(500, 10_000);
    let before = deal;
    assert_eq!(
        deposit_base(&mut deal, &DepositBase { seller: buyer() }),
        Err(ZetoError::Unauthorized)
    );
    assert_eq!(deal, before);
}

#[test]
fn fund_twice_fails_with_invalid_status() {
    let mut deal = funded_deal(500, 10_000);
    let before = deal;
    assert_eq!(
        deposit_base(&mut deal, &DepositBase { seller: seller() }),
        Err(ZetoError::InvalidStatus)
    );
    assert_eq!(deal, before);
}

#[test]
fn settle_fee_on_ten_thousand() {
    assert_eq!(settlement_amounts(10_000, 20), Ok((20, 9_980)));
    let mut deal = funded_deal(500, 10_000);
    let (ops, ev) = accept_and_settle(&mut deal, &AcceptAndSettle { buyer: buyer() }, NOW).unwrap();
    assert_eq!(deal.status, DealStatus::Settled);
    assert_eq!(
        ops,
        vec![
            LedgerOp::Transfer { from: Holding::BuyerQuote, to: Holding::SellerQuote, amount: 9_980 },
            LedgerOp::Transfer { from: Holding::BuyerQuote, to: Holding::FeeQuote, amount: 20 },
            LedgerOp::Transfer { from: Holding::Vault, to: Holding::BuyerBase, amount: 500 },
            LedgerOp::CloseVault,
        ]
    );
    assert_eq!(
        ev,
        DealSettled {
            deal_id: [7; 32],
            buyer: buyer(),
            seller: seller(),
            base_to_buyer: 500,
            quote_to_seller: 9_980,
            buyer_fee: 20,
            seller_fee: 0,
        }
    );
}

#[test]
fn settle_fee_rounds_down_to_zero() {
    assert_eq!(settlement_amounts(99, 20), Ok((0, 99)));
    let mut deal = funded_deal(3, 99);
    let (ops, ev) = accept_and_settle(&mut deal, &AcceptAndSettle { buyer: buyer() }, NOW).unwrap();
    assert_eq!(
        ops,
        vec![
            LedgerOp::Transfer { from: Holding::BuyerQuote, to: Holding::SellerQuote, amount: 99 },
            LedgerOp::Transfer { from: Holding::Vault, to: Holding::BuyerBase, amount: 3 },
            LedgerOp::CloseVault,
        ]
    );
    assert_eq!(ev.buyer_fee, 0);
    assert_eq!(ev.quote_to_seller, 99);
}

#[test]
fn settlement_amounts_exact_values() {
    assert_eq!(settlement_amounts(10_001, 20), Ok((20, 9_981)));
    assert_eq!(settlement_amounts(500, 20), Ok((1, 499)));
    assert_eq!(settlement_amounts(1, 10_000), Ok((1, 0)));
    assert_eq!(settlement_amounts(100, 20_000), Err(ZetoError::Overflow));
    assert_eq!(settlement_amounts(u64::MAX, 2), Err(ZetoError::Overflow));
}

#[test]
fn settle_overflow_leaves_deal_funded() {
    let mut deal = funded_deal(500, u64::MAX);
    let r = accept_and_settle(&mut deal, &AcceptAndSettle { buyer: buyer() }, NOW);
    assert_eq!(r, Err(ZetoError::Overflow));
    assert_eq!(deal.status, DealStatus::Funded);
}

#[test]
fn settle_only_from_funded() {
    let mut deal = new_deal(500, 10_000);
    assert_eq!(
        accept_and_settle(&mut deal, &AcceptAndSettle { buyer: buyer() }, NOW),
        Err(ZetoError::InvalidStatus)
    );
    assert_eq!(deal.status, DealStatus::Initialized);
}

#[test]
fn settle_by_other_caller_fails() {
    let mut deal = funded_deal(500, 10_000);
    assert_eq!(
        accept_and_settle(&mut deal, &AcceptAndSettle { buyer: seller() }, NOW),
        Err(ZetoError::Unauthorized)
    );
    assert_eq!(deal.status, DealStatus::Funded);
}

#[test]
fn settle_at_or_after_expiry_fails() {
    let mut deal = funded_deal(500, 10_000);
    let before = deal;
    for now in [EXPIRY, EXPIRY + 1, i64::MAX] {
        assert_eq!(
            accept_and_settle(&mut deal, &AcceptAndSettle { buyer: buyer() }, now),
            Err(ZetoError::DealExpired)
        );
        assert_eq!(deal, before);
    }
    assert!(accept_and_settle(&mut deal, &AcceptAndSettle { buyer: buyer() }, EXPIRY - 1).is_ok());
}

#[test]
fn cancel_funded_refunds_seller() {
    let mut deal = funded_deal(500, 10_000);
    let (ops, ev) = cancel_deal(&mut deal, &CancelDeal { seller: seller() }).unwrap();
    assert_eq!(deal.status, DealStatus::Cancelled);
    assert_eq!(
        ops,
        vec![
            LedgerOp::Transfer { from: Holding::Vault, to: Holding::SellerBase, amount: 500 },
            LedgerOp::CloseVault,
        ]
    );
    assert_eq!(500 + flow(&ops, Holding::Vault), 0);
    assert_eq!(flow(&ops, Holding::SellerBase), 500);
    assert_eq!(ev, DealCancelled { deal_id: [7; 32], seller: seller() });
}

#[test]
fn cancel_initialized_moves_nothing() {
    let mut deal = new_deal(500, 10_000);
    let (ops, _) = cancel_deal(&mut deal, &CancelDeal { seller: seller() }).unwrap();
    assert!(ops.is_empty());
    assert_eq!(deal.status, DealStatus::Cancelled);
}

#[test]
fn cancel_by_other_caller_fails() {
    let mut deal = funded_deal(500, 10_000);
    assert_eq!(
        cancel_deal(&mut deal, &CancelDeal { seller: buyer() }),
        Err(ZetoError::Unauthorized)
    );
    assert_eq!(deal.status, DealStatus::Funded);
}

#[test]
fn cancel_settled_or_cancelled_fails() {
    let mut settled = funded_deal(500, 10_000);
    accept_and_settle(&mut settled, &AcceptAndSettle { buyer: buyer() }, NOW).unwrap();
    assert_eq!(
        cancel_deal(&mut settled, &CancelDeal { seller: seller() }),
        Err(ZetoError::InvalidStatus)
    );
    let mut cancelled = funded_deal(500, 10_000);
    cancel_deal(&mut cancelled, &CancelDeal { seller: seller() }).unwrap();
    assert_eq!(
        cancel_deal(&mut cancelled, &CancelDeal { seller: seller() }),
        Err(ZetoError::InvalidStatus)
    );
}

#[test]
fn reclaim_before_expiry_fails() {
    let mut deal = funded_deal(500, 10_000);
    assert_eq!(
        reclaim_expired(&mut deal, &ReclaimExpired { caller: seller() }, EXPIRY - 1),
        Err(ZetoError::NotExpired)
    );
    assert_eq!(deal.status, DealStatus::Funded);
}

#[test]
fn reclaim_by_anyone_pays_seller() {
    for caller in [stranger(), buyer(), seller()] {
        let mut deal = funded_deal(500, 10_000);
        let (ops, ev) = reclaim_expired(&mut deal, &ReclaimExpired { caller }, EXPIRY).unwrap();
        assert_eq!(deal.status, DealStatus::Cancelled);
        assert_eq!(
            ops,
            vec![
                LedgerOp::Transfer { from: Holding::Vault, to: Holding::SellerBase, amount: 500 },
                LedgerOp::CloseVault,
            ]
        );
        assert_eq!(flow(&ops, Holding::BuyerBase), 0);
        assert_eq!(ev, DealCancelled { deal_id: [7; 32], seller: seller() });
    }
}

#[test]
fn reclaim_unfunded_fails() {
    let mut deal = new_deal(500, 10_000);
    assert_eq!(
        reclaim_expired(&mut deal, &ReclaimExpired { caller: stranger() }, EXPIRY),
        Err(ZetoError::InvalidStatus)
    );
}

#[test]
fn terminal_deals_refuse_everything() {
    let mut settled = funded_deal(500, 10_000);
    accept_and_settle(&mut settled, &AcceptAndSettle { buyer: buyer() }, NOW).unwrap();
    let mut cancelled = new_deal(500, 10_000);
    cancel_deal(&mut cancelled, &CancelDeal { seller: seller() }).unwrap();
    for mut deal in [settled, cancelled] {
        let before = deal;
        for who in [seller(), buyer(), stranger()] {
            for now in [NOW, EXPIRY, EXPIRY + 100] {
                assert_eq!(
                    deposit_base(&mut deal, &DepositBase { seller: who }),
                    Err(ZetoError::InvalidStatus)
                );
                assert_eq!(
                    accept_and_settle(&mut deal, &AcceptAndSettle { buyer: who }, now),
                    Err(ZetoError::InvalidStatus)
                );
                assert_eq!(
                    cancel_deal(&mut deal, &CancelDeal { seller: who }),
                    Err(ZetoError::InvalidStatus)
                );
                assert_eq!(
                    reclaim_expired(&mut deal, &ReclaimExpired { caller: who }, now),
                    Err(ZetoError::InvalidStatus)
                );
                assert_eq!(deal, before);
            }
        }
    }
}

#[test]
fn settlement_conserves_value() {
    for quote in [1u64, 99, 500, 10_000, 123_456_789] {
        let mut deal = funded_deal(777, quote);
        let (ops, ev) =
            accept_and_settle(&mut deal, &AcceptAndSettle { buyer: buyer() }, NOW).unwrap();
        assert_eq!(ev.base_to_buyer + SELLER_FEE, 777);
        assert_eq!(ev.quote_to_seller + ev.buyer_fee, quote);
        assert_eq!(flow(&ops, Holding::BuyerBase), 777);
        assert_eq!(flow(&ops, Holding::BuyerQuote), -(quote as i128));
        assert_eq!(flow(&ops, Holding::SellerQuote), ev.quote_to_seller as i128);
        assert_eq!(flow(&ops, Holding::FeeQuote), ev.buyer_fee as i128);
        assert_eq!(777 + flow(&ops, Holding::Vault), 0);
    }
}

#[test]
fn address_comparison_is_bytewise() {
    let mut bytes = [1u8; 32];
    assert!(addr(1).same(&Address::new(bytes)));
    bytes[31] = 0;
    assert!(!addr(1).same(&Address::new(bytes)));
    assert!(!addr(1).same(&addr(2)));
}

#[test]
fn error_messages() {
    assert_eq!(ZetoError::ExpiryInPast.message(), "Expiry timestamp must be in the future");
    assert_eq!(ZetoError::Overflow.message(), "Arithmetic overflow");
    assert_eq!(ZetoError::NotExpired.message(), "Deal has not expired yet");
}
