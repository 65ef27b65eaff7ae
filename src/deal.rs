use vstd::prelude::*;

verus! {

/// Fee rate, in basis points, withheld from the buyer's quote payment.
pub const FEE_BPS: u64 = 20;

/// Basis points in one whole.
pub const BPS_DENOMINATOR: u64 = 10000;

/// A 32-byte identity: a party, an asset, or a fee recipient.
#[derive(Clone, Copy, Debug, PartialEq, Eq)]
pub struct Address {
    pub bytes: [u8; 32],
}

impl Address {
    pub fn new(bytes: [u8; 32]) -> (r: Address)
        ensures
            r.bytes == bytes,
    {
        Address { bytes }
    }

    /// Whether two identities are the same, byte for byte.
    pub fn same(&self, other: &Address) -> (r: bool)
        ensures
            r == (*self == *other),
    {
        let mut i: usize = 0;
        while i < 32
            invariant
                0 <= i <= 32,
                forall|j: int| 0 <= j < i ==> self.bytes[j] == other.bytes[j],
            decreases 32 - i,
        {
            if self.bytes[i] != other.bytes[i] {
                return false;
            }
            i = i + 1;
        }
        proof {
            assert(self.bytes =~= other.bytes);
        }
        true
    }
}

/// Where a deal stands in its lifecycle.
#[derive(Clone, Copy, Debug, PartialEq, Eq, Structural)]
pub enum DealStatus {
    Initialized,
    Funded,
    Settled,
    Cancelled,
}

/// The persistent record of one escrow instance.
#[derive(Clone, Copy, Debug, PartialEq, Eq)]
pub struct Deal {
    pub deal_id: [u8; 32],
    pub seller: Address,
    pub buyer: Address,
    pub base_mint: Address,
    pub quote_mint: Address,
    pub base_amount: u64,
    pub quote_amount: u64,
    pub expiry_ts: i64,
    pub fee_bps: u16,
    pub fee_recipient: Address,
    pub status: DealStatus,
    pub created_at: i64,
    pub bump: u8,
}

impl Deal {
    /// Both amounts of the terms are strictly positive.
    pub open spec fn wf(&self) -> bool {
        self.base_amount > 0 && self.quote_amount > 0
    }

    /// The deal accepts no further operation.
    pub open spec fn is_terminal(&self) -> bool {
        self.status == DealStatus::Settled || self.status == DealStatus::Cancelled
    }

    /// Units of the base asset that the vault holds while the deal is in
    /// this status.
    pub open spec fn vault_balance(&self) -> int {
        if self.status == DealStatus::Funded {
            self.base_amount as int
        } else {
            0
        }
    }

    /// The same deal with only its status changed.
    pub open spec fn with_status(self, status: DealStatus) -> Deal {
        Deal { status, ..self }
    }

    pub fn status(&self) -> (r: DealStatus)
        ensures
            r == self.status,
    {
        self.status
    }
}

} // verus!
