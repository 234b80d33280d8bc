use vstd::prelude::*;

verus! {

/// A 32-byte account address.
#[derive(Clone, Copy, Debug)]
pub struct Pubkey(pub [u8; 32]);

impl View for Pubkey {
    type V = Seq<u8>;

    open spec fn view(&self) -> Seq<u8> {
        self.0@
    }
}

impl Pubkey {
    /// The all-zero address, which marks an unset reference.
    pub open spec fn spec_zero() -> Seq<u8> {
        Seq::new(32, |i: int| 0u8)
    }

    /// Builds an address from its bytes.
    pub fn new_from_array(bytes: [u8; 32]) -> (r: Pubkey)
        ensures
            r.0@ == bytes@,
    {
        Pubkey(bytes)
    }

    /// The address's bytes.
    pub fn to_bytes(&self) -> (r: [u8; 32])
        ensures
            r@ == self.0@,
    {
        self.0
    }
}

impl PartialEq for Pubkey {
    fn eq(&self, other: &Pubkey) -> (r: bool) {
        let mut i: usize = 0;
        while i < 32
            invariant
                i <= 32,
                forall|k: int| 0 <= k < i ==> self.0@[k] == other.0@[k],
            decreases 32 - i,
        {
            if self.0[i] != other.0[i] {
                return false;
            }
            i = i + 1;
        }
        proof {
            assert(self.0@ =~= other.0@);
        }
        true
    }
}

impl vstd::std_specs::cmp::PartialEqSpecImpl for Pubkey {
    open spec fn obeys_eq_spec() -> bool {
        true
    }

    open spec fn eq_spec(&self, other: &Pubkey) -> bool {
        self.0@ == other.0@
    }
}

impl Default for Pubkey {
    fn default() -> (r: Pubkey)
        ensures
            r.0@ == Pubkey::spec_zero(),
    {
        let r = Pubkey([0u8; 32]);
        proof {
            assert(r.0@ =~= Pubkey::spec_zero());
        }
        r
    }
}

/// Bit flags of a policy's status byte.
pub struct PolicyStatus;

impl PolicyStatus {
    /// Set once the owned position has been bound and the policy can be cranked.
    pub const HONORARY_READY: u8 = 1u8;
}

/// The status bit of a bound, ready position.
pub const HONORARY_READY: u8 = PolicyStatus::HONORARY_READY;

/// The far-past value of `last_day_close_ts` before the first cycle.
pub const NEVER_CLOSED_TS: i64 = -4_611_686_018_427_387_904;

/// One pool's distribution policy. Fixed at setup, but for the position
/// references (bound once), the status flags and the day-close timestamp.
pub struct Policy {
    pub authority: Pubkey,
    pub pool: Pubkey,
    pub pool_authority: Pubkey,
    pub cp_amm_program: Pubkey,
    pub quote_mint: Pubkey,
    pub base_mint: Pubkey,
    pub quote_vault: Pubkey,
    pub base_vault: Pubkey,
    pub position: Pubkey,
    pub position_nft_mint: Pubkey,
    pub position_nft_account: Pubkey,
    pub quote_treasury: Pubkey,
    pub base_fee_check: Pubkey,
    pub creator_quote_ata: Pubkey,
    pub y0: u64,
    pub daily_cap_quote: u64,
    pub min_payout_lamports: u64,
    pub last_day_close_ts: i64,
    pub investor_fee_share_bps: u16,
    pub bump: u8,
    pub status: u8,
}

impl Policy {
    /// The policy's settings are in range.
    pub open spec fn wf(&self) -> bool {
        &&& self.investor_fee_share_bps <= 10000
        &&& self.y0 > 0
    }

    /// Whether the owned position has been bound.
    pub open spec fn is_ready(&self) -> bool {
        self.status & HONORARY_READY != 0
    }
}

/// The program-derived authority that owns the honorary position.
pub struct HonoraryPosition {
    pub policy: Pubkey,
    pub bump: u8,
}

/// Where the current day's distribution stands.
#[derive(Clone, Copy, Debug)]
pub struct DistributionProgress {
    pub policy: Pubkey,
    pub day_start_ts: i64,
    pub page_cursor: u32,
    pub claimed_quote: u64,
    pub investor_distributed: u64,
    pub carry_quote: u64,
    pub day_open: bool,
    pub bump: u8,
}

impl DistributionProgress {
    /// The day counters are all zero while no day is open.
    pub open spec fn wf(&self) -> bool {
        !self.day_open ==> (self.page_cursor == 0 && self.claimed_quote == 0
            && self.investor_distributed == 0)
    }
}

} // verus!
