use vstd::prelude::*;

use crate::bytes::{
    key_at, le_u128, le_u16, le_u32, le_u64, read_bytes, read_key, read_u128, read_u16, read_u32,
    read_u64, read_u8,
};
use crate::state::Pubkey;

verus! {

/// Reader of the pool program's account layouts.
pub struct MeteoraDammV2Decoder;

/// The base fee schedule of a pool.
#[derive(Clone, Copy, Debug)]
pub struct BaseFeeStruct {
    pub cliff_fee_numerator: u64,
    pub fee_scheduler_mode: u8,
    pub padding_0: [u8; 5],
    pub number_of_period: u16,
    pub period_frequency: u64,
    pub reduction_factor: u64,
    pub padding_1: u64,
}

impl BaseFeeStruct {
    /// Size of the encoding, in bytes.
    pub const SIZE: usize = 40;

    /// Whether this value is the one encoded at `off`: each field in
    /// declaration order, integers little-endian, with no gaps.
    pub open spec fn decoded_at(&self, s: Seq<u8>, off: int) -> bool {
        &&& self.cliff_fee_numerator == le_u64(s, off)
        &&& self.fee_scheduler_mode == s[off + 8]
        &&& self.padding_0@ == s.subrange(off + 9, off + 14)
        &&& self.number_of_period == le_u16(s, off + 14)
        &&& self.period_frequency == le_u64(s, off + 16)
        &&& self.reduction_factor == le_u64(s, off + 24)
        &&& self.padding_1 == le_u64(s, off + 32)
    }

    /// Decodes the value encoded at `off`.
    pub fn decode_at(data: &[u8], off: usize) -> (r: Self)
        requires
            off + 40 <= data.len(),
        ensures
            r.decoded_at(data@, off as int),
    {
        BaseFeeStruct {
            cliff_fee_numerator: read_u64(data, off),
            fee_scheduler_mode: read_u8(data, off + 8),
            padding_0: read_bytes::<5>(data, off + 9),
            number_of_period: read_u16(data, off + 14),
            period_frequency: read_u64(data, off + 16),
            reduction_factor: read_u64(data, off + 24),
            padding_1: read_u64(data, off + 32),
        }
    }
}

/// The volatility-driven part of a pool's fee.
#[derive(Clone, Copy, Debug)]
pub struct DynamicFeeStruct {
    pub initialized: u8,
    pub padding: [u8; 7],
    pub max_volatility_accumulator: u32,
    pub variable_fee_control: u32,
    pub bin_step: u16,
    pub filter_period: u16,
    pub decay_period: u16,
    pub reduction_factor: u16,
    pub last_update_timestamp: u64,
    pub bin_step_u128: u128,
    pub sqrt_price_reference: u128,
    pub volatility_accumulator: u128,
    pub volatility_reference: u128,
}

impl DynamicFeeStruct {
    /// Size of the encoding, in bytes.
    pub const SIZE: usize = 96;

    /// Whether this value is the one encoded at `off`: each field in
    /// declaration order, integers little-endian, with no gaps.
    pub open spec fn decoded_at(&self, s: Seq<u8>, off: int) -> bool {
        &&& self.initialized == s[off]
        &&& self.padding@ == s.subrange(off + 1, off + 8)
        &&& self.max_volatility_accumulator == le_u32(s, off + 8)
        &&& self.variable_fee_control == le_u32(s, off + 12)
        &&& self.bin_step == le_u16(s, off + 16)
        &&& self.filter_period == le_u16(s, off + 18)
        &&& self.decay_period == le_u16(s, off + 20)
        &&& self.reduction_factor == le_u16(s, off + 22)
        &&& self.last_update_timestamp == le_u64(s, off + 24)
        &&& self.bin_step_u128 == le_u128(s, off + 32)
        &&& self.sqrt_price_reference == le_u128(s, off + 48)
        &&& self.volatility_accumulator == le_u128(s, off + 64)
        &&& self.volatility_reference == le_u128(s, off + 80)
    }

    /// Decodes the value encoded at `off`.
    pub fn decode_at(data: &[u8], off: usize) -> (r: Self)
        requires
            off + 96 <= data.len(),
        ensures
            r.decoded_at(data@, off as int),
    {
        DynamicFeeStruct {
            initialized: read_u8(data, off),
            padding: read_bytes::<7>(data, off + 1),
            max_volatility_accumulator: read_u32(data, off + 8),
            variable_fee_control: read_u32(data, off + 12),
            bin_step: read_u16(data, off + 16),
            filter_period: read_u16(data, off + 18),
            decay_period: read_u16(data, off + 20),
            reduction_factor: read_u16(data, off + 22),
            last_update_timestamp: read_u64(data, off + 24),
            bin_step_u128: read_u128(data, off + 32),
            sqrt_price_reference: read_u128(data, off + 48),
            volatility_accumulator: read_u128(data, off + 64),
            volatility_reference: read_u128(data, off + 80),
        }
    }
}

/// All fee settings of a pool.
#[derive(Clone, Copy, Debug)]
pub struct PoolFeesStruct {
    pub base_fee: BaseFeeStruct,
    pub protocol_fee_percent: u8,
    pub partner_fee_percent: u8,
    pub referral_fee_percent: u8,
    pub padding_0: [u8; 5],
    pub dynamic_fee: DynamicFeeStruct,
    pub padding_1: [u64; 2],
}

impl PoolFeesStruct {
    /// Size of the encoding, in bytes.
    pub const SIZE: usize = 160;

    /// Whether this value is the one encoded at `off`: each field in
    /// declaration order, integers little-endian, with no gaps.
    pub open spec fn decoded_at(&self, s: Seq<u8>, off: int) -> bool {
        &&& self.base_fee.decoded_at(s, off)
        &&& self.protocol_fee_percent == s[off + 40]
        &&& self.partner_fee_percent == s[off + 41]
        &&& self.referral_fee_percent == s[off + 42]
        &&& self.padding_0@ == s.subrange(off + 43, off + 48)
        &&& self.dynamic_fee.decoded_at(s, off + 48)
        &&& self.padding_1[0] == le_u64(s, off + 144)
        &&& self.padding_1[1] == le_u64(s, off + 152)
    }

    /// Decodes the value encoded at `off`.
    pub fn decode_at(data: &[u8], off: usize) -> (r: Self)
        requires
            off + 160 <= data.len(),
        ensures
            r.decoded_at(data@, off as int),
    {
        PoolFeesStruct {
            base_fee: BaseFeeStruct::decode_at(data, off),
            protocol_fee_percent: read_u8(data, off + 40),
            partner_fee_percent: read_u8(data, off + 41),
            referral_fee_percent: read_u8(data, off + 42),
            padding_0: read_bytes::<5>(data, off + 43),
            dynamic_fee: DynamicFeeStruct::decode_at(data, off + 48),
            padding_1: [read_u64(data, off + 144), read_u64(data, off + 152)],
        }
    }
}

/// Running fee totals of a pool.
#[derive(Clone, Copy, Debug)]
pub struct PoolMetrics {
    pub total_lp_a_fee: u128,
    pub total_lp_b_fee: u128,
    pub total_protocol_a_fee: u64,
    pub total_protocol_b_fee: u64,
    pub total_partner_a_fee: u64,
    pub total_partner_b_fee: u64,
    pub total_position: u64,
    pub padding: u64,
}

impl PoolMetrics {
    /// Size of the encoding, in bytes.
    pub const SIZE: usize = 80;

    /// Whether this value is the one encoded at `off`: each field in
    /// declaration order, integers little-endian, with no gaps.
    pub open spec fn decoded_at(&self, s: Seq<u8>, off: int) -> bool {
        &&& self.total_lp_a_fee == le_u128(s, off)
        &&& self.total_lp_b_fee == le_u128(s, off + 16)
        &&& self.total_protocol_a_fee == le_u64(s, off + 32)
        &&& self.total_protocol_b_fee == le_u64(s, off + 40)
        &&& self.total_partner_a_fee == le_u64(s, off + 48)
        &&& self.total_partner_b_fee == le_u64(s, off + 56)
        &&& self.total_position == le_u64(s, off + 64)
        &&& self.padding == le_u64(s, off + 72)
    }

    /// Decodes the value encoded at `off`.
    pub fn decode_at(data: &[u8], off: usize) -> (r: Self)
        requires
            off + 80 <= data.len(),
        ensures
            r.decoded_at(data@, off as int),
    {
        PoolMetrics {
            total_lp_a_fee: read_u128(data, off),
            total_lp_b_fee: read_u128(data, off + 16),
            total_protocol_a_fee: read_u64(data, off + 32),
            total_protocol_b_fee: read_u64(data, off + 40),
            total_partner_a_fee: read_u64(data, off + 48),
            total_partner_b_fee: read_u64(data, off + 56),
            total_position: read_u64(data, off + 64),
            padding: read_u64(data, off + 72),
        }
    }
}

/// One reward stream of a pool.
#[derive(Clone, Copy, Debug)]
pub struct RewardInfo {
    pub initialized: u8,
    pub reward_token_flag: u8,
    pub padding_0: [u8; 6],
    pub padding_1: [u8; 8],
    pub mint: Pubkey,
    pub vault: Pubkey,
    pub funder: Pubkey,
    pub reward_duration: u64,
    pub reward_duration_end: u64,
    pub reward_rate: u128,
    pub reward_per_token_stored: [u8; 32],
    pub last_update_time: u64,
    pub cumulative_seconds_with_empty_liquidity_reward: u64,
}

impl RewardInfo {
    /// Size of the encoding, in bytes.
    pub const SIZE: usize = 192;

    /// Whether this value is the one encoded at `off`: each field in
    /// declaration order, integers little-endian, with no gaps.
    pub open spec fn decoded_at(&self, s: Seq<u8>, off: int) -> bool {
        &&& self.initialized == s[off]
        &&& self.reward_token_flag == s[off + 1]
        &&& self.padding_0@ == s.subrange(off + 2, off + 8)
        &&& self.padding_1@ == s.subrange(off + 8, off + 16)
        &&& key_at(self.mint, s, off + 16)
        &&& key_at(self.vault, s, off + 48)
        &&& key_at(self.funder, s, off + 80)
        &&& self.reward_duration == le_u64(s, off + 112)
        &&& self.reward_duration_end == le_u64(s, off + 120)
        &&& self.reward_rate == le_u128(s, off + 128)
        &&& self.reward_per_token_stored@ == s.subrange(off + 144, off + 176)
        &&& self.last_update_time == le_u64(s, off + 176)
        &&& self.cumulative_seconds_with_empty_liquidity_reward == le_u64(s, off + 184)
    }

    /// Decodes the value encoded at `off`.
    pub fn decode_at(data: &[u8], off: usize) -> (r: Self)
        requires
            off + 192 <= data.len(),
        ensures
            r.decoded_at(data@, off as int),
    {
        RewardInfo {
            initialized: read_u8(data, off),
            reward_token_flag: read_u8(data, off + 1),
            padding_0: read_bytes::<6>(data, off + 2),
            padding_1: read_bytes::<8>(data, off + 8),
            mint: read_key(data, off + 16),
            vault: read_key(data, off + 48),
            funder: read_key(data, off + 80),
            reward_duration: read_u64(data, off + 112),
            reward_duration_end: read_u64(data, off + 120),
            reward_rate: read_u128(data, off + 128),
            reward_per_token_stored: read_bytes::<32>(data, off + 144),
            last_update_time: read_u64(data, off + 176),
            cumulative_seconds_with_empty_liquidity_reward: read_u64(data, off + 184),
        }
    }
}

/// Fees a position has claimed so far.
#[derive(Clone, Copy, Debug)]
pub struct PositionMetrics {
    pub total_claimed_a_fee: u64,
    pub total_claimed_b_fee: u64,
}

impl PositionMetrics {
    /// Size of the encoding, in bytes.
    pub const SIZE: usize = 16;

    /// Whether this value is the one encoded at `off`: each field in
    /// declaration order, integers little-endian, with no gaps.
    pub open spec fn decoded_at(&self, s: Seq<u8>, off: int) -> bool {
        &&& self.total_claimed_a_fee == le_u64(s, off)
        &&& self.total_claimed_b_fee == le_u64(s, off + 8)
    }

    /// Decodes the value encoded at `off`.
    pub fn decode_at(data: &[u8], off: usize) -> (r: Self)
        requires
            off + 16 <= data.len(),
        ensures
            r.decoded_at(data@, off as int),
    {
        PositionMetrics {
            total_claimed_a_fee: read_u64(data, off),
            total_claimed_b_fee: read_u64(data, off + 8),
        }
    }
}

/// A position's share of one reward stream.
#[derive(Clone, Copy, Debug)]
pub struct UserRewardInfo {
    pub reward_per_token_checkpoint: [u8; 32],
    pub reward_pendings: u64,
    pub total_claimed_rewards: u64,
}

impl UserRewardInfo {
    /// Size of the encoding, in bytes.
    pub const SIZE: usize = 48;

    /// Whether this value is the one encoded at `off`: each field in
    /// declaration order, integers little-endian, with no gaps.
    pub open spec fn decoded_at(&self, s: Seq<u8>, off: int) -> bool {
        &&& self.reward_per_token_checkpoint@ == s.subrange(off, off + 32)
        &&& self.reward_pendings == le_u64(s, off + 32)
        &&& self.total_claimed_rewards == le_u64(s, off + 40)
    }

    /// Decodes the value encoded at `off`.
    pub fn decode_at(data: &[u8], off: usize) -> (r: Self)
        requires
            off + 48 <= data.len(),
        ensures
            r.decoded_at(data@, off as int),
    {
        UserRewardInfo {
            reward_per_token_checkpoint: read_bytes::<32>(data, off),
            reward_pendings: read_u64(data, off + 32),
            total_claimed_rewards: read_u64(data, off + 40),
        }
    }
}

/// A liquidity position of the pool program.
#[derive(Clone, Copy, Debug)]
pub struct Position {
    pub pool: Pubkey,
    pub nft_mint: Pubkey,
    pub fee_a_per_token_checkpoint: [u8; 32],
    pub fee_b_per_token_checkpoint: [u8; 32],
    pub fee_a_pending: u64,
    pub fee_b_pending: u64,
    pub unlocked_liquidity: u128,
    pub vested_liquidity: u128,
    pub permanent_locked_liquidity: u128,
    pub metrics: PositionMetrics,
    pub reward_infos: [UserRewardInfo; 2],
    pub padding: [u128; 6],
}

impl Position {
    /// Size of the encoding, in bytes.
    pub const SIZE: usize = 400;

    /// Whether this value is the one encoded at `off`: each field in
    /// declaration order, integers little-endian, with no gaps.
    pub open spec fn decoded_at(&self, s: Seq<u8>, off: int) -> bool {
        &&& key_at(self.pool, s, off)
        &&& key_at(self.nft_mint, s, off + 32)
        &&& self.fee_a_per_token_checkpoint@ == s.subrange(off + 64, off + 96)
        &&& self.fee_b_per_token_checkpoint@ == s.subrange(off + 96, off + 128)
        &&& self.fee_a_pending == le_u64(s, off + 128)
        &&& self.fee_b_pending == le_u64(s, off + 136)
        &&& self.unlocked_liquidity == le_u128(s, off + 144)
        &&& self.vested_liquidity == le_u128(s, off + 160)
        &&& self.permanent_locked_liquidity == le_u128(s, off + 176)
        &&& self.metrics.decoded_at(s, off + 192)
        &&& self.reward_infos[0].decoded_at(s, off + 208)
        &&& self.reward_infos[1].decoded_at(s, off + 256)
        &&& self.padding[0] == le_u128(s, off + 304)
        &&& self.padding[1] == le_u128(s, off + 320)
        &&& self.padding[2] == le_u128(s, off + 336)
        &&& self.padding[3] == le_u128(s, off + 352)
        &&& self.padding[4] == le_u128(s, off + 368)
        &&& self.padding[5] == le_u128(s, off + 384)
    }

    /// Decodes the value encoded at `off`.
    pub fn decode_at(data: &[u8], off: usize) -> (r: Self)
        requires
            off + 400 <= data.len(),
        ensures
            r.decoded_at(data@, off as int),
    {
        Position {
            pool: read_key(data, off),
            nft_mint: read_key(data, off + 32),
            fee_a_per_token_checkpoint: read_bytes::<32>(data, off + 64),
            fee_b_per_token_checkpoint: read_bytes::<32>(data, off + 96),
            fee_a_pending: read_u64(data, off + 128),
            fee_b_pending: read_u64(data, off + 136),
            unlocked_liquidity: read_u128(data, off + 144),
            vested_liquidity: read_u128(data, off + 160),
            permanent_locked_liquidity: read_u128(data, off + 176),
            metrics: PositionMetrics::decode_at(data, off + 192),
            reward_infos: [UserRewardInfo::decode_at(data, off + 208), UserRewardInfo::decode_at(data, off + 256)],
            padding: [read_u128(data, off + 304), read_u128(data, off + 320), read_u128(data, off + 336), read_u128(data, off + 352), read_u128(data, off + 368), read_u128(data, off + 384)],
        }
    }
}

/// A pool account of the pool program, after its tag.
#[derive(Clone, Copy, Debug)]
pub struct Pool {
    pub pool_fees: PoolFeesStruct,
    pub token_a_mint: Pubkey,
    pub token_b_mint: Pubkey,
    pub token_a_vault: Pubkey,
    pub token_b_vault: Pubkey,
    pub whitelisted_vault: Pubkey,
    pub partner: Pubkey,
    pub liquidity: u128,
    pub padding: u128,
    pub protocol_a_fee: u64,
    pub protocol_b_fee: u64,
    pub partner_a_fee: u64,
    pub partner_b_fee: u64,
    pub sqrt_min_price: u128,
    pub sqrt_max_price: u128,
    pub sqrt_price: u128,
    pub activation_point: u64,
    pub activation_type: u8,
    pub pool_status: u8,
    pub token_a_flag: u8,
    pub token_b_flag: u8,
    pub collect_fee_mode: u8,
    pub pool_type: u8,
    pub padding_0: [u8; 2],
    pub fee_a_per_liquidity: [u8; 32],
    pub fee_b_per_liquidity: [u8; 32],
    pub permanent_lock_liquidity: u128,
    pub metrics: PoolMetrics,
    pub padding_1: [u64; 10],
    pub reward_infos: [RewardInfo; 2],
}

impl Pool {
    /// Size of the encoding, in bytes.
    pub const SIZE: usize = 1104;

    /// Whether this value is the one encoded at `off`: each field in
    /// declaration order, integers little-endian, with no gaps.
    pub open spec fn decoded_at(&self, s: Seq<u8>, off: int) -> bool {
        &&& self.pool_fees.decoded_at(s, off)
        &&& key_at(self.token_a_mint, s, off + 160)
        &&& key_at(self.token_b_mint, s, off + 192)
        &&& key_at(self.token_a_vault, s, off + 224)
        &&& key_at(self.token_b_vault, s, off + 256)
        &&& key_at(self.whitelisted_vault, s, off + 288)
        &&& key_at(self.partner, s, off + 320)
        &&& self.liquidity == le_u128(s, off + 352)
        &&& self.padding == le_u128(s, off + 368)
        &&& self.protocol_a_fee == le_u64(s, off + 384)
        &&& self.protocol_b_fee == le_u64(s, off + 392)
        &&& self.partner_a_fee == le_u64(s, off + 400)
        &&& self.partner_b_fee == le_u64(s, off + 408)
        &&& self.sqrt_min_price == le_u128(s, off + 416)
        &&& self.sqrt_max_price == le_u128(s, off + 432)
        &&& self.sqrt_price == le_u128(s, off + 448)
        &&& self.activation_point == le_u64(s, off + 464)
        &&& self.activation_type == s[off + 472]
        &&& self.pool_status == s[off + 473]
        &&& self.token_a_flag == s[off + 474]
        &&& self.token_b_flag == s[off + 475]
        &&& self.collect_fee_mode == s[off + 476]
        &&& self.pool_type == s[off + 477]
        &&& self.padding_0@ == s.subrange(off + 478, off + 480)
        &&& self.fee_a_per_liquidity@ == s.subrange(off + 480, off + 512)
        &&& self.fee_b_per_liquidity@ == s.subrange(off + 512, off + 544)
        &&& self.permanent_lock_liquidity == le_u128(s, off + 544)
        &&& self.metrics.decoded_at(s, off + 560)
        &&& self.padding_1[0] == le_u64(s, off + 640)
        &&& self.padding_1[1] == le_u64(s, off + 648)
        &&& self.padding_1[2] == le_u64(s, off + 656)
        &&& self.padding_1[3] == le_u64(s, off + 664)
        &&& self.padding_1[4] == le_u64(s, off + 672)
        &&& self.padding_1[5] == le_u64(s, off + 680)
        &&& self.padding_1[6] == le_u64(s, off + 688)
        &&& self.padding_1[7] == le_u64(s, off + 696)
        &&& self.padding_1[8] == le_u64(s, off + 704)
        &&& self.padding_1[9] == le_u64(s, off + 712)
        &&& self.reward_infos[0].decoded_at(s, off + 720)
        &&& self.reward_infos[1].decoded_at(s, off + 912)
    }

    /// Decodes the value encoded at `off`.
    pub fn decode_at(data: &[u8], off: usize) -> (r: Self)
        requires
            off + 1104 <= data.len(),
        ensures
            r.decoded_at(data@, off as int),
    {
        Pool {
            pool_fees: PoolFeesStruct::decode_at(data, off),
            token_a_mint: read_key(data, off + 160),
            token_b_mint: read_key(data, off + 192),
            token_a_vault: read_key(data, off + 224),
            token_b_vault: read_key(data, off + 256),
            whitelisted_vault: read_key(data, off + 288),
            partner: read_key(data, off + 320),
            liquidity: read_u128(data, off + 352),
            padding: read_u128(data, off + 368),
            protocol_a_fee: read_u64(data, off + 384),
            protocol_b_fee: read_u64(data, off + 392),
            partner_a_fee: read_u64(data, off + 400),
            partner_b_fee: read_u64(data, off + 408),
            sqrt_min_price: read_u128(data, off + 416),
            sqrt_max_price: read_u128(data, off + 432),
            sqrt_price: read_u128(data, off + 448),
            activation_point: read_u64(data, off + 464),
            activation_type: read_u8(data, off + 472),
            pool_status: read_u8(data, off + 473),
            token_a_flag: read_u8(data, off + 474),
            token_b_flag: read_u8(data, off + 475),
            collect_fee_mode: read_u8(data, off + 476),
            pool_type: read_u8(data, off + 477),
            padding_0: read_bytes::<2>(data, off + 478),
            fee_a_per_liquidity: read_bytes::<32>(data, off + 480),
            fee_b_per_liquidity: read_bytes::<32>(data, off + 512),
            permanent_lock_liquidity: read_u128(data, off + 544),
            metrics: PoolMetrics::decode_at(data, off + 560),
            padding_1: [read_u64(data, off + 640), read_u64(data, off + 648), read_u64(data, off + 656), read_u64(data, off + 664), read_u64(data, off + 672), read_u64(data, off + 680), read_u64(data, off + 688), read_u64(data, off + 696), read_u64(data, off + 704), read_u64(data, off + 712)],
            reward_infos: [RewardInfo::decode_at(data, off + 720), RewardInfo::decode_at(data, off + 912)],
        }
    }
}

/// The tag that opens every pool account.
pub open spec fn pool_discriminator() -> Seq<u8> {
    seq![0xf1u8, 0x9au8, 0x6du8, 0x04u8, 0x11u8, 0xb1u8, 0x6du8, 0xbcu8]
}

impl Position {
    /// Reads a position from exactly its encoding.
    pub fn deserialize(data: &[u8]) -> (r: Option<Position>)
        ensures
            r is Some <==> data@.len() == Position::SIZE,
            r is Some ==> r->Some_0.decoded_at(data@, 0),
    {
        if data.len() != Position::SIZE {
            return None;
        }
        Some(Position::decode_at(data, 0))
    }
}

impl Pool {
    /// Whether the bytes fail to be a pool account: too short, another tag,
    /// or not exactly one pool encoding after the tag.
    pub open spec fn deserialize_fails(s: Seq<u8>) -> bool {
        !(s.len() == 8 + Pool::SIZE && s.subrange(0, 8) == pool_discriminator())
    }

    /// Reads a pool account: its tag, then exactly one pool encoding.
    pub fn deserialize(data: &[u8]) -> (r: Option<Pool>)
        ensures
            r is Some <==> !Pool::deserialize_fails(data@),
            r is Some ==> r->Some_0.decoded_at(data@, 8),
    {
        if data.len() < 8 {
            return None;
        }
        let tag: [u8; 8] = read_bytes::<8>(data, 0);
        if !(tag[0] == 0xf1 && tag[1] == 0x9a && tag[2] == 0x6d && tag[3] == 0x04 && tag[4] == 0x11
            && tag[5] == 0xb1 && tag[6] == 0x6d && tag[7] == 0xbc) {
            proof {
                if data@.subrange(0, 8) == pool_discriminator() {
                    assert(tag@[0] == pool_discriminator()[0]);
                    assert(tag@[7] == pool_discriminator()[7]);
                }
            }
            return None;
        }
        proof {
            assert(tag@ =~= pool_discriminator());
        }
        if data.len() - 8 != Pool::SIZE {
            return None;
        }
        Some(Pool::decode_at(data, 8))
    }
}

} // verus!
