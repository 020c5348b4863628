//! Parameters of the protocol, and the rules that differ from one regional
//! band to the next (RP002-1.0.3).
use crate::{CodingRate, DataRate, Frequency};
use vstd::prelude::*;

mod eu863;
pub mod recommended;
mod us915;

pub use eu863::{
    eu868_backoff_data_rate, eu868_beacon_settings, eu868_cflist_type, eu868_channel_mask_apply,
    eu868_data_rates, eu868_downstream_channels, eu868_maximum_payload_size,
    eu868_maximum_payload_size_absent_repeaters, eu868_rx1_dr_table, eu868_rx1_recv_channel,
    eu868_rx2_window_details, eu868_upstream_channels, lemma_eu868_channel_mask,
    lemma_eu868_channel_mask_bits, lemma_eu868_rx1_window_data_rate, Eu868,
};
pub use us915::{
    lemma_us915_channel_mask_bits, lemma_us915_channel_mask_rejects,
    lemma_us915_rx1_window_data_rate, us915_backoff_data_rate, us915_beacon_settings,
    us915_cflist_type, us915_channel_mask_apply, us915_data_rates, us915_downstream_channels,
    us915_maximum_payload_size, us915_maximum_payload_size_absent_repeaters,
    us915_rx1_dr_table, us915_rx1_recv_channel, us915_rx2_window_details,
    us915_upstream_channels, with_group, with_group_flags, Us915,
};

verus! {

/// Parameters with recommended values consistent across all regions.
///
/// If these parameters differ from the recommendations, those parameters shall
/// be communicated to the network server using an out-of-band channel during
/// the end-device commissioning process. Delays and timeouts are in seconds.
#[derive(Debug, Clone, Copy, PartialEq, Eq, Structural)]
pub struct Parameters {
    /// Default: 1s
    pub receive_delay1: u64,
    /// Default: 0 (table index)
    pub rx1_dr_offset: usize,
    /// Default: 5s
    pub join_accept_delay1: u64,
    /// Default: 6s
    pub join_accept_delay2: u64,
    /// Default: 16384
    pub max_fcnt_gap: u16,
    /// Default: 64
    pub adr_ack_limit: u8,
    /// Default: 32
    pub adr_ack_delay: u8,
    /// Default: 1s
    pub retransmit_timeout_fixed: u64,
    /// Default: 2s
    pub retransmit_timeout_random: u64,
    /// Default: 0
    pub downlink_dwell_time: u64,
    /// Default: 7 (2**7 = 128s)
    pub ping_slot_periodicity: u8,
    /// Default: 8s
    pub class_b_resp_timeout: u64,
    /// Default: 8s
    pub class_c_resp_timeout: u64,
}

impl Parameters {
    /// The recommended values.
    pub open spec fn recommended() -> Self {
        Parameters {
            receive_delay1: 1,
            rx1_dr_offset: 0,
            join_accept_delay1: 5,
            join_accept_delay2: 6,
            max_fcnt_gap: 16384,
            adr_ack_limit: 64,
            adr_ack_delay: 32,
            retransmit_timeout_fixed: 1,
            retransmit_timeout_random: 2,
            downlink_dwell_time: 0,
            ping_slot_periodicity: 7,
            class_b_resp_timeout: 8,
            class_c_resp_timeout: 8,
        }
    }
}

impl Default for Parameters {
    fn default() -> (p: Self)
        ensures
            p == Parameters::recommended(),
    {
        Self {
            receive_delay1: recommended::RECEIVE_DELAY1,
            rx1_dr_offset: 0,
            join_accept_delay1: recommended::JOIN_ACCEPT_DELAY1,
            join_accept_delay2: recommended::JOIN_ACCEPT_DELAY2,
            max_fcnt_gap: recommended::MAX_FCNT_GAP,
            adr_ack_limit: recommended::ADR_ACK_LIMIT,
            adr_ack_delay: recommended::ADR_ACK_DELAY,
            retransmit_timeout_fixed: recommended::RETRANSMIT_TIMEOUT_FIXED,
            retransmit_timeout_random: recommended::RETRANSMIT_TIMEOUT_RANDOM,
            downlink_dwell_time: 0,
            ping_slot_periodicity: recommended::PING_SLOT_PERIODICITY,
            class_b_resp_timeout: recommended::CLASS_B_RESP_TIMEOUT,
            class_c_resp_timeout: recommended::CLASS_C_RESP_TIMEOUT,
        }
    }
}

/// Parameters that are changable via MAC commands.
#[derive(Debug, Clone, Copy, PartialEq, Eq, Structural)]
pub struct MutableParameters {}

/// Parameters that vary dependent on region.
#[derive(Debug, Clone, Copy, PartialEq, Eq, Structural)]
pub struct RegionalParameters {
    /// Country specific, in seconds.
    pub uplink_dwell_time: u64,
    /// Beacon data rate defined for each regional band.
    pub ping_slot_datarate: DataRate,
    /// Defined in each regional band.
    pub ping_slot_channel: u8,
}

/// The regional bands of RP002-1.0.3.
#[derive(Debug, Clone, Copy, PartialEq, Eq, Structural)]
pub enum BandId {
    Eu868,
    US915,
    CN779,
    EU433,
    AU915,
    CN470,
    AS923,
    AS923_2,
    AS923_3,
    KR920,
    IN865,
    RU864,
    AS923_4,
}

impl BandId {
    /// The number that RP002 gives the band.
    pub open spec fn spec_id(&self) -> u8 {
        match *self {
            BandId::Eu868 => 1,
            BandId::US915 => 2,
            BandId::CN779 => 3,
            BandId::EU433 => 4,
            BandId::AU915 => 5,
            BandId::CN470 => 6,
            BandId::AS923 => 7,
            BandId::AS923_2 => 8,
            BandId::AS923_3 => 9,
            BandId::KR920 => 10,
            BandId::IN865 => 11,
            BandId::RU864 => 12,
            BandId::AS923_4 => 13,
        }
    }

    #[verifier::when_used_as_spec(spec_id)]
    pub fn id(&self) -> (n: u8)
        ensures
            n == self.spec_id(),
    {
        match *self {
            BandId::Eu868 => 1,
            BandId::US915 => 2,
            BandId::CN779 => 3,
            BandId::EU433 => 4,
            BandId::AU915 => 5,
            BandId::CN470 => 6,
            BandId::AS923 => 7,
            BandId::AS923_2 => 8,
            BandId::AS923_3 => 9,
            BandId::KR920 => 10,
            BandId::IN865 => 11,
            BandId::RU864 => 12,
            BandId::AS923_4 => 13,
        }
    }
}

/// Whether uplink channel `channel` is enabled in the channel mask `mask`.
pub open spec fn channel_enabled(mask: u128, channel: u32) -> bool {
    channel < 128 && (mask >> channel) & 1 == 1
}

/// Whether bit `bit` of the `ChMask` field of a `LinkADRReq` is set.
pub open spec fn ch_mask_bit(channel_mask: u16, bit: u32) -> bool {
    bit < 16 && (channel_mask >> bit) & 1 == 1
}

/// The rules of one regional band.
///
/// A band is chosen once for a device session. Its tables are constants: every
/// function here depends on its arguments alone.
pub trait Band {
    /// The region whose rules these are.
    spec fn spec_region() -> Region;

    /// Given `LinkAdrReq` like fields and a 128-bit channel mask, compute the
    /// new channel mask. A value of `channel_mask_cntl` that the band does not
    /// define is rejected.
    fn channel_mask_apply(
        &self,
        channel_mask_cntl: u8,
        channel_mask: u16,
        current_channel_mask: u128,
    ) -> (r: Result<u128, ()>)
        ensures
            r == Self::spec_region().spec_channel_mask_apply(
                channel_mask_cntl,
                channel_mask,
                current_channel_mask,
            ),
    ;

    fn upstream_channels(&self) -> (plans: Vec<ChannelPlan>)
        ensures
            plans@ == Self::spec_region().spec_upstream_channels(),
    ;

    fn downstream_channels(&self) -> (plans: Vec<ChannelPlan>)
        ensures
            plans@ == Self::spec_region().spec_downstream_channels(),
    ;

    fn data_rates(&self) -> (table: Vec<Modulation>)
        ensures
            table@ == Self::spec_region().spec_data_rates(),
    ;

    /// Given the current data rate, what is the next data rate to use during
    /// backoff.
    ///
    /// This applies when the device is using Adaptive Data Rate mode. Returns
    /// `None` if there is no specified backoff data rate, normally because
    /// the input data rate was out of range.
    fn backoff_data_rate(&self, dr_current: DataRate) -> (r: Option<DataRate>)
        ensures
            r == Self::spec_region().spec_backoff_data_rate(dr_current),
    ;

    /// OPTIONAL CFlist that can be appened to the JoinAccept message is of
    /// this type if present.
    fn cflist_type(&self) -> (t: CflistType)
        ensures
            t == Self::spec_region().spec_cflist_type(),
    ;

    fn maximum_payload_size(data_rate: u8) -> (r: Option<u8>)
        ensures
            r == Self::spec_region().spec_maximum_payload_size(data_rate),
    ;

    /// Maximum payload size if the end-device will never operate under a
    /// repeater.
    fn maximum_payload_size_absent_repeaters(data_rate: u8) -> (r: Option<u8>)
        ensures
            r == Self::spec_region().spec_maximum_payload_size_absent_repeaters(data_rate),
    ;

    /// Provide defaults for beacons.
    fn beacon_settings(&self) -> (s: BeaconSettings)
        ensures
            s == Self::spec_region().spec_beacon_settings(),
    ;

    fn rx1_recv_channel(transmit_channel: u8) -> (channel: u8)
        ensures
            channel == Self::spec_region().spec_rx1_recv_channel(transmit_channel),
    ;

    /// The data rate of the first receive window: `None` where the upstream
    /// data rate has no row in the band's table or the offset has no column.
    fn rx1_window_data_rate(upstream_datarate: DataRate, rx1_dr_offset: u8) -> (r: Option<
        DataRate,
    >)
        ensures
            r == rx1_table_lookup(
                Self::spec_region().spec_rx1_dr_table(),
                upstream_datarate,
                rx1_dr_offset,
            ),
    ;

    fn rx2_window_details(&self) -> (r: (Frequency, DataRate))
        ensures
            r == Self::spec_region().spec_rx2_window_details(),
    ;
}

/// The entry of an RX1 data rate table for an upstream data rate and an
/// offset, as a data rate; `None` outside the table.
pub open spec fn rx1_table_lookup(table: Seq<Seq<u8>>, upstream: DataRate, offset: u8) -> Option<
    DataRate,
> {
    if upstream.index() < table.len() && offset < table[upstream.index() as int].len() {
        match DataRate::from_index(table[upstream.index() as int][offset as int]) {
            Ok(dr) => Some(dr),
            Err(_) => None,
        }
    } else {
        None
    }
}

/// Looks `offset` up in one row of an RX1 data rate table.
pub fn rx1_row_lookup(row: &[u8], offset: u8) -> (r: Option<DataRate>)
    ensures
        r == if offset < row@.len() {
            match DataRate::from_index(row@[offset as int]) {
                Ok(dr) => Some(dr),
                Err(_) => None,
            }
        } else {
            None
        },
{
    if (offset as usize) < row.len() {
        match DataRate::try_from(row[offset as usize]) {
            Ok(dr) => Some(dr),
            Err(_) => None,
        }
    } else {
        None
    }
}

/// The upstream and downstream channels of a band.
#[derive(Debug)]
pub struct Channels<U, D> {
    upstream: U,
    downstream: D,
}

impl<U: Clone, D: Clone> Clone for Channels<U, D> {
    fn clone(&self) -> Self {
        Channels { upstream: self.upstream.clone(), downstream: self.downstream.clone() }
    }
}

impl<U: Copy, D: Copy> Copy for Channels<U, D> {

}

impl<U, D> Channels<U, D> {
    pub closed spec fn spec_upstream(&self) -> U {
        self.upstream
    }

    pub closed spec fn spec_downstream(&self) -> D {
        self.downstream
    }

    pub fn new(upstream: U, downstream: D) -> (c: Self)
        ensures
            c.spec_upstream() == upstream,
            c.spec_downstream() == downstream,
    {
        Channels { upstream, downstream }
    }

    pub fn upstream(&self) -> (u: &U)
        ensures
            *u == self.spec_upstream(),
    {
        &self.upstream
    }

    pub fn downstream(&self) -> (d: &D)
        ensures
            *d == self.spec_downstream(),
    {
        &self.downstream
    }
}

#[derive(Debug, Clone, Copy, PartialEq, Eq, Structural)]
pub enum CflistType {
    /// This list is a series of 3 byte fields, each representing a frequency
    /// in 100Hz units.
    Specific,
    /// This is a list of 2 byte fields (7 of them). They are masks over the
    /// channels defined by the in-use band.
    Mask,
}

impl CflistType {
    /// The `CFListType` byte that ends a CFList of this type.
    pub fn type_byte(&self) -> (b: u8)
        ensures
            b == match *self {
                CflistType::Specific => 0u8,
                CflistType::Mask => 1u8,
            },
    {
        match *self {
            CflistType::Specific => 0,
            CflistType::Mask => 1,
        }
    }
}

#[derive(Debug, Clone, Copy, PartialEq, Eq, Structural)]
pub enum Polarity {
    Normal,
    Inverted,
}

/// A chunk of adjacent channels with some associated data.
#[derive(Debug, Clone, Copy, PartialEq, Eq, Structural)]
pub struct ChannelPlan {
    pub first_channel: Frequency,
    pub channel_step: Frequency,
    pub count: usize,
    pub bandwidth: Frequency,
    pub coding_rate: Option<CodingRate>,
    pub data_rate_min: DataRate,
    pub data_rate_max: DataRate,
}

/// One channel of a plan.
#[derive(Debug, Clone, Copy, PartialEq, Eq, Structural)]
pub struct ChannelDetails {
    pub frequency: Frequency,
    pub bandwidth: Frequency,
    pub data_rate_min: DataRate,
    pub data_rate_max: DataRate,
    pub coding_rate: Option<CodingRate>,
}

impl ChannelPlan {
    /// The frequency of channel `index` of the plan, in kHz.
    pub open spec fn channel_khz(&self, index: int) -> int {
        self.first_channel.khz + index * self.channel_step.khz
    }

    /// Channel `index` of the plan: the channels are `count` in number and
    /// `channel_step` apart, starting at `first_channel`. There is none where
    /// `index` is not below `count` or the frequency does not fit in 32 bits.
    pub open spec fn spec_get_move(&self, index: int) -> Option<ChannelDetails> {
        if 0 <= index < self.count && self.channel_khz(index) <= u32::MAX {
            Some(
                ChannelDetails {
                    frequency: Frequency { khz: self.channel_khz(index) as u32 },
                    bandwidth: self.bandwidth,
                    data_rate_min: self.data_rate_min,
                    data_rate_max: self.data_rate_max,
                    coding_rate: self.coding_rate,
                },
            )
        } else {
            None
        }
    }

    /// Materializes channel `index` of the plan.
    pub fn get_move(&self, index: usize) -> (r: Option<ChannelDetails>)
        ensures
            r == self.spec_get_move(index as int),
    {
        if index >= self.count {
            return None;
        }
        assert(index * self.channel_step.khz <= 0xffff_ffff_ffff_ffff * 0xffff_ffff)
            by (nonlinear_arith)
            requires
                index <= 0xffff_ffff_ffff_ffff,
                self.channel_step.khz <= 0xffff_ffff,
        ;
        let khz: u128 = self.first_channel.khz as u128 + (index as u128) * (
        self.channel_step.khz as u128);
        if khz > u32::MAX as u128 {
            return None;
        }
        Some(
            ChannelDetails {
                frequency: Frequency { khz: khz as u32 },
                bandwidth: self.bandwidth,
                data_rate_min: self.data_rate_min,
                data_rate_max: self.data_rate_max,
                coding_rate: self.coding_rate,
            },
        )
    }

    /// The number of channels in the plan.
    pub fn len(&self) -> (n: usize)
        ensures
            n == self.count,
    {
        self.count
    }
}

/// Channel `index` of a sequence of plans, where the channels of each plan
/// follow those of the plan before it.
pub open spec fn spec_channel_at(plans: Seq<ChannelPlan>, index: int) -> Option<ChannelDetails>
    decreases plans.len(),
{
    if plans.len() == 0 || index < 0 {
        None
    } else if index < plans[0].count {
        plans[0].spec_get_move(index)
    } else {
        spec_channel_at(plans.drop_first(), index - plans[0].count)
    }
}

/// Looks up a channel by its number in the plans of a band, as they are
/// returned by [`Band::upstream_channels`] and [`Band::downstream_channels`].
pub fn channel_at(plans: &[ChannelPlan], index: usize) -> (r: Option<ChannelDetails>)
    ensures
        r == spec_channel_at(plans@, index as int),
{
    let mut i: usize = 0;
    let mut rest: usize = index;
    assert(plans@.skip(0) =~= plans@);
    while i < plans.len()
        invariant
            i <= plans@.len(),
            spec_channel_at(plans@, index as int) == spec_channel_at(
                plans@.skip(i as int),
                rest as int,
            ),
        decreases plans@.len() - i,
    {
        let plan: &ChannelPlan = &plans[i];
        proof {
            assert(plans@.skip(i as int)[0] == plans@[i as int]);
            assert(plans@.skip(i as int).drop_first() =~= plans@.skip(i + 1));
        }
        if rest < plan.count {
            return plan.get_move(rest);
        }
        rest = rest - plan.count;
        i += 1;
    }
    assert(plans@.skip(i as int).len() == 0);
    None
}

#[derive(Debug, Clone, Copy, PartialEq, Eq, Structural)]
pub enum Modulation {
    Lora { sf: u8, bw: Frequency },
    Fsk {
        /// kbps
        rate: u32,
    },
    LrFhss { coding_rate: CodingRate, bandwidth: Frequency },
    Rfu,
}

#[derive(Debug, Clone, Copy, PartialEq, Eq, Structural)]
pub struct BeaconSettings {
    pub dr: DataRate,
    pub cr: CodingRate,
    pub polarity: Polarity,
    pub channels: ChannelSpec,
}

#[derive(Debug, Clone, Copy, PartialEq, Eq, Structural)]
pub enum ChannelSpec {
    /// Pick one of the downstream channels based on `channel_for_beacon()`.
    AllDownstream,
    /// Use this exact one frequency as the beacon default broadcast frequency.
    One(Frequency),
}

/// The downstream channel of the beacon that is sent at `beacon_time`, where
/// beacons are `beacon_period` apart.
///
/// Used when `BeaconSettings::channels` is set to `AllDownstream`.
pub fn channel_for_beacon(beacon_time: u32, beacon_period: u32) -> (channel: u8)
    requires
        beacon_period != 0,
    ensures
        channel == (beacon_time / beacon_period) % 8,
        channel < 8,
{
    ((beacon_time / beacon_period) % 8) as u8
}

/// The bands whose rules this library holds.
///
/// A region is picked once for a device session, and every rule of its band
/// is asked of it.
#[derive(Debug, Clone, Copy, PartialEq, Eq, Structural)]
pub enum Region {
    Eu868,
    Us915,
}

impl BandId {
    /// The region of the band, where the library holds its rules.
    pub open spec fn spec_region(&self) -> Option<Region> {
        match *self {
            BandId::Eu868 => Some(Region::Eu868),
            BandId::US915 => Some(Region::Us915),
            _ => None,
        }
    }

    #[verifier::when_used_as_spec(spec_region)]
    pub fn region(&self) -> (r: Option<Region>)
        ensures
            r == self.spec_region(),
    {
        match *self {
            BandId::Eu868 => Some(Region::Eu868),
            BandId::US915 => Some(Region::Us915),
            _ => None,
        }
    }
}

impl Region {
    pub open spec fn spec_band_id(&self) -> BandId {
        match *self {
            Region::Eu868 => BandId::Eu868,
            Region::Us915 => BandId::US915,
        }
    }

    pub open spec fn spec_channel_mask_apply(
        &self,
        channel_mask_cntl: u8,
        channel_mask: u16,
        current_channel_mask: u128,
    ) -> Result<u128, ()> {
        match *self {
            Region::Eu868 => eu863::eu868_channel_mask_apply(
                channel_mask_cntl,
                channel_mask,
                current_channel_mask,
            ),
            Region::Us915 => us915::us915_channel_mask_apply(
                channel_mask_cntl,
                channel_mask,
                current_channel_mask,
            ),
        }
    }

    pub open spec fn spec_upstream_channels(&self) -> Seq<ChannelPlan> {
        match *self {
            Region::Eu868 => eu863::eu868_upstream_channels(),
            Region::Us915 => us915::us915_upstream_channels(),
        }
    }

    pub open spec fn spec_downstream_channels(&self) -> Seq<ChannelPlan> {
        match *self {
            Region::Eu868 => eu863::eu868_downstream_channels(),
            Region::Us915 => us915::us915_downstream_channels(),
        }
    }

    pub open spec fn spec_data_rates(&self) -> Seq<Modulation> {
        match *self {
            Region::Eu868 => eu863::eu868_data_rates(),
            Region::Us915 => us915::us915_data_rates(),
        }
    }

    pub open spec fn spec_backoff_data_rate(&self, dr_current: DataRate) -> Option<DataRate> {
        match *self {
            Region::Eu868 => eu863::eu868_backoff_data_rate(dr_current),
            Region::Us915 => us915::us915_backoff_data_rate(dr_current),
        }
    }

    pub open spec fn spec_cflist_type(&self) -> CflistType {
        match *self {
            Region::Eu868 => eu863::eu868_cflist_type(),
            Region::Us915 => us915::us915_cflist_type(),
        }
    }

    pub open spec fn spec_maximum_payload_size(&self, data_rate: u8) -> Option<u8> {
        match *self {
            Region::Eu868 => eu863::eu868_maximum_payload_size(data_rate),
            Region::Us915 => us915::us915_maximum_payload_size(data_rate),
        }
    }

    pub open spec fn spec_maximum_payload_size_absent_repeaters(&self, data_rate: u8) -> Option<
        u8,
    > {
        match *self {
            Region::Eu868 => eu863::eu868_maximum_payload_size_absent_repeaters(data_rate),
            Region::Us915 => us915::us915_maximum_payload_size_absent_repeaters(data_rate),
        }
    }

    pub open spec fn spec_beacon_settings(&self) -> BeaconSettings {
        match *self {
            Region::Eu868 => eu863::eu868_beacon_settings(),
            Region::Us915 => us915::us915_beacon_settings(),
        }
    }

    pub open spec fn spec_rx1_recv_channel(&self, transmit_channel: u8) -> u8 {
        match *self {
            Region::Eu868 => eu863::eu868_rx1_recv_channel(transmit_channel),
            Region::Us915 => us915::us915_rx1_recv_channel(transmit_channel),
        }
    }

    pub open spec fn spec_rx1_dr_table(&self) -> Seq<Seq<u8>> {
        match *self {
            Region::Eu868 => eu863::eu868_rx1_dr_table(),
            Region::Us915 => us915::us915_rx1_dr_table(),
        }
    }

    pub open spec fn spec_rx2_window_details(&self) -> (Frequency, DataRate) {
        match *self {
            Region::Eu868 => eu863::eu868_rx2_window_details(),
            Region::Us915 => us915::us915_rx2_window_details(),
        }
    }

    #[verifier::when_used_as_spec(spec_band_id)]
    pub fn band_id(&self) -> (id: BandId)
        ensures
            id == self.spec_band_id(),
            id.spec_region() == Some(*self),
    {
        match *self {
            Region::Eu868 => BandId::Eu868,
            Region::Us915 => BandId::US915,
        }
    }

    /// See [`Band::channel_mask_apply`].
    pub fn channel_mask_apply(
        &self,
        channel_mask_cntl: u8,
        channel_mask: u16,
        current_channel_mask: u128,
    ) -> (r: Result<u128, ()>)
        ensures
            r == self.spec_channel_mask_apply(
                channel_mask_cntl,
                channel_mask,
                current_channel_mask,
            ),
    {
        match *self {
            Region::Eu868 => Eu868.channel_mask_apply(
                channel_mask_cntl,
                channel_mask,
                current_channel_mask,
            ),
            Region::Us915 => Us915.channel_mask_apply(
                channel_mask_cntl,
                channel_mask,
                current_channel_mask,
            ),
        }
    }

    pub fn upstream_channels(&self) -> (plans: Vec<ChannelPlan>)
        ensures
            plans@ == self.spec_upstream_channels(),
    {
        match *self {
            Region::Eu868 => Eu868.upstream_channels(),
            Region::Us915 => Us915.upstream_channels(),
        }
    }

    pub fn downstream_channels(&self) -> (plans: Vec<ChannelPlan>)
        ensures
            plans@ == self.spec_downstream_channels(),
    {
        match *self {
            Region::Eu868 => Eu868.downstream_channels(),
            Region::Us915 => Us915.downstream_channels(),
        }
    }

    pub fn data_rates(&self) -> (table: Vec<Modulation>)
        ensures
            table@ == self.spec_data_rates(),
    {
        match *self {
            Region::Eu868 => Eu868.data_rates(),
            Region::Us915 => Us915.data_rates(),
        }
    }

    /// See [`Band::backoff_data_rate`].
    pub fn backoff_data_rate(&self, dr_current: DataRate) -> (r: Option<DataRate>)
        ensures
            r == self.spec_backoff_data_rate(dr_current),
    {
        match *self {
            Region::Eu868 => Eu868.backoff_data_rate(dr_current),
            Region::Us915 => Us915.backoff_data_rate(dr_current),
        }
    }

    pub fn cflist_type(&self) -> (t: CflistType)
        ensures
            t == self.spec_cflist_type(),
    {
        match *self {
            Region::Eu868 => Eu868.cflist_type(),
            Region::Us915 => Us915.cflist_type(),
        }
    }

    pub fn maximum_payload_size(&self, data_rate: u8) -> (r: Option<u8>)
        ensures
            r == self.spec_maximum_payload_size(data_rate),
    {
        match *self {
            Region::Eu868 => Eu868::maximum_payload_size(data_rate),
            Region::Us915 => Us915::maximum_payload_size(data_rate),
        }
    }

    pub fn maximum_payload_size_absent_repeaters(&self, data_rate: u8) -> (r: Option<u8>)
        ensures
            r == self.spec_maximum_payload_size_absent_repeaters(data_rate),
    {
        match *self {
            Region::Eu868 => Eu868::maximum_payload_size_absent_repeaters(data_rate),
            Region::Us915 => Us915::maximum_payload_size_absent_repeaters(data_rate),
        }
    }

    pub fn beacon_settings(&self) -> (s: BeaconSettings)
        ensures
            s == self.spec_beacon_settings(),
    {
        match *self {
            Region::Eu868 => Eu868.beacon_settings(),
            Region::Us915 => Us915.beacon_settings(),
        }
    }

    pub fn rx1_recv_channel(&self, transmit_channel: u8) -> (channel: u8)
        ensures
            channel == self.spec_rx1_recv_channel(transmit_channel),
    {
        match *self {
            Region::Eu868 => Eu868::rx1_recv_channel(transmit_channel),
            Region::Us915 => Us915::rx1_recv_channel(transmit_channel),
        }
    }

    /// See [`Band::rx1_window_data_rate`].
    pub fn rx1_window_data_rate(&self, upstream_datarate: DataRate, rx1_dr_offset: u8) -> (r:
        Option<DataRate>)
        ensures
            r == rx1_table_lookup(self.spec_rx1_dr_table(), upstream_datarate, rx1_dr_offset),
    {
        match *self {
            Region::Eu868 => Eu868::rx1_window_data_rate(upstream_datarate, rx1_dr_offset),
            Region::Us915 => Us915::rx1_window_data_rate(upstream_datarate, rx1_dr_offset),
        }
    }

    pub fn rx2_window_details(&self) -> (r: (Frequency, DataRate))
        ensures
            r == self.spec_rx2_window_details(),
    {
        match *self {
            Region::Eu868 => Eu868.rx2_window_details(),
            Region::Us915 => Us915.rx2_window_details(),
        }
    }
}

/// In every region a `LinkADRReq` whose `ChMaskCntl` the band does not define
/// is rejected, whatever the mask was and whatever `ChMask` holds: 1 to 5 and
/// 7 and above in EU863-870, 8 and above in US902-928. Every other value is
/// accepted.
pub proof fn lemma_channel_mask_rejects_undefined(
    region: Region,
    channel_mask_cntl: u8,
    channel_mask: u16,
    current: u128,
)
    ensures
        region.spec_channel_mask_apply(channel_mask_cntl, channel_mask, current) is Err
            <==> match region {
            Region::Eu868 => channel_mask_cntl != 0 && channel_mask_cntl != 6,
            Region::Us915 => channel_mask_cntl >= 8,
        },
{
}

/// In every region the first receive window has a data rate exactly where the
/// upstream data rate has a row in the region's table and the offset has a
/// column: rows 0 to 11 and columns 0 to 5 in EU863-870, rows 0 to 6 and
/// columns 0 to 3 in US902-928. The data rate is then the entry of the table.
pub proof fn lemma_rx1_window_data_rate(region: Region, upstream: DataRate, offset: u8)
    ensures
        rx1_table_lookup(region.spec_rx1_dr_table(), upstream, offset) is Some <==> match region {
            Region::Eu868 => upstream.index() < 12 && offset < 6,
            Region::Us915 => upstream.index() < 7 && offset < 4,
        },
        rx1_table_lookup(region.spec_rx1_dr_table(), upstream, offset) matches Some(dr)
            ==> dr.index() == region.spec_rx1_dr_table()[upstream.index() as int][offset as int],
{
    match region {
        Region::Eu868 => eu863::lemma_eu868_rx1_window_data_rate(upstream, offset),
        Region::Us915 => us915::lemma_us915_rx1_window_data_rate(upstream, offset),
    }
}

} // verus!
