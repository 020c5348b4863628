//! US902-928 MHz ISM band, as defined by RP002-1.0.3, 2.5.
use crate::parameters::{
    ch_mask_bit, channel_enabled, rx1_row_lookup, Band, BeaconSettings, CflistType, ChannelPlan,
    ChannelSpec, Modulation, Polarity, Region,
};
use crate::{CodingRate, DataRate, Frequency};
use vstd::prelude::*;

verus! {

/// US902-928 MHz ISM band.
#[derive(Debug, Clone, Copy, PartialEq, Eq, Structural)]
pub struct Us915;

/// The channel mask `mask` with the sixteen channels of group `group` all
/// enabled or all disabled.
pub open spec fn with_group(mask: u128, group: u32, enabled: bool) -> u128 {
    if enabled {
        mask | (0xffffu128 << (16 * group) as u32)
    } else {
        mask & !(0xffffu128 << (16 * group) as u32)
    }
}

/// The channel mask `mask` after the groups below `groups` have been enabled
/// or disabled as a whole, each by its bit in `flags`.
pub open spec fn with_group_flags(mask: u128, flags: u16, groups: u32) -> u128
    decreases groups,
{
    if groups == 0 {
        mask
    } else {
        with_group(
            with_group_flags(mask, flags, (groups - 1) as u32),
            (groups - 1) as u32,
            (flags >> (groups - 1) as u32) & 1 == 1,
        )
    }
}

/// - `ChMaskCntl` 0 to 4 replaces the sixteen channels from
///   `16 * ChMaskCntl` on by `ChMask`.
/// - 5 takes each of the low seven bits of `ChMask` as a switch for a
///   whole group of sixteen channels, groups 0 to 6.
/// - 6 enables the 64 channels of 125 kHz, and sets channels 64 to 79 from
///   `ChMask`.
/// - 7 does the same, but disables the 64 channels of 125 kHz.
/// - 8 and above are rejected.
pub open spec fn us915_channel_mask_apply(
    channel_mask_cntl: u8,
    channel_mask: u16,
    current_channel_mask: u128,
) -> Result<u128, ()> {
    if channel_mask_cntl <= 4 {
        Ok(
            (current_channel_mask & !(0xffffu128 << (16 * channel_mask_cntl) as u32)) | ((
            channel_mask as u128) << (16 * channel_mask_cntl) as u32),
        )
    } else if channel_mask_cntl == 5 {
        Ok(with_group_flags(current_channel_mask, channel_mask, 7))
    } else if channel_mask_cntl == 6 {
        Ok(0xffff_ffff_ffff_ffffu128 | ((channel_mask as u128) << 64u32))
    } else if channel_mask_cntl == 7 {
        Ok((channel_mask as u128) << 64u32)
    } else {
        Err(())
    }
}

/// 64 channels of 125 kHz from 902.3 MHz, then 8 channels of 500 kHz from
/// 903.0 MHz.
pub open spec fn us915_upstream_channels() -> Seq<ChannelPlan> {
    seq![
        ChannelPlan {
            first_channel: Frequency { khz: 902_300 },
            channel_step: Frequency { khz: 200 },
            count: 64,
            bandwidth: Frequency { khz: 125 },
            coding_rate: Some(CodingRate::Cr4_5),
            data_rate_min: DataRate::_0,
            data_rate_max: DataRate::_3,
        },
        ChannelPlan {
            first_channel: Frequency { khz: 903_000 },
            channel_step: Frequency { khz: 1_600 },
            count: 8,
            bandwidth: Frequency { khz: 500 },
            coding_rate: None,
            data_rate_min: DataRate::_4,
            data_rate_max: DataRate::_4,
        },
    ]
}

/// 8 channels, 600 kHz apart, from 923.3 MHz.
pub open spec fn us915_downstream_channels() -> Seq<ChannelPlan> {
    seq![
        ChannelPlan {
            first_channel: Frequency { khz: 923_300 },
            channel_step: Frequency { khz: 600 },
            count: 8,
            bandwidth: Frequency { khz: 600 },
            coding_rate: None,
            data_rate_min: DataRate::_8,
            data_rate_max: DataRate::_13,
        },
    ]
}

pub open spec fn us915_data_rates() -> Seq<Modulation> {
    seq![
        Modulation::Lora { sf: 10, bw: Frequency { khz: 125 } },
        Modulation::Lora { sf: 9, bw: Frequency { khz: 125 } },
        Modulation::Lora { sf: 8, bw: Frequency { khz: 125 } },
        Modulation::Lora { sf: 7, bw: Frequency { khz: 125 } },
        Modulation::Lora { sf: 8, bw: Frequency { khz: 500 } },
        Modulation::LrFhss {
            coding_rate: CodingRate::Cr1_3,
            bandwidth: Frequency { khz: 1_523 },
        },
        Modulation::LrFhss {
            coding_rate: CodingRate::Cr2_3,
            bandwidth: Frequency { khz: 1_523 },
        },
        Modulation::Rfu,
        Modulation::Lora { sf: 12, bw: Frequency { khz: 500 } },
        Modulation::Lora { sf: 11, bw: Frequency { khz: 500 } },
        Modulation::Lora { sf: 10, bw: Frequency { khz: 500 } },
        Modulation::Lora { sf: 9, bw: Frequency { khz: 500 } },
        Modulation::Lora { sf: 8, bw: Frequency { khz: 500 } },
        Modulation::Lora { sf: 7, bw: Frequency { khz: 500 } },
        Modulation::Rfu,
    ]
}

/// The data rate backoff table of the band. It ends at data rate 6.
pub open spec fn us915_backoff_data_rate(dr_current: DataRate) -> Option<DataRate> {
    match dr_current {
        DataRate::_0 => Some(DataRate::_0),
        DataRate::_1 => Some(DataRate::_0),
        DataRate::_2 => Some(DataRate::_1),
        DataRate::_3 => Some(DataRate::_2),
        DataRate::_4 => Some(DataRate::_3),
        DataRate::_5 => Some(DataRate::_0),
        DataRate::_6 => Some(DataRate::_5),
        _ => None,
    }
}

pub open spec fn us915_cflist_type() -> CflistType {
    CflistType::Mask
}

pub open spec fn us915_maximum_payload_size(data_rate: u8) -> Option<u8> {
    if data_rate == 0 {
        Some(19)
    } else if data_rate == 1 || data_rate == 8 {
        Some(61)
    } else if data_rate == 2 || data_rate == 6 {
        Some(133)
    } else if data_rate == 3 || data_rate == 4 || (10 <= data_rate <= 13) {
        Some(230)
    } else if data_rate == 5 {
        Some(58)
    } else if data_rate == 9 {
        Some(137)
    } else {
        None
    }
}

pub open spec fn us915_maximum_payload_size_absent_repeaters(data_rate: u8) -> Option<u8> {
    if data_rate == 0 {
        Some(19)
    } else if data_rate == 1 || data_rate == 8 {
        Some(61)
    } else if data_rate == 2 || data_rate == 6 {
        Some(133)
    } else if data_rate == 3 || data_rate == 4 || (10 <= data_rate <= 13) {
        Some(250)
    } else if data_rate == 5 {
        Some(58)
    } else if data_rate == 9 {
        Some(137)
    } else {
        None
    }
}

/// Beacons go out on all downstream channels in turn.
pub open spec fn us915_beacon_settings() -> BeaconSettings {
    BeaconSettings {
        dr: DataRate::_4,
        cr: CodingRate::Cr4_5,
        polarity: Polarity::Normal,
        channels: ChannelSpec::AllDownstream,
    }
}

/// The upstream channels fold onto the eight downstream channels.
pub open spec fn us915_rx1_recv_channel(transmit_channel: u8) -> u8 {
    transmit_channel % 8
}

/// The downlink RX1 data rate mapping of the band. Rows are the upstream
/// data rates 0 to 6, columns the offsets 0 to 3.
pub open spec fn us915_rx1_dr_table() -> Seq<Seq<u8>> {
    seq![
        seq![10u8, 9, 8, 8],
        seq![11u8, 10, 9, 8],
        seq![12u8, 11, 10, 9],
        seq![13u8, 12, 11, 10],
        seq![13u8, 13, 12, 11],
        seq![10u8, 9, 8, 8],
        seq![11u8, 10, 9, 8],
    ]
}

/// 923.3 MHz at data rate 0.
pub open spec fn us915_rx2_window_details() -> (Frequency, DataRate) {
    (Frequency { khz: 923_300 }, DataRate::_0)
}

impl Band for Us915 {
    open spec fn spec_region() -> Region {
        Region::Us915
    }

    fn channel_mask_apply(
        &self,
        channel_mask_cntl: u8,
        channel_mask: u16,
        current_channel_mask: u128,
    ) -> (r: Result<u128, ()>) {
        match channel_mask_cntl {
            0 | 1 | 2 | 3 | 4 => {
                let shift: u32 = (channel_mask_cntl as u32) * 16;
                let mask: u128 = current_channel_mask & !(0xffffu128 << shift);
                let mask: u128 = mask | ((channel_mask as u128) << shift);
                Ok(mask)
            },
            5 => {
                let mut mask: u128 = current_channel_mask;
                let mut i: u32 = 0;
                while i < 7
                    invariant
                        i <= 7,
                        mask == with_group_flags(current_channel_mask, channel_mask, i),
                    decreases 7 - i,
                {
                    let shift: u32 = i * 16;
                    let m: u128 = 0xffffu128 << shift;
                    if (channel_mask >> i) & 1 == 1 {
                        mask = mask | m;
                    } else {
                        mask = mask & !m;
                    }
                    i += 1;
                }
                Ok(mask)
            },
            6 | 7 => {
                // the first 64 channels are 125kHz in the standard channel plan
                let mask_125khz: u128 = if channel_mask_cntl == 6 {
                    0xffff_ffff_ffff_ffffu128
                } else {
                    0
                };
                assert(0u128 | ((channel_mask as u128) << 64u32) == (channel_mask as u128)
                    << 64u32) by (bit_vector);
                Ok(mask_125khz | ((channel_mask as u128) << 64u32))
            },
            _ => Err(()),
        }
    }

    fn upstream_channels(&self) -> (plans: Vec<ChannelPlan>) {
        let plans: Vec<ChannelPlan> = vec![
            ChannelPlan {
                first_channel: Frequency::from_khz(902_300),
                channel_step: Frequency::from_khz(200),
                count: 64,
                bandwidth: Frequency::from_khz(125),
                coding_rate: Some(CodingRate::Cr4_5),
                data_rate_min: DataRate::_0,
                data_rate_max: DataRate::_3,
            },
            ChannelPlan {
                first_channel: Frequency::from_khz(903_000),
                channel_step: Frequency::from_khz(1_600),
                count: 8,
                bandwidth: Frequency::from_khz(500),
                coding_rate: None,
                data_rate_min: DataRate::_4,
                data_rate_max: DataRate::_4,
            },
        ];
        assert(plans@ =~= us915_upstream_channels());
        plans
    }

    fn downstream_channels(&self) -> (plans: Vec<ChannelPlan>) {
        let plans: Vec<ChannelPlan> = vec![
            ChannelPlan {
                first_channel: Frequency::from_khz(923_300),
                channel_step: Frequency::from_khz(600),
                count: 8,
                bandwidth: Frequency::from_khz(600),
                coding_rate: None,
                data_rate_min: DataRate::_8,
                data_rate_max: DataRate::_13,
            },
        ];
        assert(plans@ =~= us915_downstream_channels());
        plans
    }

    fn data_rates(&self) -> (table: Vec<Modulation>) {
        let table: Vec<Modulation> = vec![
            Modulation::Lora { sf: 10, bw: Frequency::from_khz(125) },
            Modulation::Lora { sf: 9, bw: Frequency::from_khz(125) },
            Modulation::Lora { sf: 8, bw: Frequency::from_khz(125) },
            Modulation::Lora { sf: 7, bw: Frequency::from_khz(125) },
            Modulation::Lora { sf: 8, bw: Frequency::from_khz(500) },
            Modulation::LrFhss {
                coding_rate: CodingRate::Cr1_3,
                bandwidth: Frequency::from_khz(1_523),
            },
            Modulation::LrFhss {
                coding_rate: CodingRate::Cr2_3,
                bandwidth: Frequency::from_khz(1_523),
            },
            Modulation::Rfu,
            Modulation::Lora { sf: 12, bw: Frequency::from_khz(500) },
            Modulation::Lora { sf: 11, bw: Frequency::from_khz(500) },
            Modulation::Lora { sf: 10, bw: Frequency::from_khz(500) },
            Modulation::Lora { sf: 9, bw: Frequency::from_khz(500) },
            Modulation::Lora { sf: 8, bw: Frequency::from_khz(500) },
            Modulation::Lora { sf: 7, bw: Frequency::from_khz(500) },
            Modulation::Rfu,
        ];
        assert(table@ =~= us915_data_rates());
        table
    }

    fn backoff_data_rate(&self, dr_current: DataRate) -> (r: Option<DataRate>) {
        let next: u8 = match u8::from(dr_current) {
            0 => 0,
            1 => 0,
            2 => 1,
            3 => 2,
            4 => 3,
            5 => 0,
            6 => 5,
            _ => return None,
        };
        match DataRate::try_from(next) {
            Ok(dr) => Some(dr),
            Err(_) => None,
        }
    }

    fn cflist_type(&self) -> (t: CflistType) {
        CflistType::Mask
    }

    fn maximum_payload_size(data_rate: u8) -> (r: Option<u8>) {
        Some(
            match data_rate {
                0 => 19,
                1 => 61,
                2 => 133,
                3 => 230,
                4 => 230,
                5 => 58,
                6 => 133,
                7 => return None,
                8 => 61,
                9 => 137,
                10 => 230,
                11 => 230,
                12 => 230,
                13 => 230,
                _ => return None,
            },
        )
    }

    fn maximum_payload_size_absent_repeaters(data_rate: u8) -> (r: Option<u8>) {
        Some(
            match data_rate {
                0 => 19,
                1 => 61,
                2 => 133,
                3 => 250,
                4 => 250,
                5 => 58,
                6 => 133,
                7 => return None,
                8 => 61,
                9 => 137,
                10 => 250,
                11 => 250,
                12 => 250,
                13 => 250,
                _ => return None,
            },
        )
    }

    fn beacon_settings(&self) -> (s: BeaconSettings) {
        BeaconSettings {
            dr: DataRate::_4,
            cr: CodingRate::Cr4_5,
            polarity: Polarity::Normal,
            channels: ChannelSpec::AllDownstream,
        }
    }

    fn rx1_recv_channel(transmit_channel: u8) -> (channel: u8) {
        transmit_channel % 8
    }

    fn rx1_window_data_rate(upstream_datarate: DataRate, rx1_dr_offset: u8) -> (r: Option<
        DataRate,
    >) {
        let row: [u8; 4] = match u8::from(upstream_datarate) {
            0 => [10, 9, 8, 8],
            1 => [11, 10, 9, 8],
            2 => [12, 11, 10, 9],
            3 => [13, 12, 11, 10],
            4 => [13, 13, 12, 11],
            5 => [10, 9, 8, 8],
            6 => [11, 10, 9, 8],
            _ => return None,
        };
        assert(row@ =~= us915_rx1_dr_table()[upstream_datarate.index() as int]);
        rx1_row_lookup(row.as_slice(), rx1_dr_offset)
    }

    fn rx2_window_details(&self) -> (r: (Frequency, DataRate)) {
        (Frequency::from_khz(923_300), DataRate::_0)
    }
}

/// In US902-928 every `ChMaskCntl` from 8 on is rejected, and no other is.
pub proof fn lemma_us915_channel_mask_rejects(
    channel_mask_cntl: u8,
    channel_mask: u16,
    current: u128,
)
    ensures
        channel_mask_cntl >= 8 <==> us915_channel_mask_apply(
            channel_mask_cntl,
            channel_mask,
            current,
        ) is Err,
{
}

/// What an accepted `LinkADRReq` does to each channel in US902-928.
///
/// - `ChMaskCntl` 0 to 4: the sixteen channels from `16 * ChMaskCntl` on are
///   set from the bits of `ChMask`; every other channel stays as it was.
/// - 5: each channel below 112 is set from the bit of `ChMask` that stands for
///   its group of sixteen; the channels from 112 on stay as they were.
/// - 6: the channels below 64 are enabled, channels 64 to 79 are set from the
///   bits of `ChMask`, and the channels from 80 on are disabled.
/// - 7: as 6, but the channels below 64 are disabled.
pub proof fn lemma_us915_channel_mask_bits(
    channel_mask_cntl: u8,
    channel_mask: u16,
    current: u128,
    channel: u32,
)
    requires
        channel_mask_cntl <= 7,
        channel < 128,
    ensures
        ({
            let after = us915_channel_mask_apply(
                channel_mask_cntl,
                channel_mask,
                current,
            ).unwrap();
            channel_enabled(after, channel) == if channel_mask_cntl <= 4 {
                if 16 * channel_mask_cntl <= channel < 16 * channel_mask_cntl + 16 {
                    ch_mask_bit(channel_mask, (channel - 16 * channel_mask_cntl) as u32)
                } else {
                    channel_enabled(current, channel)
                }
            } else if channel_mask_cntl == 5 {
                if channel < 112 {
                    ch_mask_bit(channel_mask, channel / 16)
                } else {
                    channel_enabled(current, channel)
                }
            } else if channel < 64 {
                channel_mask_cntl == 6
            } else if channel < 80 {
                ch_mask_bit(channel_mask, (channel - 64) as u32)
            } else {
                false
            }
        }),
{
    let cntl: u32 = channel_mask_cntl as u32;
    if channel_mask_cntl <= 4 {
        let after: u128 = (current & !(0xffffu128 << (16 * cntl) as u32)) | ((channel_mask as u128)
            << (16 * cntl) as u32);
        assert(((after >> channel) & 1 == 1) == (if 16 * cntl <= channel && channel < 16 * cntl
            + 16 {
            (channel_mask >> ((channel - 16 * cntl) as u32)) & 1 == 1
        } else {
            (current >> channel) & 1 == 1
        })) by (bit_vector)
            requires
                cntl <= 4,
                channel < 128,
                after == (current & !(0xffffu128 << (16 * cntl) as u32)) | ((channel_mask as u128)
                    << (16 * cntl) as u32),
        ;
    } else if channel_mask_cntl == 5 {
        reveal_with_fuel(with_group_flags, 8);
        let after: u128 = with_group(
            with_group(
                with_group(
                    with_group(
                        with_group(
                            with_group(
                                with_group(current, 0, (channel_mask >> 0u32) & 1 == 1),
                                1,
                                (channel_mask >> 1u32) & 1 == 1,
                            ),
                            2,
                            (channel_mask >> 2u32) & 1 == 1,
                        ),
                        3,
                        (channel_mask >> 3u32) & 1 == 1,
                    ),
                    4,
                    (channel_mask >> 4u32) & 1 == 1,
                ),
                5,
                (channel_mask >> 5u32) & 1 == 1,
            ),
            6,
            (channel_mask >> 6u32) & 1 == 1,
        );
        assert(after == with_group_flags(current, channel_mask, 7));
        assert(((after >> channel) & 1 == 1) == (if channel < 112 {
            (channel_mask >> (channel / 16)) & 1 == 1
        } else {
            (current >> channel) & 1 == 1
        })) by (bit_vector)
            requires
                channel < 128,
                after == with_group(
                    with_group(
                        with_group(
                            with_group(
                                with_group(
                                    with_group(
                                        with_group(current, 0, (channel_mask >> 0u32) & 1 == 1),
                                        1,
                                        (channel_mask >> 1u32) & 1 == 1,
                                    ),
                                    2,
                                    (channel_mask >> 2u32) & 1 == 1,
                                ),
                                3,
                                (channel_mask >> 3u32) & 1 == 1,
                            ),
                            4,
                            (channel_mask >> 4u32) & 1 == 1,
                        ),
                        5,
                        (channel_mask >> 5u32) & 1 == 1,
                    ),
                    6,
                    (channel_mask >> 6u32) & 1 == 1,
                ),
        ;
    } else {
        let low: u128 = if channel_mask_cntl == 6 {
            0xffff_ffff_ffff_ffffu128
        } else {
            0
        };
        let after: u128 = low | ((channel_mask as u128) << 64u32);
        assert(0u128 | ((channel_mask as u128) << 64u32) == (channel_mask as u128) << 64u32)
            by (bit_vector);
        assert(((after >> channel) & 1 == 1) == (if channel < 64 {
            low == 0xffff_ffff_ffff_ffffu128
        } else if channel < 80 {
            (channel_mask >> ((channel - 64) as u32)) & 1 == 1
        } else {
            false
        })) by (bit_vector)
            requires
                channel < 128,
                low == 0xffff_ffff_ffff_ffffu128 || low == 0,
                after == low | ((channel_mask as u128) << 64u32),
        ;
    }
}

/// In US902-928 the first receive window has a data rate exactly for the
/// upstream data rates 0 to 6 with the offsets 0 to 3, and it is the entry of
/// the band's table in that row and column.
pub proof fn lemma_us915_rx1_window_data_rate(upstream: DataRate, offset: u8)
    ensures
        (upstream.index() < 7 && offset < 4) <==> crate::parameters::rx1_table_lookup(
            us915_rx1_dr_table(),
            upstream,
            offset,
        ) is Some,
        upstream.index() < 7 && offset < 4 ==> crate::parameters::rx1_table_lookup(
            us915_rx1_dr_table(),
            upstream,
            offset,
        ).unwrap().index() == us915_rx1_dr_table()[upstream.index() as int][offset as int],
{
    let table = us915_rx1_dr_table();
    assert(table.len() == 7);
    if upstream.index() < 7 {
        let row = table[upstream.index() as int];
        assert(row.len() == 4);
        if offset < 4 {
            assert(8 <= row[offset as int] <= 13);
            crate::lemma_data_rate_index(upstream, row[offset as int]);
        }
    }
}

} // verus!
