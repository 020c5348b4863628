//! EU863-870 MHz band, as defined by RP002-1.0.3, 2.4.
use crate::parameters::{
    rx1_row_lookup, Band, BeaconSettings, CflistType, ChannelPlan, ChannelSpec, Modulation,
    Polarity, Region,
};
use crate::{CodingRate, DataRate, Frequency};
use vstd::prelude::*;

verus! {

/// EU863-870 MHz band.
#[derive(Debug, Clone, Copy, PartialEq, Eq, Structural)]
pub struct Eu868;

/// `ChMaskCntl` 0 enables the channels among 0 to 15 whose bit is set in
/// `ChMask` and leaves every other channel as it is; 6 enables all
/// channels; every other value is reserved.
pub open spec fn eu868_channel_mask_apply(
    channel_mask_cntl: u8,
    channel_mask: u16,
    current_channel_mask: u128,
) -> Result<u128, ()> {
    if channel_mask_cntl == 0 {
        Ok(current_channel_mask | (channel_mask as u128))
    } else if channel_mask_cntl == 6 {
        Ok(u128::MAX)
    } else {
        Err(())
    }
}

/// Three channels of 125 kHz, 200 kHz apart, from 868.1 MHz.
pub open spec fn eu868_upstream_channels() -> Seq<ChannelPlan> {
    seq![
        ChannelPlan {
            first_channel: Frequency { khz: 868_100 },
            channel_step: Frequency { khz: 200 },
            count: 3,
            bandwidth: Frequency { khz: 125 },
            coding_rate: None,
            data_rate_min: DataRate::_0,
            data_rate_max: DataRate::_5,
        },
    ]
}

/// The downstream channels are the upstream channels.
pub open spec fn eu868_downstream_channels() -> Seq<ChannelPlan> {
    eu868_upstream_channels()
}

pub open spec fn eu868_data_rates() -> Seq<Modulation> {
    seq![
        Modulation::Lora { sf: 12, bw: Frequency { khz: 125 } },
        Modulation::Lora { sf: 11, bw: Frequency { khz: 125 } },
        Modulation::Lora { sf: 10, bw: Frequency { khz: 125 } },
        Modulation::Lora { sf: 9, bw: Frequency { khz: 125 } },
        Modulation::Lora { sf: 8, bw: Frequency { khz: 125 } },
        Modulation::Lora { sf: 7, bw: Frequency { khz: 125 } },
        Modulation::Lora { sf: 7, bw: Frequency { khz: 250 } },
        Modulation::Fsk { rate: 50 },
        Modulation::LrFhss { coding_rate: CodingRate::Cr1_3, bandwidth: Frequency { khz: 137 } },
        Modulation::LrFhss { coding_rate: CodingRate::Cr2_3, bandwidth: Frequency { khz: 137 } },
        Modulation::LrFhss { coding_rate: CodingRate::Cr1_3, bandwidth: Frequency { khz: 336 } },
        Modulation::LrFhss { coding_rate: CodingRate::Cr2_3, bandwidth: Frequency { khz: 336 } },
        Modulation::Rfu,
        Modulation::Rfu,
        Modulation::Rfu,
    ]
}

/// Table 9: EU863-870 data rate backoff table. It ends at data rate 11.
pub open spec fn eu868_backoff_data_rate(dr_current: DataRate) -> Option<DataRate> {
    match dr_current {
        DataRate::_0 => Some(DataRate::_0),
        DataRate::_1 => Some(DataRate::_1),
        DataRate::_2 => Some(DataRate::_1),
        DataRate::_3 => Some(DataRate::_2),
        DataRate::_4 => Some(DataRate::_3),
        DataRate::_5 => Some(DataRate::_4),
        DataRate::_6 => Some(DataRate::_5),
        DataRate::_7 => Some(DataRate::_6),
        DataRate::_8 => Some(DataRate::_0),
        DataRate::_9 => Some(DataRate::_8),
        DataRate::_10 => Some(DataRate::_0),
        DataRate::_11 => Some(DataRate::_10),
        _ => None,
    }
}

pub open spec fn eu868_cflist_type() -> CflistType {
    CflistType::Specific
}

pub open spec fn eu868_maximum_payload_size(data_rate: u8) -> Option<u8> {
    if data_rate <= 2 {
        Some(59)
    } else if data_rate == 3 {
        Some(123)
    } else if data_rate <= 7 {
        Some(230)
    } else if data_rate == 8 || data_rate == 10 {
        Some(58)
    } else if data_rate == 9 || data_rate == 11 {
        Some(123)
    } else {
        None
    }
}

pub open spec fn eu868_maximum_payload_size_absent_repeaters(data_rate: u8) -> Option<u8> {
    if data_rate <= 2 {
        Some(59)
    } else if data_rate == 3 {
        Some(123)
    } else if data_rate <= 7 {
        Some(250)
    } else if data_rate == 8 || data_rate == 10 {
        Some(58)
    } else if data_rate == 9 || data_rate == 11 {
        Some(123)
    } else {
        None
    }
}

/// Table 15: EU863-870 beacon settings.
pub open spec fn eu868_beacon_settings() -> BeaconSettings {
    BeaconSettings {
        dr: DataRate::_3,
        cr: CodingRate::Cr4_5,
        polarity: Polarity::Normal,
        channels: ChannelSpec::One(Frequency { khz: 434_665 }),
    }
}

/// "By default, the RX1 receive window uses the same channel as the
/// preceding uplink."
pub open spec fn eu868_rx1_recv_channel(transmit_channel: u8) -> u8 {
    transmit_channel
}

/// Table 14: EU863-870 downlink RX1 data rate mapping. Rows are the
/// upstream data rates 0 to 11, columns the offsets 0 to 5.
pub open spec fn eu868_rx1_dr_table() -> Seq<Seq<u8>> {
    seq![
        seq![0u8, 0, 0, 0, 0, 0],
        seq![1u8, 0, 0, 0, 0, 0],
        seq![2u8, 1, 0, 0, 0, 0],
        seq![3u8, 2, 1, 0, 0, 0],
        seq![4u8, 3, 2, 1, 0, 0],
        seq![5u8, 4, 3, 2, 1, 0],
        seq![6u8, 5, 4, 3, 2, 1],
        seq![7u8, 6, 5, 4, 3, 2],
        seq![1u8, 0, 0, 0, 0, 0],
        seq![2u8, 1, 0, 0, 0, 0],
        seq![1u8, 0, 0, 0, 0, 0],
        seq![2u8, 1, 0, 0, 0, 0],
    ]
}

/// 869.525 MHz at data rate 0.
pub open spec fn eu868_rx2_window_details() -> (Frequency, DataRate) {
    (Frequency { khz: 869_525 }, DataRate::_0)
}

impl Band for Eu868 {
    open spec fn spec_region() -> Region {
        Region::Eu868
    }

    fn channel_mask_apply(
        &self,
        channel_mask_cntl: u8,
        channel_mask: u16,
        current_channel_mask: u128,
    ) -> (r: Result<u128, ()>) {
        match channel_mask_cntl {
            0 => Ok(current_channel_mask | (channel_mask as u128)),
            // RFU
            1 | 2 | 3 | 4 | 5 => Err(()),
            6 => Ok(u128::MAX),
            _ => Err(()),
        }
    }

    fn upstream_channels(&self) -> (plans: Vec<ChannelPlan>) {
        let plans: Vec<ChannelPlan> = vec![
            ChannelPlan {
                first_channel: Frequency::from_khz(868_100),
                channel_step: Frequency::from_khz(200),
                count: 3,
                bandwidth: Frequency::from_khz(125),
                coding_rate: None,
                data_rate_min: DataRate::_0,
                data_rate_max: DataRate::_5,
            },
        ];
        assert(plans@ =~= eu868_upstream_channels());
        plans
    }

    fn downstream_channels(&self) -> (plans: Vec<ChannelPlan>) {
        self.upstream_channels()
    }

    fn data_rates(&self) -> (table: Vec<Modulation>) {
        let table: Vec<Modulation> = vec![
            Modulation::Lora { sf: 12, bw: Frequency::from_khz(125) },
            Modulation::Lora { sf: 11, bw: Frequency::from_khz(125) },
            Modulation::Lora { sf: 10, bw: Frequency::from_khz(125) },
            Modulation::Lora { sf: 9, bw: Frequency::from_khz(125) },
            Modulation::Lora { sf: 8, bw: Frequency::from_khz(125) },
            Modulation::Lora { sf: 7, bw: Frequency::from_khz(125) },
            Modulation::Lora { sf: 7, bw: Frequency::from_khz(250) },
            Modulation::Fsk { rate: 50 },
            Modulation::LrFhss {
                coding_rate: CodingRate::Cr1_3,
                bandwidth: Frequency::from_khz(137),
            },
            Modulation::LrFhss {
                coding_rate: CodingRate::Cr2_3,
                bandwidth: Frequency::from_khz(137),
            },
            Modulation::LrFhss {
                coding_rate: CodingRate::Cr1_3,
                bandwidth: Frequency::from_khz(336),
            },
            Modulation::LrFhss {
                coding_rate: CodingRate::Cr2_3,
                bandwidth: Frequency::from_khz(336),
            },
            Modulation::Rfu,
            Modulation::Rfu,
            Modulation::Rfu,
        ];
        assert(table@ =~= eu868_data_rates());
        table
    }

    fn backoff_data_rate(&self, dr_current: DataRate) -> (r: Option<DataRate>) {
        let next: u8 = match u8::from(dr_current) {
            0 => 0,
            1 => 1,
            2 => 1,
            3 => 2,
            4 => 3,
            5 => 4,
            6 => 5,
            7 => 6,
            8 => 0,
            9 => 8,
            10 => 0,
            11 => 10,
            // table ends here
            _ => return None,
        };
        match DataRate::try_from(next) {
            Ok(dr) => Some(dr),
            Err(_) => None,
        }
    }

    fn cflist_type(&self) -> (t: CflistType) {
        CflistType::Specific
    }

    fn maximum_payload_size(data_rate: u8) -> (r: Option<u8>) {
        Some(
            match data_rate {
                0 => 59,
                1 => 59,
                2 => 59,
                3 => 123,
                4 => 230,
                5 => 230,
                6 => 230,
                7 => 230,
                8 => 58,
                9 => 123,
                10 => 58,
                11 => 123,
                _ => return None,
            },
        )
    }

    fn maximum_payload_size_absent_repeaters(data_rate: u8) -> (r: Option<u8>) {
        Some(
            match data_rate {
                0 => 59,
                1 => 59,
                2 => 59,
                3 => 123,
                4 => 250,
                5 => 250,
                6 => 250,
                7 => 250,
                8 => 58,
                9 => 123,
                10 => 58,
                11 => 123,
                _ => return None,
            },
        )
    }

    fn beacon_settings(&self) -> (s: BeaconSettings) {
        BeaconSettings {
            cr: CodingRate::Cr4_5,
            dr: DataRate::_3,
            polarity: Polarity::Normal,
            channels: ChannelSpec::One(Frequency::from_khz(434_665)),
        }
    }

    fn rx1_recv_channel(transmit_channel: u8) -> (channel: u8) {
        transmit_channel
    }

    fn rx1_window_data_rate(upstream_datarate: DataRate, rx1_dr_offset: u8) -> (r: Option<
        DataRate,
    >) {
        let row: [u8; 6] = match u8::from(upstream_datarate) {
            0 => [0, 0, 0, 0, 0, 0],
            1 => [1, 0, 0, 0, 0, 0],
            2 => [2, 1, 0, 0, 0, 0],
            3 => [3, 2, 1, 0, 0, 0],
            4 => [4, 3, 2, 1, 0, 0],
            5 => [5, 4, 3, 2, 1, 0],
            6 => [6, 5, 4, 3, 2, 1],
            7 => [7, 6, 5, 4, 3, 2],
            8 => [1, 0, 0, 0, 0, 0],
            9 => [2, 1, 0, 0, 0, 0],
            10 => [1, 0, 0, 0, 0, 0],
            11 => [2, 1, 0, 0, 0, 0],
            _ => return None,
        };
        assert(row@ =~= eu868_rx1_dr_table()[upstream_datarate.index() as int]);
        rx1_row_lookup(row.as_slice(), rx1_dr_offset)
    }

    // rx2 fixed frequency and datarate
    // 869.525/DR0
    fn rx2_window_details(&self) -> (r: (Frequency, DataRate)) {
        (Frequency::from_khz(869_525), DataRate::_0)
    }
}

/// In EU863-870, `ChMaskCntl` 6 leads to the mask with all 128 bits set,
/// whatever the mask was and whatever `ChMask` holds, and applying it again
/// changes nothing. Every value but 0 and 6 is rejected.
pub proof fn lemma_eu868_channel_mask(channel_mask_cntl: u8, channel_mask: u16, current: u128)
    ensures
        eu868_channel_mask_apply(6, channel_mask, current) == Ok::<u128, ()>(u128::MAX),
        eu868_channel_mask_apply(6, channel_mask, u128::MAX) == Ok::<u128, ()>(u128::MAX),
        channel_mask_cntl != 0 && channel_mask_cntl != 6 <==> eu868_channel_mask_apply(
            channel_mask_cntl,
            channel_mask,
            current,
        ) is Err,
{
}

/// What `ChMaskCntl` 0 does to each channel in EU863-870: channel `channel`
/// below 16 is enabled afterwards where it was enabled before or its bit is
/// set in `ChMask`; every other channel stays as it was.
pub proof fn lemma_eu868_channel_mask_bits(channel_mask: u16, current: u128, channel: u32)
    requires
        channel < 128,
    ensures
        ({
            let after = eu868_channel_mask_apply(0, channel_mask, current).unwrap();
            crate::parameters::channel_enabled(after, channel) == (
            crate::parameters::channel_enabled(current, channel)
                || crate::parameters::ch_mask_bit(channel_mask, channel))
        }),
{
    let after: u128 = current | (channel_mask as u128);
    assert(((after >> channel) & 1 == 1) == (((current >> channel) & 1 == 1) || (channel < 16 && (
    channel_mask >> channel) & 1 == 1))) by (bit_vector)
        requires
            channel < 128,
            after == current | (channel_mask as u128),
    ;
}

/// In EU863-870 the first receive window has a data rate exactly for the
/// upstream data rates 0 to 11 with the offsets 0 to 5, and it is the entry
/// of Table 14 in that row and column.
pub proof fn lemma_eu868_rx1_window_data_rate(upstream: DataRate, offset: u8)
    ensures
        (upstream.index() < 12 && offset < 6) <==> crate::parameters::rx1_table_lookup(
            eu868_rx1_dr_table(),
            upstream,
            offset,
        ) is Some,
        upstream.index() < 12 && offset < 6 ==> crate::parameters::rx1_table_lookup(
            eu868_rx1_dr_table(),
            upstream,
            offset,
        ).unwrap().index() == eu868_rx1_dr_table()[upstream.index() as int][offset as int],
{
    let table = eu868_rx1_dr_table();
    assert(table.len() == 12);
    if upstream.index() < 12 {
        let row = table[upstream.index() as int];
        assert(row.len() == 6);
        if offset < 6 {
            assert(row[offset as int] <= 7);
            crate::lemma_data_rate_index(upstream, row[offset as int]);
        }
    }
}

} // verus!
