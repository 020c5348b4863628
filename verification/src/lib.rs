//! LoRaWAN layer-2 protocol core, following LoRaWAN L2 1.0.4 and the regional
//! parameters RP002-1.0.3.
//!
//! The crate holds the frame and beacon codecs, the message integrity code and
//! payload encryption constructions, and the per-region band rules. Its
//! functions are verified against the contracts they carry, but for three:
//! the calls of AES-128 and AES-128-CMAC in [`crypto`] and of the checksum in
//! [`beacon`] go to the `aes`, `cmac` and `crc-0x8810` crates, and what is
//! said of their results is trusted, not proved.
//!
//! "Classes" refers to device classes:
//!  - Class A: bi-directional end-devices; each uplink transmission is
//!    followed by two short downlink receive windows
//!  - Class B: class A plus additional scheduled receive windows, synchronized
//!    by a beacon from the gateway
//!  - Class C: continuously open receive windows, closed only when transmitting
use core::marker::PhantomData;
use vstd::prelude::*;

pub mod beacon;
pub mod codec;
pub mod crypto;
pub mod mac;
pub mod mac_frame;
pub mod parameters;

pub use beacon::Beacon;
pub use crypto::{end_device_app_skey, end_device_network_skey};
pub use parameters::{
    channel_at, channel_for_beacon, Band, BandId, BeaconSettings, CflistType, ChannelDetails,
    ChannelPlan, ChannelSpec, Channels, Eu868, Modulation, MutableParameters, Parameters,
    Polarity, Region, RegionalParameters, Us915,
};

verus! {

/// Spreading factor of the LoRa modulation, as far as it matters for beacons.
#[derive(Debug, Clone, Copy, PartialEq, Eq, Structural)]
pub enum Sf {
    _8,
    _9,
    _10,
    _11,
    _12,
}

/// Bytes of a beacon that do not depend on the spreading factor:
/// Param, Time, CRC1, GwSpecific and CRC2.
pub const BEACON_BASE_SIZE: usize = 1 + 4 + 2 + 7 + 2;

impl Sf {
    /// Size of the first reserved region of a beacon, which precedes Param.
    pub open spec fn spec_beacon_rfu1_bytes(&self) -> usize {
        match *self {
            Sf::_8 => 0,
            Sf::_9 => 1,
            Sf::_10 => 2,
            Sf::_11 => 3,
            Sf::_12 => 4,
        }
    }

    /// Size of the second reserved region of a beacon, which follows GwSpecific.
    pub open spec fn spec_beacon_rfu2_bytes(&self) -> usize {
        match *self {
            Sf::_8 => 3,
            Sf::_9 => 0,
            Sf::_10 => 1,
            Sf::_11 => 2,
            Sf::_12 => 3,
        }
    }

    /// Total size of a beacon frame.
    pub open spec fn spec_beacon_bytes(&self) -> usize {
        (16 + self.spec_beacon_rfu1_bytes() + self.spec_beacon_rfu2_bytes()) as usize
    }

    #[verifier::when_used_as_spec(spec_beacon_rfu1_bytes)]
    pub fn beacon_rfu1_bytes(&self) -> (n: usize)
        ensures
            n == self.spec_beacon_rfu1_bytes(),
    {
        match *self {
            Sf::_8 => 0,
            Sf::_9 => 1,
            Sf::_10 => 2,
            Sf::_11 => 3,
            Sf::_12 => 4,
        }
    }

    #[verifier::when_used_as_spec(spec_beacon_rfu2_bytes)]
    pub fn beacon_rfu2_bytes(&self) -> (n: usize)
        ensures
            n == self.spec_beacon_rfu2_bytes(),
    {
        match *self {
            Sf::_8 => 3,
            Sf::_9 => 0,
            Sf::_10 => 1,
            Sf::_11 => 2,
            Sf::_12 => 3,
        }
    }

    /// 13.2 Beacon Frame Format
    #[verifier::when_used_as_spec(spec_beacon_bytes)]
    pub fn beacon_bytes(&self) -> (n: usize)
        ensures
            n == self.spec_beacon_bytes(),
            n == 16 + self.spec_beacon_rfu1_bytes() + self.spec_beacon_rfu2_bytes(),
            17 <= n <= 23,
    {
        BEACON_BASE_SIZE + self.beacon_rfu1_bytes() + self.beacon_rfu2_bytes()
    }
}

/// An index into a per-band table of modulation modes.
///
/// This index is returned by various functions instead of specifying the
/// modulation directly. Only values 0 to 15 are valid.
#[derive(Debug, Clone, Copy, PartialEq, Eq, Structural)]
pub enum DataRate {
    _0,
    _1,
    _2,
    _3,
    _4,
    _5,
    _6,
    _7,
    _8,
    _9,
    _10,
    _11,
    _12,
    _13,
    _14,
    _15,
}

/// A value above 15 was offered as a data rate.
#[derive(Debug, Clone, Copy, PartialEq, Eq, Structural)]
pub struct DataRateOutOfRange;

impl DataRate {
    /// The number of this data rate, 0 to 15.
    pub open spec fn index(self) -> u8 {
        match self {
            DataRate::_0 => 0,
            DataRate::_1 => 1,
            DataRate::_2 => 2,
            DataRate::_3 => 3,
            DataRate::_4 => 4,
            DataRate::_5 => 5,
            DataRate::_6 => 6,
            DataRate::_7 => 7,
            DataRate::_8 => 8,
            DataRate::_9 => 9,
            DataRate::_10 => 10,
            DataRate::_11 => 11,
            DataRate::_12 => 12,
            DataRate::_13 => 13,
            DataRate::_14 => 14,
            DataRate::_15 => 15,
        }
    }

    /// The data rate with the number `value`, where there is one.
    pub open spec fn from_index(value: u8) -> Result<DataRate, DataRateOutOfRange> {
        if value == 0 {
            Ok(DataRate::_0)
        } else if value == 1 {
            Ok(DataRate::_1)
        } else if value == 2 {
            Ok(DataRate::_2)
        } else if value == 3 {
            Ok(DataRate::_3)
        } else if value == 4 {
            Ok(DataRate::_4)
        } else if value == 5 {
            Ok(DataRate::_5)
        } else if value == 6 {
            Ok(DataRate::_6)
        } else if value == 7 {
            Ok(DataRate::_7)
        } else if value == 8 {
            Ok(DataRate::_8)
        } else if value == 9 {
            Ok(DataRate::_9)
        } else if value == 10 {
            Ok(DataRate::_10)
        } else if value == 11 {
            Ok(DataRate::_11)
        } else if value == 12 {
            Ok(DataRate::_12)
        } else if value == 13 {
            Ok(DataRate::_13)
        } else if value == 14 {
            Ok(DataRate::_14)
        } else if value == 15 {
            Ok(DataRate::_15)
        } else {
            Err(DataRateOutOfRange)
        }
    }
}

impl TryFrom<u8> for DataRate {
    type Error = DataRateOutOfRange;

    fn try_from(value: u8) -> (r: Result<Self, Self::Error>)
        ensures
            r == DataRate::from_index(value),
            value <= 15 <==> r is Ok,
            r matches Ok(dr) ==> dr.index() == value,
    {
        Ok(
            match value {
                0 => DataRate::_0,
                1 => DataRate::_1,
                2 => DataRate::_2,
                3 => DataRate::_3,
                4 => DataRate::_4,
                5 => DataRate::_5,
                6 => DataRate::_6,
                7 => DataRate::_7,
                8 => DataRate::_8,
                9 => DataRate::_9,
                10 => DataRate::_10,
                11 => DataRate::_11,
                12 => DataRate::_12,
                13 => DataRate::_13,
                14 => DataRate::_14,
                15 => DataRate::_15,
                _ => return Err(DataRateOutOfRange),
            },
        )
    }
}

impl vstd::std_specs::convert::TryFromSpecImpl<u8> for DataRate {
    open spec fn obeys_try_from_spec() -> bool {
        true
    }

    open spec fn try_from_spec(value: u8) -> Result<Self, Self::Error> {
        DataRate::from_index(value)
    }
}

impl From<DataRate> for u8 {
    fn from(v: DataRate) -> (n: Self)
        ensures
            n == v.index(),
            n <= 15,
    {
        match v {
            DataRate::_0 => 0,
            DataRate::_1 => 1,
            DataRate::_2 => 2,
            DataRate::_3 => 3,
            DataRate::_4 => 4,
            DataRate::_5 => 5,
            DataRate::_6 => 6,
            DataRate::_7 => 7,
            DataRate::_8 => 8,
            DataRate::_9 => 9,
            DataRate::_10 => 10,
            DataRate::_11 => 11,
            DataRate::_12 => 12,
            DataRate::_13 => 13,
            DataRate::_14 => 14,
            DataRate::_15 => 15,
        }
    }
}

impl vstd::std_specs::convert::FromSpecImpl<DataRate> for u8 {
    open spec fn obeys_from_spec() -> bool {
        true
    }

    open spec fn from_spec(v: DataRate) -> Self {
        v.index()
    }
}

/// A data rate and its number determine each other.
pub proof fn lemma_data_rate_index(dr: DataRate, value: u8)
    ensures
        dr.index() <= 15,
        DataRate::from_index(dr.index()) == Ok::<DataRate, DataRateOutOfRange>(dr),
        value <= 15 <==> DataRate::from_index(value) is Ok,
        value <= 15 ==> DataRate::from_index(value).unwrap().index() == value,
{
}

#[derive(Debug, Clone, Copy, PartialEq, Eq, Structural)]
pub enum CodingRate {
    Cr1_3,
    Cr2_3,
    Cr4_5,
}

/// A frequency or a bandwidth, in kHz.
#[derive(Debug, Clone, Copy, PartialEq, Eq, Structural)]
pub struct Frequency {
    pub khz: u32,
}

impl Frequency {
    pub fn from_khz(khz: u32) -> (f: Self)
        ensures
            f.khz == khz,
    {
        Self { khz }
    }
}

/// 32-bit device network address assigned at activation.
#[derive(Debug, Clone, Copy, PartialEq, Eq, Structural)]
pub struct DevAddr {
    pub addr: u32,
}

/// What an end-device does about its data rate when the network has not
/// answered for a while.
#[derive(Debug, Clone, Copy, PartialEq, Eq)]
pub struct BackoffDetails {
    pub data_rate: DataRate,
    pub adr_ack_req: bool,
    pub tx_power: (),
    pub nb_trans: u8,
    pub channel_mask_reset: bool,
}

/// "4.3.1.1 Adaptive data-rate control in frame header (ADR, ADRACKReq in
/// FCtrl)": below `ADR_ACK_LIMIT` uplinks without an answer the device asks
/// for nothing and keeps its settings.
///
/// What follows from the limit on is not decided here: such a count is not
/// accepted.
pub fn data_rate_backoff(params: &Parameters, adr_ack_cnt: u8) -> (details: BackoffDetails)
    requires
        adr_ack_cnt < params.adr_ack_limit,
    ensures
        details == (BackoffDetails {
            data_rate: DataRate::_0,
            adr_ack_req: false,
            tx_power: (),
            nb_trans: 3,
            channel_mask_reset: false,
        }),
{
    BackoffDetails {
        data_rate: DataRate::_0,
        adr_ack_req: false,
        tx_power: (),  // Max -9dBm
        nb_trans: 3,
        channel_mask_reset: false,
    }
}

/// The state that an end-device keeps for the MAC layer.
///
/// The device's clock and radio are not part of it: this is what the MAC
/// commands of the network read and change. Delays and timeouts are in
/// seconds.
#[derive(Debug, Clone, Copy, PartialEq, Eq, Structural)]
pub struct EndDevice {
    /// The current band in use.
    pub band_id: Option<BandId>,
    /// FCntUp: Incremented by an end-device when a data frame is transmitted
    /// to a Network Server (uplink).
    ///
    /// - Over the air activated devices (OOTA): set to 0 when a JoinAccept is
    ///   succesfully processed
    /// - Activation by personalization (ABP): set to 0 by manufacturer. Never
    ///   otherwise reset. Must be persisted for lifetime of device.
    pub frame_count_uplink: u32,
    pub adr_ack_cnt: u32,
    /// ClassB only
    pub class_b_resp_timeout: u64,
    /// Delay since a previous uplink after which the end-device has its
    /// receiver enabled and is able to receive a downlink from the Network
    /// Server.
    pub receive_delay1: u64,
    pub num_transmits: u8,
    pub maximum_tx_power: Option<u8>,
    /// Bitmask indicating if a uplink channel may be used (bit is set if
    /// channel is usable). By default, all channels are considered usable.
    pub uplink_channel_mask: u128,
    /// Set by the `DutyCycleReq` mac command from the Network Server.
    pub max_duty_cycle: u8,
}

impl Default for EndDevice {
    fn default() -> (d: Self)
        ensures
            d == EndDevice::spec_default(),
    {
        Self {
            band_id: None,
            frame_count_uplink: 0,
            adr_ack_cnt: 0,
            class_b_resp_timeout: 1,
            receive_delay1: 1,
            num_transmits: 0,
            maximum_tx_power: None,
            uplink_channel_mask: u128::MAX,
            max_duty_cycle: 0,
        }
    }
}

impl EndDevice {
    /// The state of a device that has not been told anything yet: no band,
    /// counters at zero, delays of one second, every channel usable.
    pub open spec fn spec_default() -> Self {
        EndDevice {
            band_id: None,
            frame_count_uplink: 0,
            adr_ack_cnt: 0,
            class_b_resp_timeout: 1,
            receive_delay1: 1,
            num_transmits: 0,
            maximum_tx_power: None,
            uplink_channel_mask: u128::MAX,
            max_duty_cycle: 0,
        }
    }

    /// The region whose rules the device follows, where it has a band and the
    /// library holds its rules.
    pub open spec fn spec_band(&self) -> Option<Region> {
        match self.band_id {
            Some(id) => id.spec_region(),
            None => None,
        }
    }

    /// Whether the device decides on a request. It does on `LinkADRReq` and
    /// `DutyCycleReq`.
    pub open spec fn spec_handles(mac_message: mac::ReqFromNetworkServer) -> bool {
        mac_message is LinkAdr || mac_message is DutyCycle
    }

    /// The state of the device after a request.
    ///
    /// - `LinkADRReq`: a TX power other than 15 becomes the maximum TX power.
    ///   The channel mask becomes what the band makes of `ChMaskCntl` and
    ///   `ChMask`; where the band rejects them, or the device has no band, it
    ///   stays as it is.
    /// - `DutyCycleReq`: `MaxDutyCycle` is taken over.
    pub open spec fn spec_after_request(&self, mac_message: mac::ReqFromNetworkServer) -> Self {
        match mac_message {
            mac::ReqFromNetworkServer::LinkAdr(link_adr) => EndDevice {
                maximum_tx_power: if link_adr.spec_tx_power() != 0xf {
                    Some(link_adr.spec_tx_power())
                } else {
                    self.maximum_tx_power
                },
                uplink_channel_mask: match self.spec_channel_mask_after(link_adr) {
                    Ok(mask) => mask,
                    Err(_) => self.uplink_channel_mask,
                },
                ..*self
            },
            mac::ReqFromNetworkServer::DutyCycle(duty_cycle) => EndDevice {
                max_duty_cycle: duty_cycle.spec_max_duty_cycle(),
                ..*self
            },
            _ => *self,
        }
    }

    /// What the device's band makes of the channel mask of a `LinkADRReq`;
    /// `Err` where the band rejects it or the device has no band.
    pub open spec fn spec_channel_mask_after(&self, link_adr: mac::LinkAdrReq) -> Result<u128, ()> {
        match self.spec_band() {
            Some(region) => region.spec_channel_mask_apply(
                link_adr.spec_channel_mask_ctrl(),
                link_adr.spec_ch_mask(),
                self.uplink_channel_mask,
            ),
            None => Err(()),
        }
    }

    /// Whether the device acknowledges the channel mask of a `LinkADRReq`:
    /// it does where its band accepted the mask.
    pub open spec fn spec_channel_mask_ack(&self, link_adr: mac::LinkAdrReq) -> bool {
        self.spec_channel_mask_after(link_adr) is Ok
    }

    /// The delay before the first receive window. RP002 makes it a parameter
    /// of the band; every band sets it to one second so far.
    pub fn receive_delay1(&self) -> (delay: u64)
        ensures
            delay == self.receive_delay1,
    {
        self.receive_delay1
    }

    /// The second receive window opens one second after the first.
    pub fn receive_delay2(&self) -> (delay: u64)
        requires
            self.receive_delay1 < u64::MAX,
        ensures
            delay == self.receive_delay1 + 1,
    {
        1 + self.receive_delay1()
    }

    pub fn band(&self) -> (r: Option<Region>)
        ensures
            r == self.spec_band(),
    {
        match self.band_id {
            Some(id) => id.region(),
            None => None,
        }
    }

    /// Change the band_id for this instance.
    ///
    /// This might be done in responce to user input that the band to operate
    /// in has changed, or if the location of the device has changed (or been
    /// discovered) to lie within a region with a particular band.
    pub fn set_band_id(&mut self, band_id: Option<BandId>)
        ensures
            *final(self) == (EndDevice { band_id, ..*old(self) }),
    {
        self.band_id = band_id;
    }

    /// Takes a request of the network server in, and gives the answer that is
    /// to be sent.
    pub fn process_mac_request(&mut self, mac_message: mac::ReqFromNetworkServer) -> (answer:
        mac::AnsFromEndDevice)
        requires
            Self::spec_handles(mac_message),
        ensures
            *final(self) == old(self).spec_after_request(mac_message),
            mac_message is DutyCycle ==> answer == mac::AnsFromEndDevice::DutyCycle,
            mac_message matches mac::ReqFromNetworkServer::LinkAdr(link_adr) ==> {
                &&& answer matches mac::AnsFromEndDevice::LinkAdr(ans)
                &&& ans.spec_channel_mask_ack() == old(self).spec_channel_mask_ack(link_adr)
                &&& ans.spec_power_ack()
                &&& ans.spec_data_rate_ack()
                &&& ans.spec_rfu() == 0
            },
    {
        match mac_message {
            mac::ReqFromNetworkServer::LinkAdr(link_adr) => {
                if link_adr.tx_power() != 0xf {
                    self.maximum_tx_power = Some(link_adr.tx_power());
                }
                let channel_mask_ack: bool = match self.band() {
                    Some(band) => {
                        match band.channel_mask_apply(
                            link_adr.channel_mask_ctrl(),
                            link_adr.ch_mask(),
                            self.uplink_channel_mask,
                        ) {
                            Ok(uplink_channel_mask) => {
                                self.uplink_channel_mask = uplink_channel_mask;
                                true
                            },
                            Err(_) => false,
                        }
                    },
                    None => false,
                };
                mac::AnsFromEndDevice::LinkAdr(
                    mac::LinkAdrAns::new().with_channel_mask_ack(channel_mask_ack).with_power_ack(
                        true,
                    ).with_data_rate_ack(true),
                )
            },
            mac::ReqFromNetworkServer::DutyCycle(duty_cycle) => {
                self.max_duty_cycle = duty_cycle.max_duty_cycle();
                mac::AnsFromEndDevice::DutyCycle
            },
            _ => vstd::pervasive::unreached(),
        }
    }
}

/// Representation of the `Network Server` view of a device.
#[derive(Debug, Clone, Copy, PartialEq, Eq, Structural)]
pub struct Network {
    /// FCntDown: Incremented by a Network Server when a data frame is
    /// transmitted to an end-device (downlink).
    ///
    /// - Over the air activated devices (OOTA): set to 0 when a JoinAccept is
    ///   succesfully processed
    pub frame_count_downlink: u32,
}

/// Data stored in end-device after activation.
#[derive(Debug, Clone, Copy, PartialEq, Eq)]
pub struct EndDeviceStorageActivation {
    pub dev_addr: DevAddr,
    pub network_session_key: (),
    pub application_session_key: (),
}

#[derive(Debug, Clone, Copy, PartialEq, Eq)]
pub struct EndDeviceStorage {
    pub activation: EndDeviceStorageActivation,
    /// Used for 6.2.5 Join-Request frame.
    pub dev_nonce: u16,
}

#[derive(Debug, Clone, Copy, PartialEq, Eq, Structural)]
pub struct JoinServer {
    /// "Join Server keeps track of the last DevNonce value used by the
    /// end-device and ignores Join-Requests if the DevNonce is not
    /// incremented."
    pub dev_nonce: u16,
}

#[derive(Debug, Clone, Copy)]
pub struct MulticastGroup {
    pub network_address: [u8; 4],
    pub session_keys: (),
    pub downlink_frame_counter: u32,
}

/// The MAC layer of a network server. `C` is the clock that it runs by.
#[derive(Debug)]
pub struct NetworkServer<C> {
    _clock: PhantomData<C>,
}

impl<C> NetworkServer<C> {
    pub fn new() -> Self {
        NetworkServer { _clock: PhantomData }
    }

    /// Takes a request of an end-device in, and gives the answer that is to
    /// be sent: a `LinkCheckReq` is answered with a margin of 0 dB and one
    /// gateway.
    pub fn process_mac_request(&mut self, mac_message: mac::ReqFromEndDevice) -> (answer:
        mac::AnsFromNetworkServer)
        ensures
            answer == mac::AnsFromNetworkServer::LinkCheck(
                mac::LinkCheck { margin: 0, gw_count: 1 },
            ),
    {
        match mac_message {
            mac::ReqFromEndDevice::LinkCheck => mac::AnsFromNetworkServer::LinkCheck(
                mac::LinkCheck { margin: 0, gw_count: 1 },
            ),
        }
    }
}

} // verus!
