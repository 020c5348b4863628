use lorawan::mac::{
    AnsFromEndDevice, DevStatusAns, DeviceTimeAns, DlChannelAns, DlChannelReq, DutyCycleReq,
    LinkAdrAns, LinkAdrReq, LinkCheck, MacCommandCid, NewChannelAns, NewChannelReq,
    ReqFromNetworkServer, RxParamSetupAns, RxParamSetupReq, RxTimingSetupReq, TxParamSetup,
};

#[test]
fn command_identifiers() {
    let all = [
        (MacCommandCid::LinkCheck, 0x02u8),
        (MacCommandCid::LinkAdr, 0x03),
        (MacCommandCid::DutyCycle, 0x04),
        (MacCommandCid::RxParamSetup, 0x05),
        (MacCommandCid::DevStatus, 0x06),
        (MacCommandCid::NewChannel, 0x07),
        (MacCommandCid::RxTimingSetup, 0x08),
        (MacCommandCid::TxParamSetup, 0x09),
        (MacCommandCid::DlChannel, 0x0A),
        (MacCommandCid::DeviceTime, 0x0D),
    ];
    for (cid, byte) in all {
        assert_eq!(cid.cid(), byte);
        assert_eq!(MacCommandCid::from_cid(byte), Some(cid));
    }
    for byte in 0..=255u8 {
        let known = all.iter().any(|(_, b)| *b == byte);
        assert_eq!(MacCommandCid::from_cid(byte).is_some(), known);
    }
}

#[test]
fn link_adr_req_fields() {
    // DataRate 5, TXPower 2, ChMask 0x00FF, ChMaskCntl 6, NbTrans 3
    let req = LinkAdrReq::from_bytes([0x25, 0xFF, 0x00, 0x3C]);
    assert_eq!(req.data_rate(), 5);
    assert_eq!(req.tx_power(), 2);
    assert_eq!(req.ch_mask(), 0x00FF);
    assert!(!req.rfu());
    assert_eq!(req.channel_mask_ctrl(), 6);
    assert_eq!(req.nb_trans(), 3);
    assert_eq!(req.into_bytes(), [0x25, 0xFF, 0x00, 0x3C]);
    let req = LinkAdrReq::from_bytes([0xFA, 0x34, 0x12, 0xF1]);
    assert_eq!(req.data_rate(), 0xA);
    assert_eq!(req.tx_power(), 0xF);
    assert_eq!(req.ch_mask(), 0x1234);
    assert!(req.rfu());
    assert_eq!(req.channel_mask_ctrl(), 0);
    assert_eq!(req.nb_trans(), 0xF);
    assert_eq!(req.into_bytes(), [0xFA, 0x34, 0x12, 0xF1]);
    assert_eq!(LinkAdrReq::new().into_bytes(), [0, 0, 0, 0]);
}

#[test]
fn link_adr_ans_fields() {
    let ans = LinkAdrAns::from_bytes([0b1010_0011]);
    assert_eq!(ans.rfu(), 3);
    assert!(ans.power_ack());
    assert!(!ans.data_rate_ack());
    assert!(ans.channel_mask_ack());
    assert_eq!(ans.into_bytes(), [0b1010_0011]);
    let built = LinkAdrAns::new()
        .with_channel_mask_ack(false)
        .with_power_ack(true)
        .with_data_rate_ack(true);
    assert_eq!(built.into_bytes(), [0b0110_0000]);
    assert_eq!(built.with_channel_mask_ack(true).into_bytes(), [0b1110_0000]);
    assert_eq!(built.with_power_ack(false).into_bytes(), [0b0100_0000]);
    assert_eq!(built.with_data_rate_ack(false).into_bytes(), [0b0010_0000]);
    for value in 0..=255u8 {
        let a = LinkAdrAns::from_bytes([value]);
        for on in [false, true] {
            let b = a.with_power_ack(on);
            assert_eq!(b.power_ack(), on);
            assert_eq!(b.rfu(), a.rfu());
            assert_eq!(b.data_rate_ack(), a.data_rate_ack());
            assert_eq!(b.channel_mask_ack(), a.channel_mask_ack());
            let c = a.with_channel_mask_ack(on);
            assert_eq!(c.channel_mask_ack(), on);
            assert_eq!(c.power_ack(), a.power_ack());
            let d = a.with_data_rate_ack(on);
            assert_eq!(d.data_rate_ack(), on);
            assert_eq!(d.channel_mask_ack(), a.channel_mask_ack());
        }
    }
}

#[test]
fn one_byte_payloads() {
    let d = DutyCycleReq::from_bytes([0xA3]);
    assert_eq!(d.rfu(), 3);
    assert_eq!(d.max_duty_cycle(), 0xA);
    assert_eq!(d.into_bytes(), [0xA3]);

    let r = RxParamSetupReq::from_bytes([0b1001_0111]);
    assert!(r.rfu());
    assert_eq!(r.rx1_data_rate_offset(), 3);
    assert_eq!(r.rx2_data_rate(), 9);

    let a = RxParamSetupAns::from_bytes([0b0110_0001]);
    assert_eq!(a.rfu(), 1);
    assert!(a.rx1_data_rate_offset_ack());
    assert!(a.rx2_data_rate_ack());
    assert!(!a.channel_ack());

    let n = NewChannelAns::from_bytes([0b1000_0000]);
    assert_eq!(n.rfu(), 0);
    assert!(!n.data_rate_range_ok());
    assert!(n.channel_frequency_ok());

    let c = DlChannelAns::from_bytes([0b0100_0101]);
    assert_eq!(c.rfu(), 5);
    assert!(c.uplink_frequency_exists());
    assert!(!c.channel_frequency_ok());

    let t = RxTimingSetupReq::from_bytes([0b1010_0001]);
    assert_eq!(t.rfu(), 1);
    assert_eq!(t.delay_seconds(), 5);

    let p = TxParamSetup::from_bytes([0b1101_0110]);
    assert_eq!(p.rfu(), 2);
    assert!(p.downlink_dwell_time());
    assert!(!p.uplink_dwell_time());
    assert_eq!(p.max_eirp(), 0xD);
    assert_eq!(p.into_bytes(), [0b1101_0110]);
}

#[test]
fn wider_payloads() {
    let s = DevStatusAns::from_bytes([0xFE, 0b1010_1011]);
    assert_eq!(s.battery(), 0xFE);
    assert_eq!(s.rfu(), 3);
    assert_eq!(s.snr(), 0b10101);
    assert_eq!(s.into_bytes(), [0xFE, 0b1010_1011]);

    let n = NewChannelReq::from_bytes([0x07, 0x56, 0x34, 0x12, 0x5A]);
    assert_eq!(n.channel_index(), 7);
    assert_eq!(n.frequency(), 0x123456);
    assert_eq!(n.max_data_rate(), 0xA);
    assert_eq!(n.min_data_rate(), 0x5);
    assert_eq!(n.into_bytes(), [0x07, 0x56, 0x34, 0x12, 0x5A]);

    let d = DlChannelReq::from_bytes([0x03, 0xEF, 0xCD, 0xAB]);
    assert_eq!(d.channel_index(), 3);
    assert_eq!(d.frequency(), 0xABCDEF);
    assert_eq!(d.into_bytes(), [0x03, 0xEF, 0xCD, 0xAB]);

    let t = DeviceTimeAns::from_bytes([0x78, 0x56, 0x34, 0x12, 0x80]);
    assert_eq!(t.seconds_since_epoch(), 0x12345678);
    assert_eq!(t.fraction_seconds(), 0x80);
    assert_eq!(t.into_bytes(), [0x78, 0x56, 0x34, 0x12, 0x80]);
    let t = DeviceTimeAns::from_bytes([0xFF; 5]);
    assert_eq!(t.seconds_since_epoch(), u32::MAX);
    assert_eq!(t.fraction_seconds(), 0xFF);
}

#[test]
fn requests_know_their_identifier() {
    assert_eq!(ReqFromNetworkServer::LinkAdr(LinkAdrReq::new()).cid(), MacCommandCid::LinkAdr);
    assert_eq!(
        ReqFromNetworkServer::DutyCycle(DutyCycleReq::new()).cid(),
        MacCommandCid::DutyCycle
    );
    assert_eq!(ReqFromNetworkServer::DevStatus.cid(), MacCommandCid::DevStatus);
    assert_eq!(
        ReqFromNetworkServer::DlChannel(DlChannelReq::new()).cid(),
        MacCommandCid::DlChannel
    );
    assert_ne!(AnsFromEndDevice::DutyCycle, AnsFromEndDevice::RxTimingSetup);
    assert_eq!(LinkCheck { margin: 1, gw_count: 2 }.gw_count, 2);
}

#[test]
fn answers_as_bytes() {
    let ans = LinkAdrAns::new().with_channel_mask_ack(true).with_power_ack(true);
    assert_eq!(AnsFromEndDevice::LinkAdr(ans).to_bytes(), vec![0x03, 0b1010_0000]);
    assert_eq!(AnsFromEndDevice::DutyCycle.to_bytes(), vec![0x04]);
    assert_eq!(
        AnsFromEndDevice::RxParamSetup(RxParamSetupAns::from_bytes([7])).to_bytes(),
        vec![0x05, 7]
    );
    assert_eq!(
        AnsFromEndDevice::DevStatus(DevStatusAns::from_bytes([0xFE, 0x12])).to_bytes(),
        vec![0x06, 0xFE, 0x12]
    );
    assert_eq!(
        AnsFromEndDevice::NewChannel(NewChannelAns::from_bytes([0xC0])).to_bytes(),
        vec![0x07, 0xC0]
    );
    assert_eq!(AnsFromEndDevice::RxTimingSetup.to_bytes(), vec![0x08]);
    assert_eq!(AnsFromEndDevice::TxParamSetup.to_bytes(), vec![0x09]);
    assert_eq!(
        AnsFromEndDevice::DlChannel(DlChannelAns::from_bytes([0x40])).to_bytes(),
        vec![0x0A, 0x40]
    );
    assert_eq!(AnsFromEndDevice::DutyCycle.cid(), MacCommandCid::DutyCycle);
    assert_eq!(
        lorawan::mac::AnsFromNetworkServer::LinkCheck(LinkCheck { margin: 9, gw_count: 2 })
            .to_bytes(),
        vec![0x02, 9, 2]
    );
}
