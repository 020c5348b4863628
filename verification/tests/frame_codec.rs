use aes::cipher::{BlockDecrypt, KeyInit};
use cmac::Mac;
use lorawan::crypto::{crypt, mic_block, Direction};
use lorawan::mac_frame::{
    compute_mic, encode, mic_defined, mic_input, DlSettings, DownlinkFrameControl, EncodeError,
    FrameHeader, FrameHeaderParseError, FrameType, JoinAccept, JoinAcceptParseError, JoinRequest,
    JoinRequestBuf, JoinRequestParseError, MacHeader, MacPayload, Payload, PayloadParseError,
    PhyPayload, PhyPayloadDecodeError, UplinkFrameControl,
};
use lorawan::DevAddr;

const ALL_FTYPE: [FrameType; 8] = [
    FrameType::JoinRequest,
    FrameType::JoinAccept,
    FrameType::UnconfirmedDataUplink,
    FrameType::UnconfirmedDataDownlink,
    FrameType::ConfirmedDataUplink,
    FrameType::ConfirmedDataDownlink,
    FrameType::Rfu,
    FrameType::Proprietary,
];

fn key16(hex_key: &str) -> [u8; 16] {
    let v = hex::decode(hex_key).unwrap();
    let mut k = [0u8; 16];
    k.copy_from_slice(&v);
    k
}

fn cmac4(key: &[u8], msg: &[u8]) -> [u8; 4] {
    let mut mac = <cmac::Cmac<aes::Aes128> as Mac>::new_from_slice(key).unwrap();
    mac.update(msg);
    let tag = mac.finalize().into_bytes();
    [tag[0], tag[1], tag[2], tag[3]]
}

#[test]
fn frame_below_12_bytes_is_too_small() {
    for have in 0..12usize {
        let bytes = vec![0u8; have];
        match PhyPayload::from_bytes(&bytes[..]) {
            Err(e) => assert_eq!(e, PhyPayloadDecodeError::SmallerThanMinSize { have, need: 12 }),
            Ok(_) => panic!(),
        }
    }
    for have in [12usize, 13, 23, 64, 300] {
        let bytes = vec![0u8; have];
        assert!(PhyPayload::from_bytes(&bytes[..]).is_ok());
        assert!(PhyPayload::from_bytes(bytes).is_ok());
    }
}

#[test]
fn frame_parts() {
    let bytes: Vec<u8> = (0..20u8).collect();
    let frame = PhyPayload::from_bytes(&bytes[..]).unwrap();
    assert_eq!(frame.as_bytes(), &bytes[..]);
    assert_eq!(frame.mac_header(), MacHeader::from_bytes([0]));
    assert_eq!(frame.payload_bytes(), &bytes[1..16]);
    assert_eq!(frame.mic(), [16, 17, 18, 19]);
    assert_eq!(frame.msg(), &bytes[..16]);
}

#[test]
fn mac_header_fields() {
    for value in 0..=255u8 {
        let h = MacHeader::from_bytes([value]);
        assert_eq!(h.ftype(), ALL_FTYPE[(value & 7) as usize]);
        assert_eq!(h.ftype().bits(), value & 7);
        assert_eq!(h.rfu(), (value >> 3) & 7);
        assert_eq!(h.major(), value >> 6);
        assert_eq!(h.into_bytes(), [value]);
    }
    assert_eq!(MacHeader::new().into_bytes(), [0]);
}

#[test]
fn mac_header_builders() {
    for value in [0u8, 0xff, 0x5a, 0xa5] {
        let h = MacHeader::from_bytes([value]);
        for t in ALL_FTYPE {
            let g = h.with_ftype(t);
            assert_eq!(g.ftype(), t);
            assert_eq!(g.rfu(), h.rfu());
            assert_eq!(g.major(), h.major());
        }
        for rfu in 0..8u8 {
            let g = h.with_rfu(rfu);
            assert_eq!(g.rfu(), rfu);
            assert_eq!(g.ftype(), h.ftype());
            assert_eq!(g.major(), h.major());
        }
        for major in 0..4u8 {
            let g = h.with_major(major);
            assert_eq!(g.major(), major);
            assert_eq!(g.ftype(), h.ftype());
            assert_eq!(g.rfu(), h.rfu());
        }
    }
    assert_eq!(
        MacHeader::new().with_ftype(FrameType::ConfirmedDataDownlink).with_major(1).into_bytes(),
        [0b0100_0101]
    );
}

#[test]
fn frame_type_directions() {
    assert_eq!(FrameType::JoinRequest.direction(), None);
    assert_eq!(FrameType::JoinAccept.direction(), None);
    assert_eq!(FrameType::UnconfirmedDataUplink.direction(), Some(Direction::Uplink));
    assert_eq!(FrameType::ConfirmedDataUplink.direction(), Some(Direction::Uplink));
    assert_eq!(FrameType::UnconfirmedDataDownlink.direction(), Some(Direction::Downlink));
    assert_eq!(FrameType::ConfirmedDataDownlink.direction(), Some(Direction::Downlink));
    assert_eq!(FrameType::Rfu.direction(), None);
    assert_eq!(FrameType::Proprietary.direction(), None);
    for t in ALL_FTYPE {
        assert_eq!(t.is_data(), t.direction().is_some());
        assert_eq!(FrameType::from_bits(t.bits()), t);
        assert_eq!(FrameType::from_bits(t.bits() | 0xf8), t);
    }
}

#[test]
fn unknown_major_is_rejected() {
    for major in 1..4u8 {
        let mut bytes = vec![0u8; 23];
        bytes[0] = major << 6;
        let frame = PhyPayload::from_bytes(&bytes[..]).unwrap();
        match frame.payload() {
            Err(e) => assert_eq!(e, PayloadParseError::UnknownMajor { major }),
            Ok(_) => panic!(),
        }
    }
}

#[test]
fn join_request_payload_is_18_bytes() {
    for have in 7..40usize {
        let bytes = vec![0u8; have + 5];
        let frame = PhyPayload::from_bytes(&bytes[..]).unwrap();
        match frame.payload() {
            Ok(Payload::JoinRequest(j)) => {
                assert_eq!(have, 18);
                assert_eq!(j.as_bytes(), &bytes[1..19]);
            }
            Ok(_) => panic!(),
            Err(e) => {
                assert_ne!(have, 18);
                assert_eq!(
                    e,
                    PayloadParseError::JoinRequestParseError(
                        JoinRequestParseError::SizeMismatch { have, need: 18 }
                    )
                );
            }
        }
    }
}

#[test]
fn join_accept_payload_is_12_or_28_bytes() {
    for have in 7..40usize {
        let mut bytes = vec![0u8; have + 5];
        bytes[0] = 1;
        let frame = PhyPayload::from_bytes(&bytes[..]).unwrap();
        match frame.payload() {
            Ok(Payload::JoinAccept(j)) => {
                assert!(have == 12 || have == 28);
                assert_eq!(j.as_bytes().len(), have);
            }
            Ok(_) => panic!(),
            Err(e) => {
                assert!(have != 12 && have != 28);
                assert_eq!(
                    e,
                    PayloadParseError::JoinAcceptParseError(JoinAcceptParseError::SizeMismatch {
                        have
                    })
                );
            }
        }
    }
}

#[test]
fn other_frames_hand_the_payload_on() {
    for t in 2..8u8 {
        for have in [7usize, 8, 18, 30] {
            let mut bytes: Vec<u8> = (0..(have + 5) as u8).collect();
            bytes[0] = t;
            let frame = PhyPayload::from_bytes(&bytes[..]).unwrap();
            match frame.payload() {
                Ok(Payload::MacPayload(m)) => assert_eq!(m.bytes, &bytes[1..have + 1]),
                _ => panic!(),
            }
        }
    }
}

#[test]
fn payload_errors_convert() {
    let a = JoinRequestParseError::SizeMismatch { have: 1, need: 18 };
    assert_eq!(PayloadParseError::from(a), PayloadParseError::JoinRequestParseError(a));
    let b = JoinAcceptParseError::SizeMismatch { have: 1 };
    assert_eq!(PayloadParseError::from(b), PayloadParseError::JoinAcceptParseError(b));
}

#[test]
fn join_request_fields() {
    let buf = hex::decode("00DC0000D07ED5B3701E6FEDF57CEEAF00C886030AF2C9").unwrap();
    let frame = PhyPayload::from_bytes(&buf[..]).unwrap();
    let j = match frame.payload().unwrap() {
        Payload::JoinRequest(j) => j,
        _ => panic!(),
    };
    assert_eq!(j.join_eui(), 0x70B3D57ED00000DC);
    assert_eq!(j.dev_eui(), 0x00AFEE7CF5ED6F1E);
    assert_eq!(j.dev_nonce(), 0x86C8);
    assert_eq!(
        j.to_owned(),
        JoinRequestBuf {
            join_eui: 0x70B3D57ED00000DC,
            dev_eui: 0x00AFEE7CF5ED6F1E,
            dev_nonce: 0x86C8
        }
    );
    assert!(JoinRequest::from_bytes(&buf[1..19]).is_ok());
    assert_eq!(
        JoinRequest::from_bytes(&buf[1..18]).err(),
        Some(JoinRequestParseError::SizeMismatch { have: 17, need: 18 })
    );
}

#[test]
fn join_accept_fields() {
    let short: Vec<u8> =
        vec![0x01, 0x02, 0x03, 0x11, 0x12, 0x13, 0x21, 0x22, 0x23, 0x24, 0xA5, 0x07];
    let j = JoinAccept::from_bytes(&short).unwrap();
    assert_eq!(j.join_nonce(), 0x030201);
    assert_eq!(j.net_id(), 0x131211);
    assert_eq!(j.dev_addr(), 0x24232221);
    assert_eq!(j.dl_settings(), DlSettings::from_bytes([0xA5]));
    assert_eq!(j.rx_delay(), 7);
    assert_eq!(j.cf_list(), None);
    let owned = j.to_owned();
    assert_eq!(owned.join_nonce, [1, 2, 3]);
    assert_eq!(owned.net_id, [0x11, 0x12, 0x13]);
    assert_eq!(owned.dev_addr, DevAddr { addr: 0x24232221 });
    assert_eq!(owned.rx_delay, 7);
    assert_eq!(owned.cf_list, None);

    let mut long = short.clone();
    long.extend(100..116u8);
    let j = JoinAccept::from_bytes(&long).unwrap();
    assert_eq!(j.net_id(), 0x131211);
    assert_eq!(j.cf_list(), Some(&long[12..28]));
    assert_eq!(j.to_owned().cf_list.unwrap().to_vec(), (100..116u8).collect::<Vec<u8>>());

    for have in 0..40usize {
        let bytes = vec![0u8; have];
        let r = JoinAccept::from_bytes(&bytes);
        if have == 12 || have == 28 {
            assert!(r.is_ok());
        } else {
            assert_eq!(r.err(), Some(JoinAcceptParseError::SizeMismatch { have }));
        }
    }
}

#[test]
fn dl_settings_fields() {
    let s = DlSettings::from_bytes([0b1010_0101]);
    assert!(s.rfu());
    assert_eq!(s.rx1_dr_offset(), 0b010);
    assert_eq!(s.rx2_data_rate(), 0b1010);
    assert_eq!(s.into_bytes(), [0b1010_0101]);
    let t = DlSettings::from_bytes([0b0000_1110]);
    assert!(!t.rfu());
    assert_eq!(t.rx1_dr_offset(), 7);
    assert_eq!(t.rx2_data_rate(), 0);
}

#[test]
fn frame_control_fields() {
    let up = UplinkFrameControl::from_bytes([0b0011_0101]);
    assert!(up.adr());
    assert!(!up.adr_ack_req());
    assert!(up.ack());
    assert!(!up.class_b());
    assert_eq!(up.frame_opts_len(), 3);
    assert_eq!(up.into_bytes(), [0b0011_0101]);
    let up = UplinkFrameControl::from_bytes([0b1111_1010]);
    assert!(!up.adr());
    assert!(up.adr_ack_req());
    assert!(!up.ack());
    assert!(up.class_b());
    assert_eq!(up.frame_opts_len(), 15);
    let down = DownlinkFrameControl::from_bytes([0b0100_1010]);
    assert!(!down.adr());
    assert!(down.rfu());
    assert!(!down.ack());
    assert!(down.frame_pending());
    assert_eq!(down.frame_opts_len(), 4);
    assert_eq!(down.into_bytes(), [0b0100_1010]);
    let down = DownlinkFrameControl::from_bytes([0b0000_0101]);
    assert!(down.adr());
    assert!(!down.rfu());
    assert!(down.ack());
    assert!(!down.frame_pending());
    assert_eq!(down.frame_opts_len(), 0);
}

#[test]
fn mac_payload_parts() {
    // DevAddr | FCtrl | FCnt | FPort | FRMPayload
    let bytes = hex::decode("F17DBE490002000195437876").unwrap();
    let m = MacPayload { bytes: &bytes };
    assert_eq!(m.fhdr_bytes(), Ok(&bytes[0..7]));
    assert_eq!(m.fport(), Some(1));
    assert_eq!(m.frm_paylod_bytes(), &bytes[8..]);
    let h = m.frame_header().unwrap();
    assert_eq!(h.dev_addr(), 0x49BE7DF1);
    assert_eq!(h.fctrl(), 0);
    assert_eq!(h.frame_count(), 2);
    assert_eq!(h.fopts(), Ok(&[] as &[u8]));
    assert_eq!(h.as_bytes(), &bytes[0..7]);
}

#[test]
fn mac_payload_with_frame_options() {
    // FOptsLen = 3
    let bytes = [0x04, 0x03, 0x02, 0x01, 0x30, 0x34, 0x12, 0xA1, 0xA2, 0xA3, 0x0A, 0xB1, 0xB2];
    let m = MacPayload { bytes: &bytes };
    assert_eq!(m.fhdr_bytes(), Ok(&bytes[0..10]));
    assert_eq!(m.fport(), Some(0x0A));
    assert_eq!(m.frm_paylod_bytes(), &[0xB1, 0xB2]);
    let h = m.frame_header().unwrap();
    assert_eq!(h.dev_addr(), 0x01020304);
    assert_eq!(h.fctrl(), 0x30);
    assert_eq!(h.frame_count(), 0x1234);
    assert_eq!(h.fopts(), Ok(&[0xA1, 0xA2, 0xA3][..]));
    assert_eq!(h.as_bytes(), &bytes[0..10]);
    let owned = h.to_owned();
    assert_eq!(owned.dev_addr, [4, 3, 2, 1]);
    assert_eq!(owned.fctrl, 0x30);
    assert_eq!(owned.frame_count, 0x1234);
    assert_eq!(owned.fopts, [0xA1, 0xA2, 0xA3, 0, 0, 0, 0, 0, 0, 0, 0, 0, 0, 0, 0]);

    // the header alone: no FPort, no FRMPayload
    let m = MacPayload { bytes: &bytes[..10] };
    assert_eq!(m.fhdr_bytes(), Ok(&bytes[0..10]));
    assert_eq!(m.fport(), None);
    assert_eq!(m.frm_paylod_bytes(), &[] as &[u8]);

    // FPort, and an empty FRMPayload
    let m = MacPayload { bytes: &bytes[..11] };
    assert_eq!(m.fport(), Some(0x0A));
    assert_eq!(m.frm_paylod_bytes(), &[] as &[u8]);
}

#[test]
fn mac_payload_shorter_than_its_header() {
    let bytes = [0x04, 0x03, 0x02, 0x01, 0x30, 0x34, 0x12, 0xA1, 0xA2];
    for have in 0..=9usize {
        let m = MacPayload { bytes: &bytes[..have] };
        assert_eq!(m.fhdr_bytes(), Err(FrameHeaderParseError::TooSmall { have }));
        assert_eq!(m.frame_header().err(), Some(FrameHeaderParseError::TooSmall { have }));
        assert_eq!(m.fport(), None);
        assert_eq!(m.frm_paylod_bytes(), &[] as &[u8]);
    }
}

#[test]
fn frame_header_needs_seven_bytes() {
    let bytes = [0x04, 0x03, 0x02, 0x01, 0x30, 0x34, 0x12, 0xA1, 0xA2, 0xA3, 0x0A, 0xB1];
    for have in 0..7usize {
        assert_eq!(
            FrameHeader::from_bytes(&bytes[..have]).err(),
            Some(FrameHeaderParseError::TooSmall { have })
        );
    }
    for have in 7..=12usize {
        let h = FrameHeader::from_bytes(&bytes[..have]).unwrap();
        // the bytes are kept whole, whatever FCtrl announces
        assert_eq!(h.as_bytes(), &bytes[..have]);
        assert_eq!(h.dev_addr(), 0x01020304);
        assert_eq!(h.fctrl(), 0x30);
        assert_eq!(h.frame_count(), 0x1234);
    }
}

#[test]
fn frame_options_are_found_when_asked_for() {
    let bytes = [0x04, 0x03, 0x02, 0x01, 0x30, 0x34, 0x12, 0xA1, 0xA2, 0xA3, 0x0A, 0xB1];
    // FCtrl announces three bytes of frame options
    for have in 7..10usize {
        let h = FrameHeader::from_bytes(&bytes[..have]).unwrap();
        assert_eq!(h.fopts(), Err(FrameHeaderParseError::TooSmall { have }));
    }
    for have in 10..=12usize {
        let h = FrameHeader::from_bytes(&bytes[..have]).unwrap();
        assert_eq!(h.fopts(), Ok(&[0xA1, 0xA2, 0xA3][..]));
    }
    let h = FrameHeader::from_bytes(&bytes[..8]).unwrap();
    assert_eq!(h.to_owned().fopts, [0xA1, 0, 0, 0, 0, 0, 0, 0, 0, 0, 0, 0, 0, 0, 0]);
    let h = FrameHeader::from_bytes(&bytes).unwrap();
    assert_eq!(h.to_owned().fopts, [0xA1, 0xA2, 0xA3, 0, 0, 0, 0, 0, 0, 0, 0, 0, 0, 0, 0]);
    // a header that announces none
    let plain = [0x04, 0x03, 0x02, 0x01, 0x00, 0x34, 0x12, 0xA1];
    let h = FrameHeader::from_bytes(&plain).unwrap();
    assert_eq!(h.fopts(), Ok(&[] as &[u8]));
    assert_eq!(h.to_owned().fopts, [0; 15]);
    assert_eq!(FrameHeader::from_bytes(&[0, 0, 0, 0, 0x10, 0, 0]).unwrap().as_bytes().len(), 7);
}

#[test]
fn mic_is_defined_for_join_and_data_frames() {
    for t in 0..8u8 {
        let msg = [t, 1, 2, 3, 4, 5, 6, 7];
        assert_eq!(mic_defined(&msg), t < 6);
    }
    assert!(!mic_defined(&[]));
    let mut long = vec![2u8; 255];
    assert!(mic_defined(&long));
    long.push(0);
    assert!(!mic_defined(&long));
    long[0] = 0;
    assert!(mic_defined(&long));
    long[0] = 1;
    assert!(mic_defined(&long));
}

#[test]
fn mic_input_of_join_frames_is_the_message() {
    let msg = [0u8, 1, 2, 3, 4, 5, 6, 7, 8];
    assert_eq!(mic_input(&msg, Direction::Downlink, DevAddr { addr: 7 }, 9), msg.to_vec());
    let msg = [1u8, 1, 2, 3, 4, 5, 6, 7, 8];
    assert_eq!(mic_input(&msg, Direction::Uplink, DevAddr { addr: 7 }, 9), msg.to_vec());
}

#[test]
fn mic_input_of_data_frames_starts_with_b0() {
    for t in 2..6u8 {
        let msg = [t, 0xF1, 0x7D, 0xBE, 0x49, 0x00, 0x02, 0x00, 0x01, 0x95];
        let addr = DevAddr { addr: 0x49BE7DF1 };
        let input = mic_input(&msg, Direction::Uplink, addr, 0x0001_0002);
        assert_eq!(input.len(), 26);
        assert_eq!(
            &input[..16],
            &[0x49, 0, 0, 0, 0, 0, 0xF1, 0x7D, 0xBE, 0x49, 0x02, 0x00, 0x01, 0x00, 0x00, 10]
        );
        assert_eq!(&input[..16], &mic_block(Direction::Uplink, addr, 0x0001_0002, 10)[..]);
        assert_eq!(&input[16..], &msg[..]);
    }
}

#[test]
fn join_request_mic_is_cmac_of_the_message() {
    let buf = hex::decode("00DC0000D07ED5B3701E6FEDF57CEEAF00C886030AF2C9").unwrap();
    let app_key = key16("B6B53F4A168A7A88BDF7EA135CE9CFCA");
    let frame = PhyPayload::from_bytes(&buf[..]).unwrap();
    assert!(frame.can_authenticate());
    assert_eq!(frame.mic_expected(&app_key), [0x03, 0x0A, 0xF2, 0xC9]);
    assert_eq!(
        frame.expected_mic(&app_key, Direction::Downlink, DevAddr { addr: 77 }, 88),
        [0x03, 0x0A, 0xF2, 0xC9]
    );
    assert_eq!(frame.mic_expected(&app_key), frame.mic());
    assert_eq!(frame.mic_expected(&app_key), cmac4(&app_key, &buf[..19]));
    assert_eq!(
        compute_mic(&app_key, &buf[..19], Direction::Uplink, DevAddr { addr: 0 }, 0),
        [0x03, 0x0A, 0xF2, 0xC9]
    );
    let other = key16("B6B53F4A168A7A88BDF7EA135CE9CFCB");
    assert_ne!(frame.mic_expected(&other), frame.mic());
}

#[test]
fn data_frame_mic_is_cmac_of_b0_and_message() {
    let nwk_skey = key16("44024241ed4ce9a68c6a8bc055233fd3");
    // an unconfirmed data uplink: DevAddr 49BE7DF1, FCnt 2, FPort 1
    let mut buf = hex::decode("02F17DBE4900020001954378762B11FF0D").unwrap();
    let addr = DevAddr { addr: 0x49BE7DF1 };
    let mut input = mic_block(Direction::Uplink, addr, 2, 13).to_vec();
    input.extend_from_slice(&buf[..13]);
    let expected = cmac4(&nwk_skey, &input);
    let frame = PhyPayload::from_bytes(&buf[..]).unwrap();
    assert!(frame.can_authenticate());
    assert_eq!(frame.expected_mic(&nwk_skey, Direction::Uplink, addr, 2), expected);
    assert_eq!(frame.mic_expected(&nwk_skey), expected);
    // a frame counter above 16 bits enters the code, but is not in the frame
    let mut input = mic_block(Direction::Uplink, addr, 0x0003_0002, 13).to_vec();
    input.extend_from_slice(&buf[..13]);
    let high = cmac4(&nwk_skey, &input);
    assert_eq!(frame.expected_mic(&nwk_skey, Direction::Uplink, addr, 0x0003_0002), high);
    assert_ne!(high, expected);
    // as a downlink the same bytes have another code
    buf[0] = 0x03;
    let mut input = mic_block(Direction::Downlink, addr, 2, 13).to_vec();
    input.extend_from_slice(&buf[..13]);
    let down = cmac4(&nwk_skey, &input);
    let frame = PhyPayload::from_bytes(&buf[..]).unwrap();
    assert_eq!(frame.mic_expected(&nwk_skey), down);
    assert_ne!(down, expected);
}

#[test]
fn frames_that_cannot_be_authenticated() {
    for (t, ok) in [(0u8, true), (1, false), (2, true), (5, true), (6, false), (7, false)] {
        let mut bytes = vec![0u8; 23];
        bytes[0] = t;
        let frame = PhyPayload::from_bytes(&bytes[..]).unwrap();
        assert_eq!(frame.can_authenticate(), ok);
    }
    let mut bytes = vec![0u8; 260];
    bytes[0] = 2;
    assert!(!PhyPayload::from_bytes(&bytes[..]).unwrap().can_authenticate());
    bytes.pop();
    assert!(PhyPayload::from_bytes(&bytes[..]).unwrap().can_authenticate());
}

#[test]
fn encode_then_decode_gives_the_parts_back() {
    let key = key16("44024241ed4ce9a68c6a8bc055233fd3");
    let addr = DevAddr { addr: 0x49BE7DF1 };
    for t in [
        FrameType::JoinRequest,
        FrameType::JoinAccept,
        FrameType::UnconfirmedDataUplink,
        FrameType::ConfirmedDataDownlink,
    ] {
        for len in [7usize, 12, 18, 28, 100, 254] {
            let header = MacHeader::new().with_ftype(t);
            let payload: Vec<u8> = (0..len).map(|i| (i * 3) as u8).collect();
            let direction = t.direction().unwrap_or(Direction::Uplink);
            let bytes = encode(header, &payload, &key, direction, addr, 5).unwrap();
            assert_eq!(bytes.len(), len + 5);
            assert_eq!(bytes[0], header.into_bytes()[0]);
            assert_eq!(&bytes[1..len + 1], &payload[..]);
            let frame = PhyPayload::from_bytes(&bytes[..]).unwrap();
            assert_eq!(frame.mac_header(), header);
            assert_eq!(frame.payload_bytes(), &payload[..]);
            assert_eq!(
                frame.mic(),
                compute_mic(&key, &bytes[..len + 1], direction, addr, 5)
            );
            if t != FrameType::JoinAccept {
                assert_eq!(frame.mic(), frame.expected_mic(&key, direction, addr, 5));
            }
        }
    }
}

#[test]
fn encode_gives_the_known_join_request() {
    let buf = hex::decode("00DC0000D07ED5B3701E6FEDF57CEEAF00C886030AF2C9").unwrap();
    let app_key = key16("B6B53F4A168A7A88BDF7EA135CE9CFCA");
    let bytes = encode(
        MacHeader::new().with_ftype(FrameType::JoinRequest),
        &buf[1..19],
        &app_key,
        Direction::Uplink,
        DevAddr { addr: 0 },
        0,
    );
    assert_eq!(bytes, Ok(buf));
}

#[test]
fn encode_rejects_what_cannot_be_a_frame() {
    let key = [0u8; 16];
    let addr = DevAddr { addr: 0 };
    let header = MacHeader::new().with_ftype(FrameType::UnconfirmedDataUplink);
    for have in 0..7usize {
        assert_eq!(
            encode(header, &vec![0u8; have], &key, Direction::Uplink, addr, 0),
            Err(EncodeError::PayloadTooSmall { have, need: 7 })
        );
    }
    assert!(encode(header, &[0u8; 254], &key, Direction::Uplink, addr, 0).is_ok());
    assert_eq!(
        encode(header, &[0u8; 255], &key, Direction::Uplink, addr, 0),
        Err(EncodeError::MicUndefined)
    );
    for t in [FrameType::Rfu, FrameType::Proprietary] {
        assert_eq!(
            encode(MacHeader::new().with_ftype(t), &[0u8; 7], &key, Direction::Uplink, addr, 0),
            Err(EncodeError::MicUndefined)
        );
    }
    let join = MacHeader::new().with_ftype(FrameType::JoinAccept);
    assert!(encode(join, &[0u8; 1000], &key, Direction::Uplink, addr, 0).is_ok());
}

#[test]
fn decrypt_data_frame() {
    let app_skey = key16("ec925802ae430ca77fd3dd73cb2cc588");
    let buf = hex::decode("02F17DBE4900020001954378762B11FF0D").unwrap();
    let frame = PhyPayload::from_bytes(&buf[..]).unwrap();
    assert!(frame.can_decrypt());
    let plain = frame.decrypt(&app_skey, 2);
    assert_eq!(plain.frm_payload(), b"test");
    assert_eq!(plain.mac_header(), MacHeader::from_bytes([2]));
    assert_eq!(plain.mic(), [0x2B, 0x11, 0xFF, 0x0D]);
    assert_eq!(&plain.as_bytes()[..9], &buf[..9]);
    assert_eq!(plain.as_bytes().len(), buf.len());
}

#[test]
fn decrypt_data_frame_with_frame_options() {
    let key = key16("000102030405060708090a0b0c0d0e0f");
    let addr = DevAddr { addr: 0x01020304 };
    let secret: Vec<u8> = (0..40u8).collect();
    let cipher = crypt(&secret, &key, Direction::Downlink, addr, 0x0001_1234);
    let mut buf = vec![0x03, 0x04, 0x03, 0x02, 0x01, 0x20, 0x34, 0x12, 0xA1, 0xA2, 0x09];
    buf.extend_from_slice(&cipher);
    buf.extend_from_slice(&[0xd1, 0xd2, 0xd3, 0xd4]);
    let frame = PhyPayload::from_bytes(&buf[..]).unwrap();
    let plain = frame.decrypt(&key, 0x0001_1234);
    assert_eq!(plain.frm_payload(), &secret[..]);
    assert_eq!(&plain.as_bytes()[..11], &buf[..11]);
    assert_eq!(plain.mic(), [0xd1, 0xd2, 0xd3, 0xd4]);
}

#[test]
fn decrypt_leaves_frames_without_a_port_alone() {
    let key = key16("000102030405060708090a0b0c0d0e0f");
    // a data frame that ends with its header
    let buf = vec![0x02, 0x04, 0x03, 0x02, 0x01, 0x00, 0x34, 0x12, 0xd1, 0xd2, 0xd3, 0xd4];
    let frame = PhyPayload::from_bytes(&buf[..]).unwrap();
    let plain = frame.decrypt(&key, 1);
    assert_eq!(plain.as_bytes(), &buf[..]);
    assert_eq!(plain.frm_payload(), &[] as &[u8]);
    // a join request holds nothing encrypted
    let buf = hex::decode("00DC0000D07ED5B3701E6FEDF57CEEAF00C886030AF2C9").unwrap();
    let frame = PhyPayload::from_bytes(&buf[..]).unwrap();
    assert_eq!(frame.decrypt(&key, 1).as_bytes(), &buf[..]);
    // frames of the reserved types stay as they are
    let mut other = buf.clone();
    other[0] = 6;
    let frame = PhyPayload::from_bytes(&other[..]).unwrap();
    assert_eq!(frame.decrypt(&key, 1).as_bytes(), &other[..]);
}

#[test]
fn join_accept_is_authenticated_after_decryption() {
    let app_key = key16("B6B53F4A168A7A88BDF7EA135CE9CFCA");
    let body: Vec<u8> =
        vec![0x01, 0x02, 0x03, 0x11, 0x12, 0x13, 0x21, 0x22, 0x23, 0x24, 0xA5, 0x07];
    let header = MacHeader::new().with_ftype(FrameType::JoinAccept);
    let clear =
        encode(header, &body, &app_key, Direction::Downlink, DevAddr { addr: 0 }, 0).unwrap();
    assert_eq!(clear.len(), 17);
    assert_eq!(&clear[13..], &cmac4(&app_key, &clear[..13])[..]);
    // the network server sends body and MIC through the AES decryption
    let cipher = aes::Aes128::new((&app_key).into());
    let mut block = aes::Block::clone_from_slice(&clear[1..]);
    cipher.decrypt_block(&mut block);
    let mut wire = vec![clear[0]];
    wire.extend_from_slice(&block);
    assert_ne!(wire, clear);

    let frame = PhyPayload::from_bytes(&wire[..]).unwrap();
    assert!(!frame.can_authenticate());
    assert!(frame.can_decrypt());
    let plain = frame.decrypt(&app_key, 0);
    assert_eq!(plain.as_bytes(), &clear[..]);
    assert_eq!(plain.mic_expected(&app_key), plain.mic());
    let j = plain.join_accept().unwrap();
    assert_eq!(j.join_nonce(), 0x030201);
    assert_eq!(j.net_id(), 0x131211);
    assert_eq!(j.dev_addr(), 0x24232221);
    assert_eq!(
        j.calculate_network_session_key(&app_key, 0x2221),
        lorawan::end_device_network_skey(&app_key, [1, 2, 3], [0x11, 0x12, 0x13], [0x21, 0x22, 0])
    );
    assert_eq!(
        j.calculate_app_session_key(&app_key, 0x2221),
        lorawan::end_device_app_skey(&app_key, [1, 2, 3], [0x11, 0x12, 0x13], [0x21, 0x22, 0])
    );
}

#[test]
fn decrypted_frame_that_is_no_join_accept() {
    let key = [0u8; 16];
    let buf = vec![0x02u8; 20];
    let plain = PhyPayload::from_bytes(&buf[..]).unwrap().decrypt(&key, 0);
    assert_eq!(plain.join_accept().err(), Some(JoinAcceptParseError::SizeMismatch { have: 15 }));
}

#[test]
fn data_payload_layout() {
    let p = lorawan::mac_frame::data_payload(
        DevAddr { addr: 0x49BE7DF1 },
        0x0003_0002,
        1,
        &[0x95, 0x43, 0x78, 0x76],
    );
    assert_eq!(p, hex::decode("F17DBE490002000195437876").unwrap());
    let empty = lorawan::mac_frame::data_payload(DevAddr { addr: 1 }, 0xFFFF, 0, &[]);
    assert_eq!(empty, vec![1, 0, 0, 0, 0, 0xFF, 0xFF, 0]);
}

#[test]
fn uplink_frame_is_built_around_the_payload() {
    let keys = lorawan::crypto::SessionKeys {
        nwk_s_key: key16("44024241ed4ce9a68c6a8bc055233fd3"),
        app_s_key: key16("ec925802ae430ca77fd3dd73cb2cc588"),
    };
    let addr = DevAddr { addr: 0x49BE7DF1 };
    let frame = lorawan::mac_frame::uplink_frame(false, &keys, addr, 2, 1, b"test").unwrap();
    // header, then the payload of the known frame, then the code
    assert_eq!(&frame[..13], &hex::decode("02F17DBE490002000195437876").unwrap()[..]);
    let mut input = mic_block(Direction::Uplink, addr, 2, 13).to_vec();
    input.extend_from_slice(&frame[..13]);
    assert_eq!(&frame[13..], &cmac4(&keys.nwk_s_key, &input)[..]);
    assert_eq!(frame.len(), 17);

    let decoded = PhyPayload::from_bytes(&frame[..]).unwrap();
    assert_eq!(decoded.mac_header().ftype(), FrameType::UnconfirmedDataUplink);
    assert_eq!(decoded.mic_expected(&keys.nwk_s_key), decoded.mic());
    let plain = decoded.decrypt(keys.key_for_port(1), 2);
    assert_eq!(plain.frm_payload(), b"test");

    let confirmed = lorawan::mac_frame::uplink_frame(true, &keys, addr, 2, 1, b"test").unwrap();
    assert_eq!(confirmed[0], 4);
    assert_eq!(&confirmed[1..13], &frame[1..13]);
    assert_ne!(&confirmed[13..], &frame[13..]);

    // port 0 goes under the network session key
    let mac = lorawan::mac_frame::uplink_frame(false, &keys, addr, 2, 0, b"test").unwrap();
    assert_eq!(mac[8], 0);
    assert_eq!(
        &mac[9..13],
        &crypt(b"test", &keys.nwk_s_key, Direction::Uplink, addr, 2)[..]
    );
}

#[test]
fn uplink_frame_length_limit() {
    let keys = lorawan::crypto::SessionKeys { nwk_s_key: [1; 16], app_s_key: [2; 16] };
    let addr = DevAddr { addr: 7 };
    assert_eq!(lorawan::mac_frame::MAX_UPLINK_PAYLOAD, 246);
    let longest = vec![0u8; 246];
    let frame = lorawan::mac_frame::uplink_frame(true, &keys, addr, 0x1_0000, 9, &longest).unwrap();
    assert_eq!(frame.len(), 259);
    assert!(PhyPayload::from_bytes(&frame[..]).unwrap().can_authenticate());
    let too_long = vec![0u8; 247];
    assert_eq!(
        lorawan::mac_frame::uplink_frame(true, &keys, addr, 0, 9, &too_long),
        Err(EncodeError::MicUndefined)
    );
    let empty = lorawan::mac_frame::uplink_frame(false, &keys, addr, 0, 9, &[]).unwrap();
    assert_eq!(empty.len(), 13);
}
