use aes::cipher::{BlockEncrypt, KeyInit};
use cmac::Mac;
use lorawan::crypto::{
    crypt, ecb_encrypt, frame_port_key, keystream, keystream_block, mic_block, mic_from_tag,
    xor_bytes, Direction, Key, MAX_CRYPT_LEN,
};
use lorawan::{end_device_app_skey, end_device_network_skey, DevAddr};

fn key16(hex_key: &str) -> [u8; 16] {
    let v = hex::decode(hex_key).unwrap();
    let mut k = [0u8; 16];
    k.copy_from_slice(&v);
    k
}

fn aes_block(key: &[u8; 16], block: [u8; 16]) -> [u8; 16] {
    let cipher = aes::Aes128::new(key.into());
    let mut b = aes::Block::from(block);
    cipher.encrypt_block(&mut b);
    b.into()
}

fn cmac_tag(key: &[u8; 16], msg: &[u8]) -> [u8; 16] {
    let mut mac = <cmac::Cmac<aes::Aes128> as Mac>::new_from_slice(key).unwrap();
    mac.update(msg);
    mac.finalize().into_bytes().into()
}

#[test]
fn frame_port_selects_the_key() {
    assert_eq!(frame_port_key(0), Key::NwkSKey);
    for port in 1..=255u8 {
        assert_eq!(frame_port_key(port), Key::AppSKey);
    }
}

#[test]
fn direction_bytes() {
    assert_eq!(Direction::Uplink.byte(), 0);
    assert_eq!(Direction::Downlink.byte(), 1);
}

#[test]
fn keystream_block_layout() {
    assert_eq!(
        keystream_block(Direction::Uplink, DevAddr { addr: 0x49BE7DF1 }, 2, 1),
        [0x01, 0, 0, 0, 0, 0x00, 0xF1, 0x7D, 0xBE, 0x49, 0x02, 0x00, 0x00, 0x00, 0x00, 0x01]
    );
    assert_eq!(
        keystream_block(Direction::Downlink, DevAddr { addr: 0x01020304 }, 0xA1B2C3D4, 0x7f),
        [0x01, 0, 0, 0, 0, 0x01, 0x04, 0x03, 0x02, 0x01, 0xD4, 0xC3, 0xB2, 0xA1, 0x00, 0x7f]
    );
}

#[test]
fn mic_block_layout() {
    assert_eq!(
        mic_block(Direction::Uplink, DevAddr { addr: 0x49BE7DF1 }, 2, 13),
        [0x49, 0, 0, 0, 0, 0x00, 0xF1, 0x7D, 0xBE, 0x49, 0x02, 0x00, 0x00, 0x00, 0x00, 13]
    );
    assert_eq!(
        mic_block(Direction::Downlink, DevAddr { addr: 0 }, 0x0001_0000, 255),
        [0x49, 0, 0, 0, 0, 0x01, 0, 0, 0, 0, 0x00, 0x00, 0x01, 0x00, 0x00, 255]
    );
}

/// Example of the README of github.com/anthonykirby/lora-packet: the payload
/// `95437876` of the frame `40F17DBE4900020001954378762B11FF0D` decrypts to
/// "test".
#[test]
fn crypt_known_vector() {
    let app_skey = key16("ec925802ae430ca77fd3dd73cb2cc588");
    let payload = hex::decode("95437876").unwrap();
    let plain = crypt(&payload, &app_skey, Direction::Uplink, DevAddr { addr: 0x49BE7DF1 }, 2);
    assert_eq!(plain, b"test".to_vec());
    let back = crypt(&plain, &app_skey, Direction::Uplink, DevAddr { addr: 0x49BE7DF1 }, 2);
    assert_eq!(back, payload);
}

/// The message integrity code of the same frame is `2B11FF0D`: block `B_0`
/// goes before the 13 bytes of header and payload.
#[test]
fn mic_block_known_vector() {
    let nwk_skey = key16("44024241ed4ce9a68c6a8bc055233fd3");
    let msg = hex::decode("40F17DBE49000200019543787 6".replace(' ', "")).unwrap();
    let mut input = mic_block(Direction::Uplink, DevAddr { addr: 0x49BE7DF1 }, 2, msg.len() as u8)
        .to_vec();
    input.extend_from_slice(&msg);
    let tag = cmac_tag(&nwk_skey, &input);
    assert_eq!(mic_from_tag(&tag), [0x2B, 0x11, 0xFF, 0x0D]);
}

#[test]
fn crypt_is_its_own_inverse() {
    let key = key16("000102030405060708090a0b0c0d0e0f");
    for len in [0usize, 1, 2, 15, 16, 17, 31, 32, 33, 100, 255, 256, 1000, MAX_CRYPT_LEN] {
        let payload: Vec<u8> = (0..len).map(|i| (i * 7 + 3) as u8).collect();
        for direction in [Direction::Uplink, Direction::Downlink] {
            let addr = DevAddr { addr: 0xdeadbeef };
            let once = crypt(&payload, &key, direction, addr, 0x01020304);
            assert_eq!(once.len(), len);
            if len >= 8 {
                assert_ne!(once, payload);
            }
            let twice = crypt(&once, &key, direction, addr, 0x01020304);
            assert_eq!(twice, payload);
        }
    }
}

#[test]
fn crypt_depends_on_every_argument() {
    let key = key16("000102030405060708090a0b0c0d0e0f");
    let other = key16("000102030405060708090a0b0c0d0e0e");
    let payload = [0u8; 20];
    let addr = DevAddr { addr: 1 };
    let base = crypt(&payload, &key, Direction::Uplink, addr, 1);
    assert_ne!(base, crypt(&payload, &other, Direction::Uplink, addr, 1));
    assert_ne!(base, crypt(&payload, &key, Direction::Downlink, addr, 1));
    assert_ne!(base, crypt(&payload, &key, Direction::Uplink, DevAddr { addr: 2 }, 1));
    assert_ne!(base, crypt(&payload, &key, Direction::Uplink, addr, 2));
}

#[test]
fn keystream_is_the_encrypted_blocks_in_order() {
    let key = key16("2b7e151628aed2a6abf7158809cf4f3c");
    let addr = DevAddr { addr: 0x11223344 };
    let stream = keystream(&key, Direction::Downlink, addr, 9, 40);
    assert_eq!(stream.len(), 40);
    let s1 = aes_block(&key, keystream_block(Direction::Downlink, addr, 9, 1));
    let s2 = aes_block(&key, keystream_block(Direction::Downlink, addr, 9, 2));
    let s3 = aes_block(&key, keystream_block(Direction::Downlink, addr, 9, 3));
    assert_eq!(&stream[0..16], &s1[..]);
    assert_eq!(&stream[16..32], &s2[..]);
    assert_eq!(&stream[32..40], &s3[..8]);
    assert_eq!(keystream(&key, Direction::Downlink, addr, 9, 0), Vec::<u8>::new());
    assert_eq!(keystream(&key, Direction::Downlink, addr, 9, 16), s1.to_vec());
}

#[test]
fn keystream_reaches_block_255() {
    let key = key16("2b7e151628aed2a6abf7158809cf4f3c");
    let addr = DevAddr { addr: 0 };
    let stream = keystream(&key, Direction::Uplink, addr, 0, MAX_CRYPT_LEN);
    assert_eq!(stream.len(), 4080);
    let last = aes_block(&key, keystream_block(Direction::Uplink, addr, 0, 255));
    assert_eq!(&stream[4064..], &last[..]);
}

#[test]
fn xor_bytes_on_given_values() {
    assert_eq!(xor_bytes(&[0x0f, 0xf0, 0xaa], &[0xff, 0xff, 0xaa, 0x55]), vec![0xf0, 0x0f, 0x00]);
    assert_eq!(xor_bytes(&[], &[1, 2, 3]), Vec::<u8>::new());
    assert_eq!(xor_bytes(&[1, 2, 3], &[0, 0, 0]), vec![1, 2, 3]);
}

/// FIPS-197, appendix C.1.
#[test]
fn ecb_encrypt_known_block() {
    let key = key16("000102030405060708090a0b0c0d0e0f");
    let plain = hex::decode("00112233445566778899aabbccddeeff").unwrap();
    assert_eq!(
        ecb_encrypt(&key, &plain),
        hex::decode("69c4e0d86a7b0430d8cdb78070b4c55a").unwrap()
    );
}

#[test]
fn ecb_encrypt_leaves_a_short_tail() {
    let key = key16("000102030405060708090a0b0c0d0e0f");
    let mut data = hex::decode("00112233445566778899aabbccddeeff").unwrap();
    data.extend_from_slice(&data.clone());
    data.extend_from_slice(&[1, 2, 3]);
    let out = ecb_encrypt(&key, &data);
    let block = hex::decode("69c4e0d86a7b0430d8cdb78070b4c55a").unwrap();
    assert_eq!(out.len(), 35);
    assert_eq!(&out[0..16], &block[..]);
    assert_eq!(&out[16..32], &block[..]);
    assert_eq!(&out[32..], &[1, 2, 3]);
    assert_eq!(ecb_encrypt(&key, &[9, 8, 7]), vec![9, 8, 7]);
    assert_eq!(ecb_encrypt(&key, &[]), Vec::<u8>::new());
}

#[test]
fn session_keys_are_the_encrypted_blocks() {
    let app_key = key16("B6B53F4A168A7A88BDF7EA135CE9CFCA");
    let join_nonce = [0x01, 0x02, 0x03];
    let net_id = [0x11, 0x12, 0x13];
    let dev_nonce = [0x21, 0x22, 0x00];
    let nwk = end_device_network_skey(&app_key, join_nonce, net_id, dev_nonce);
    let app = end_device_app_skey(&app_key, join_nonce, net_id, dev_nonce);
    assert_eq!(
        nwk,
        aes_block(
            &app_key,
            [0x01, 0x01, 0x02, 0x03, 0x11, 0x12, 0x13, 0x21, 0x22, 0, 0, 0, 0, 0, 0, 0]
        )
    );
    assert_eq!(
        app,
        aes_block(
            &app_key,
            [0x02, 0x01, 0x02, 0x03, 0x11, 0x12, 0x13, 0x21, 0x22, 0, 0, 0, 0, 0, 0, 0]
        )
    );
    assert_ne!(nwk, app);
}

#[test]
fn mic_is_the_head_of_the_tag() {
    let tag = [1u8, 2, 3, 4, 5, 6, 7, 8, 9, 10, 11, 12, 13, 14, 15, 16];
    assert_eq!(mic_from_tag(&tag), [1, 2, 3, 4]);
}

#[test]
fn session_keys_by_port() {
    let keys = lorawan::crypto::SessionKeys {
        nwk_s_key: key16("44024241ed4ce9a68c6a8bc055233fd3"),
        app_s_key: key16("ec925802ae430ca77fd3dd73cb2cc588"),
    };
    assert_eq!(keys.key_for_port(0), &keys.nwk_s_key);
    for port in 1..=255u8 {
        assert_eq!(keys.key_for_port(port), &keys.app_s_key);
    }
    let addr = DevAddr { addr: 0x49BE7DF1 };
    let payload = hex::decode("95437876").unwrap();
    assert_eq!(keys.crypt(1, &payload, Direction::Uplink, addr, 2), b"test".to_vec());
    assert_eq!(
        keys.crypt(0, &payload, Direction::Uplink, addr, 2),
        crypt(&payload, &keys.nwk_s_key, Direction::Uplink, addr, 2)
    );
    assert_ne!(keys.crypt(0, &payload, Direction::Uplink, addr, 2), b"test".to_vec());
}

#[test]
fn blocks_become_a_stream_cut_to_length() {
    let mut a = [0u8; 16];
    let mut b = [0u8; 16];
    for i in 0..16 {
        a[i] = i as u8;
        b[i] = 0x80 + i as u8;
    }
    let blocks = [a, b];
    assert_eq!(lorawan::crypto::blocks_bytes(&blocks, 0), Vec::<u8>::new());
    assert_eq!(lorawan::crypto::blocks_bytes(&blocks, 3), vec![0, 1, 2]);
    assert_eq!(lorawan::crypto::blocks_bytes(&blocks, 16), a.to_vec());
    assert_eq!(
        lorawan::crypto::blocks_bytes(&blocks, 18),
        vec![0, 1, 2, 3, 4, 5, 6, 7, 8, 9, 10, 11, 12, 13, 14, 15, 0x80, 0x81]
    );
    let mut all = a.to_vec();
    all.extend_from_slice(&b);
    assert_eq!(lorawan::crypto::blocks_bytes(&blocks, 32), all);
    assert_eq!(lorawan::crypto::blocks_bytes(&[], 0), Vec::<u8>::new());
}

#[test]
fn data_is_cut_into_blocks() {
    let data: Vec<u8> = (0..40u8).collect();
    assert_eq!(lorawan::crypto::block_at(&data, 0).to_vec(), (0..16u8).collect::<Vec<u8>>());
    assert_eq!(lorawan::crypto::block_at(&data, 1).to_vec(), (16..32u8).collect::<Vec<u8>>());
}

#[test]
fn whole_blocks_are_replaced_and_the_tail_kept() {
    let data: Vec<u8> = (0..35u8).collect();
    let blocks = [[0xAAu8; 16], [0xBBu8; 16]];
    let out = lorawan::crypto::replace_blocks(&blocks, &data);
    assert_eq!(out.len(), 35);
    assert_eq!(&out[..16], &[0xAA; 16]);
    assert_eq!(&out[16..32], &[0xBB; 16]);
    assert_eq!(&out[32..], &[32, 33, 34]);
    assert_eq!(lorawan::crypto::replace_blocks(&[], &[1, 2, 3]), vec![1, 2, 3]);
    assert_eq!(lorawan::crypto::replace_blocks(&[], &[]), Vec::<u8>::new());
    assert_eq!(lorawan::crypto::replace_blocks(&[[7u8; 16]], &[0u8; 16]), vec![7u8; 16]);
}
