//! The cryptographic constructions of LoRaWAN L2 1.0.4: the keystream that
//! encrypts a frame payload, the blocks that enter the message integrity
//! code, and the derivation of the session keys.
//!
//! AES-128 and AES-128-CMAC themselves come from the `aes` and `cmac` crates.
//! What they compute is named here, not defined: the contracts below say how
//! the protocol uses them.
use crate::codec::{spec_u32_to_le_bytes, u32_to_le_bytes};
use crate::DevAddr;
use aes::cipher::{BlockEncrypt, KeyInit};
use cmac::Mac;
use vstd::prelude::*;

verus! {

/// The AES-128 encryption of one 16-byte block under a 16-byte key.
pub uninterp spec fn aes128_encrypt(key: Seq<u8>, block: Seq<u8>) -> Seq<u8>;

/// Encrypts one block with `aes::Aes128`.
///
/// Trusted: the result is a function of key and block alone, and it is what
/// [`aes128_encrypt`] names.
#[verifier::external_body]
pub(crate) fn aes128_encrypt_block(key: &[u8; 16], block: &[u8; 16]) -> (out: [u8; 16])
    ensures
        out@ == aes128_encrypt(key@, block@),
{
    let cipher = aes::Aes128::new(key.into());
    let mut buf = aes::Block::from(*block);
    cipher.encrypt_block(&mut buf);
    buf.into()
}

/// The 16-byte AES-128-CMAC tag of a message under a 16-byte key.
pub uninterp spec fn aes128_cmac(key: Seq<u8>, msg: Seq<u8>) -> Seq<u8>;

/// Computes the tag with `cmac::Cmac<aes::Aes128>`: `new_from_slice`, one
/// `update` with the whole message, `finalize`.
///
/// Trusted: the result is a function of key and message alone, and it is
/// what [`aes128_cmac`] names. `new_from_slice` fails on a key that is not 16
/// bytes long, so such a key is not accepted.
#[verifier::external_body]
pub(crate) fn aes128_cmac_tag(key: &[u8], msg: &[u8]) -> (tag: [u8; 16])
    requires
        key@.len() == 16,
    ensures
        tag@ == aes128_cmac(key@, msg@),
{
    let mut mac = <cmac::Cmac<aes::Aes128> as Mac>::new_from_slice(key).unwrap();
    mac.update(msg);
    mac.finalize().into_bytes().into()
}

/// Which way a data frame travels.
#[derive(Debug, Clone, Copy, PartialEq, Eq, Structural)]
pub enum Direction {
    /// From the end-device to the network server.
    Uplink,
    /// From the network server to the end-device.
    Downlink,
}

impl Direction {
    /// The `Dir` byte of the blocks: 0 for an uplink, 1 for a downlink.
    pub open spec fn spec_byte(&self) -> u8 {
        match *self {
            Direction::Uplink => 0,
            Direction::Downlink => 1,
        }
    }

    #[verifier::when_used_as_spec(spec_byte)]
    pub fn byte(&self) -> (b: u8)
        ensures
            b == self.spec_byte(),
    {
        match *self {
            Direction::Uplink => 0,
            Direction::Downlink => 1,
        }
    }
}

/// Which session key encrypts a frame payload.
#[derive(Debug, Clone, Copy, PartialEq, Eq, Structural)]
pub enum Key {
    NwkSKey,
    AppSKey,
}

/// The key that encrypts the payload of a frame sent on `frame_port`: port 0
/// carries MAC commands under the network session key, every other port
/// carries application data under the application session key.
pub fn frame_port_key(frame_port: u8) -> (key: Key)
    ensures
        key == if frame_port == 0 {
            Key::NwkSKey
        } else {
            Key::AppSKey
        },
{
    if frame_port == 0 {
        Key::NwkSKey
    } else {
        Key::AppSKey
    }
}

/// The 16-byte block
///
/// ```norust
/// size (octets) -> 1       |  4       | 1     | 4         | 4      | 1    | 1
///                  `first` | 4 * 0x00 | `Dir` | `DevAddr` | `FCnt` | 0x00 | `last`
/// ```
///
/// with `DevAddr` and `FCnt` little-endian.
pub open spec fn spec_block(first: u8, direction: Direction, dev_addr: u32, fcnt: u32, last: u8)
    -> Seq<u8> {
    seq![first, 0u8, 0u8, 0u8, 0u8, direction.spec_byte()] + spec_u32_to_le_bytes(dev_addr)
        + spec_u32_to_le_bytes(fcnt) + seq![0u8, last]
}

/// Block `A_i` of the payload keystream: it starts with 0x01 and ends with
/// the block's number `i`.
pub open spec fn spec_keystream_block(direction: Direction, dev_addr: u32, fcnt: u32, i: u8) -> Seq<
    u8,
> {
    spec_block(0x01, direction, dev_addr, fcnt, i)
}

/// Block `B_0` that precedes a data frame in its message integrity code: it
/// starts with 0x49 and ends with the length of the message.
pub open spec fn spec_mic_block(direction: Direction, dev_addr: u32, fcnt: u32, msg_len: u8) -> Seq<
    u8,
> {
    spec_block(0x49, direction, dev_addr, fcnt, msg_len)
}

fn block(first: u8, direction: Direction, dev_addr: DevAddr, fcnt: u32, last: u8) -> (b: [u8; 16])
    ensures
        b@ == spec_block(first, direction, dev_addr.addr, fcnt, last),
{
    let a: [u8; 4] = u32_to_le_bytes(dev_addr.addr);
    let c: [u8; 4] = u32_to_le_bytes(fcnt);
    let b: [u8; 16] = [
        first,
        0,
        0,
        0,
        0,
        direction.byte(),
        a[0],
        a[1],
        a[2],
        a[3],
        c[0],
        c[1],
        c[2],
        c[3],
        0,
        last,
    ];
    assert(b@ =~= spec_block(first, direction, dev_addr.addr, fcnt, last));
    b
}

/// Builds block `A_i` of the payload keystream.
pub fn keystream_block(direction: Direction, dev_addr: DevAddr, fcnt: u32, i: u8) -> (b: [u8; 16])
    ensures
        b@ == spec_keystream_block(direction, dev_addr.addr, fcnt, i),
{
    block(0x01, direction, dev_addr, fcnt, i)
}

/// Builds block `B_0` of the message integrity code of a data frame.
pub fn mic_block(direction: Direction, dev_addr: DevAddr, fcnt: u32, msg_len: u8) -> (b: [u8; 16])
    ensures
        b@ == spec_mic_block(direction, dev_addr.addr, fcnt, msg_len),
{
    block(0x49, direction, dev_addr, fcnt, msg_len)
}

/// Byte `j` of the keystream `S_1 | S_2 | ...`, where
/// `S_i = aes128_encrypt(K, A_i)`: it is byte `j mod 16` of block
/// `j / 16 + 1`.
pub open spec fn spec_keystream_byte(
    key: Seq<u8>,
    direction: Direction,
    dev_addr: u32,
    fcnt: u32,
    j: int,
) -> u8 {
    aes128_encrypt(key, spec_keystream_block(direction, dev_addr, fcnt, (j / 16 + 1) as u8))[j
        % 16]
}

/// The first `len` bytes of the keystream.
pub open spec fn spec_keystream(
    key: Seq<u8>,
    direction: Direction,
    dev_addr: u32,
    fcnt: u32,
    len: nat,
) -> Seq<u8> {
    Seq::new(len, |j: int| spec_keystream_byte(key, direction, dev_addr, fcnt, j))
}

/// Two byte strings xored byte by byte, over the length of the first.
pub open spec fn spec_xor(data: Seq<u8>, keystream: Seq<u8>) -> Seq<u8> {
    Seq::new(data.len(), |j: int| data[j] ^ keystream[j])
}

/// A payload xored with the keystream of its frame. Encryption and
/// decryption are this one operation.
pub open spec fn spec_crypt(
    payload: Seq<u8>,
    key: Seq<u8>,
    direction: Direction,
    dev_addr: u32,
    fcnt: u32,
) -> Seq<u8> {
    spec_xor(payload, spec_keystream(key, direction, dev_addr, fcnt, payload.len()))
}

/// The longest payload that the keystream reaches: its blocks are numbered
/// from 1 in a single byte.
pub const MAX_CRYPT_LEN: usize = 255 * 16;

/// The first `len` bytes of a run of 16-byte blocks put one after another.
pub open spec fn spec_blocks_bytes(blocks: Seq<[u8; 16]>, len: nat) -> Seq<u8> {
    Seq::new(len, |j: int| blocks[j / 16]@[j % 16])
}

/// Puts 16-byte blocks one after another and cuts the result to `len` bytes.
/// This is how the encrypted blocks `S_1`, `S_2`, ... become the keystream
/// of a payload.
pub fn blocks_bytes(blocks: &[[u8; 16]], len: usize) -> (out: Vec<u8>)
    requires
        len <= 16 * blocks@.len(),
    ensures
        out@ == spec_blocks_bytes(blocks@, len as nat),
        out@.len() == len,
{
    let mut out: Vec<u8> = Vec::new();
    let mut j: usize = 0;
    while j < len
        invariant
            j <= len <= 16 * blocks@.len(),
            out@.len() == j,
            forall|k: int| 0 <= k < j ==> out@[k] == blocks@[k / 16]@[k % 16],
        decreases len - j,
    {
        let block: &[u8; 16] = &blocks[j / 16];
        out.push(block[j % 16]);
        j += 1;
    }
    assert(out@ =~= spec_blocks_bytes(blocks@, len as nat));
    out
}

/// Computes the first `len` bytes of the keystream of a frame: the blocks
/// `A_1`, `A_2`, ... are encrypted, as many as the length calls for, and put
/// one after another.
pub fn keystream(key: &[u8; 16], direction: Direction, dev_addr: DevAddr, fcnt: u32, len: usize)
    -> (out: Vec<u8>)
    requires
        len <= MAX_CRYPT_LEN,
    ensures
        out@ == spec_keystream(key@, direction, dev_addr.addr, fcnt, len as nat),
{
    let count: usize = (len + 15) / 16;
    let mut blocks: Vec<[u8; 16]> = Vec::new();
    let mut i: u8 = 0;
    while (i as usize) < count
        invariant
            i <= count <= 255,
            blocks@.len() == i,
            forall|n: int|
                0 <= n < i ==> (#[trigger] blocks@[n])@ == aes128_encrypt(
                    key@,
                    spec_keystream_block(direction, dev_addr.addr, fcnt, (n + 1) as u8),
                ),
        decreases count - i,
    {
        let a: [u8; 16] = keystream_block(direction, dev_addr, fcnt, i + 1);
        let s: [u8; 16] = aes128_encrypt_block(key, &a);
        blocks.push(s);
        i += 1;
    }
    let out: Vec<u8> = blocks_bytes(blocks.as_slice(), len);
    assert(out@ =~= spec_keystream(key@, direction, dev_addr.addr, fcnt, len as nat)) by {
        assert forall|j: int| 0 <= j < len implies out@[j] == spec_keystream_byte(
            key@,
            direction,
            dev_addr.addr,
            fcnt,
            j,
        ) by {
            let n = j / 16;
            assert(0 <= n < count);
            assert(blocks@[n]@ == aes128_encrypt(
                key@,
                spec_keystream_block(direction, dev_addr.addr, fcnt, (n + 1) as u8),
            ));
        }
    }
    out
}

/// Xors `data` with as many bytes of `keystream`.
pub fn xor_bytes(data: &[u8], keystream: &[u8]) -> (out: Vec<u8>)
    requires
        data@.len() <= keystream@.len(),
    ensures
        out@ == spec_xor(data@, keystream@),
        out@.len() == data@.len(),
        forall|j: int| 0 <= j < data@.len() ==> out@[j] == data@[j] ^ keystream@[j],
{
    let mut out: Vec<u8> = Vec::new();
    let mut j: usize = 0;
    while j < data.len()
        invariant
            j <= data@.len(),
            data@.len() <= keystream@.len(),
            out@.len() == j,
            forall|k: int| 0 <= k < j ==> out@[k] == data@[k] ^ keystream@[k],
        decreases data@.len() - j,
    {
        out.push(data[j] ^ keystream[j]);
        j += 1;
    }
    assert(out@ =~= spec_xor(data@, keystream@));
    out
}

/// Encrypts or decrypts the payload of a data frame: the payload is xored
/// with the keystream `S_1 | S_2 | ...` of the frame, cut to its length.
///
/// `key` is the session key that [`frame_port_key`] names for the frame's
/// port. Applied twice, the function gives the payload back.
pub fn crypt(payload: &[u8], key: &[u8; 16], direction: Direction, dev_addr: DevAddr, fcnt: u32)
    -> (out: Vec<u8>)
    requires
        payload@.len() <= MAX_CRYPT_LEN,
    ensures
        out@ == spec_crypt(payload@, key@, direction, dev_addr.addr, fcnt),
        out@.len() == payload@.len(),
        spec_crypt(out@, key@, direction, dev_addr.addr, fcnt) == payload@,
{
    let stream: Vec<u8> = keystream(key, direction, dev_addr, fcnt, payload.len());
    proof {
        lemma_crypt_involution(payload@, key@, direction, dev_addr.addr, fcnt);
    }
    xor_bytes(payload, stream.as_slice())
}

/// The session keys of a device.
#[derive(Debug, Clone, Copy)]
pub struct SessionKeys {
    /// NwkSKey: authenticates data frames, and encrypts MAC commands that
    /// travel as a payload.
    pub nwk_s_key: [u8; 16],
    /// AppSKey: encrypts application data.
    pub app_s_key: [u8; 16],
}

impl SessionKeys {
    /// The key that [`frame_port_key`] names for a port.
    pub open spec fn spec_key_for_port(&self, frame_port: u8) -> Seq<u8> {
        if frame_port == 0 {
            self.nwk_s_key@
        } else {
            self.app_s_key@
        }
    }

    /// The key that encrypts the payload of a frame sent on `frame_port`.
    pub fn key_for_port(&self, frame_port: u8) -> (key: &[u8; 16])
        ensures
            key@ == self.spec_key_for_port(frame_port),
    {
        match frame_port_key(frame_port) {
            Key::NwkSKey => &self.nwk_s_key,
            Key::AppSKey => &self.app_s_key,
        }
    }

    /// Encrypts or decrypts the payload of a data frame that travels on
    /// `frame_port`, under the key of that port.
    pub fn crypt(
        &self,
        frame_port: u8,
        payload: &[u8],
        direction: Direction,
        dev_addr: DevAddr,
        fcnt: u32,
    ) -> (out: Vec<u8>)
        requires
            payload@.len() <= MAX_CRYPT_LEN,
        ensures
            out@ == spec_crypt(
                payload@,
                self.spec_key_for_port(frame_port),
                direction,
                dev_addr.addr,
                fcnt,
            ),
    {
        crypt(payload, self.key_for_port(frame_port), direction, dev_addr, fcnt)
    }
}

/// `crypt` undoes itself: encrypting an encrypted payload with the same key,
/// direction, address and frame counter gives the payload back, whatever its
/// length.
pub proof fn lemma_crypt_involution(
    payload: Seq<u8>,
    key: Seq<u8>,
    direction: Direction,
    dev_addr: u32,
    fcnt: u32,
)
    ensures
        spec_crypt(payload, key, direction, dev_addr, fcnt).len() == payload.len(),
        spec_crypt(
            spec_crypt(payload, key, direction, dev_addr, fcnt),
            key,
            direction,
            dev_addr,
            fcnt,
        ) == payload,
{
    let once = spec_crypt(payload, key, direction, dev_addr, fcnt);
    let twice = spec_crypt(once, key, direction, dev_addr, fcnt);
    assert forall|j: int| 0 <= j < payload.len() implies twice[j] == payload[j] by {
        let p: u8 = payload[j];
        let k: u8 = spec_keystream_byte(key, direction, dev_addr, fcnt, j);
        assert((p ^ k) ^ k == p) by (bit_vector);
    }
    assert(twice =~= payload);
}

/// The block that a session key is derived from: a tag byte, then
/// `JoinNonce | NetID | DevNonce`, padded with zeros to 16 bytes.
pub open spec fn spec_session_key_block(
    tag: u8,
    join_nonce: Seq<u8>,
    net_id: Seq<u8>,
    dev_nonce: Seq<u8>,
) -> Seq<u8> {
    seq![tag] + join_nonce + net_id + dev_nonce + Seq::new(6, |i: int| 0u8)
}

fn session_key(app_key: &[u8; 16], tag: u8, join_nonce: [u8; 3], net_id: [u8; 3], dev_nonce: [
    u8; 3
]) -> (key: [u8; 16])
    ensures
        key@ == aes128_encrypt(
            app_key@,
            spec_session_key_block(tag, join_nonce@, net_id@, dev_nonce@),
        ),
{
    let block: [u8; 16] = [
        tag,
        join_nonce[0],
        join_nonce[1],
        join_nonce[2],
        net_id[0],
        net_id[1],
        net_id[2],
        dev_nonce[0],
        dev_nonce[1],
        dev_nonce[2],
        0,
        0,
        0,
        0,
        0,
        0,
    ];
    assert(block@ =~= spec_session_key_block(tag, join_nonce@, net_id@, dev_nonce@));
    aes128_encrypt_block(app_key, &block)
}

/// Calculate the NwkSKey on the end-device:
///
/// ```norust
/// NwkSKey = aes128_encrypt(AppKey, 0x01 | JoinNonce | NetID | DevNonce | pad_16)
/// ```
pub fn end_device_network_skey(
    app_key: &[u8; 16],
    join_nonce: [u8; 3],
    net_id: [u8; 3],
    dev_nonce: [u8; 3],
) -> (key: [u8; 16])
    ensures
        key@ == aes128_encrypt(
            app_key@,
            spec_session_key_block(0x01, join_nonce@, net_id@, dev_nonce@),
        ),
{
    session_key(app_key, 0x01, join_nonce, net_id, dev_nonce)
}

/// Calculate the AppSKey on the end-device:
///
/// ```norust
/// AppSKey = aes128_encrypt(AppKey, 0x02 | JoinNonce | NetID | DevNonce | pad_16)
/// ```
pub fn end_device_app_skey(
    app_key: &[u8; 16],
    join_nonce: [u8; 3],
    net_id: [u8; 3],
    dev_nonce: [u8; 3],
) -> (key: [u8; 16])
    ensures
        key@ == aes128_encrypt(
            app_key@,
            spec_session_key_block(0x02, join_nonce@, net_id@, dev_nonce@),
        ),
{
    session_key(app_key, 0x02, join_nonce, net_id, dev_nonce)
}

/// The message integrity code that a CMAC tag gives: its first four bytes.
pub open spec fn spec_mic_from_tag(tag: Seq<u8>) -> Seq<u8> {
    seq![tag[0], tag[1], tag[2], tag[3]]
}

/// The first four bytes of a CMAC tag, which are the message integrity code.
pub fn mic_from_tag(tag: &[u8; 16]) -> (mic: [u8; 4])
    ensures
        mic@ == spec_mic_from_tag(tag@),
{
    let mic: [u8; 4] = [tag[0], tag[1], tag[2], tag[3]];
    assert(mic@ =~= spec_mic_from_tag(tag@));
    mic
}

/// `data` with each whole 16-byte block replaced by its AES-128 encryption
/// under `key`; bytes after the last whole block stay as they are.
pub open spec fn spec_ecb_encrypt(key: Seq<u8>, data: Seq<u8>) -> Seq<u8> {
    Seq::new(
        data.len(),
        |j: int|
            if j < 16 * (data.len() / 16) {
                aes128_encrypt(key, data.subrange(16 * (j / 16), 16 * (j / 16) + 16))[j % 16]
            } else {
                data[j]
            },
    )
}

/// Block `n` of `data`: its bytes from `16 * n` on.
pub fn block_at(data: &[u8], n: usize) -> (block: [u8; 16])
    requires
        16 * n + 16 <= data@.len(),
    ensures
        block@ == data@.subrange(16 * n, 16 * n + 16),
{
    let len: usize = data.len();
    assert(16 * n + 16 <= len);
    let at: usize = 16 * n;
    let block: [u8; 16] = [
        data[at],
        data[at + 1],
        data[at + 2],
        data[at + 3],
        data[at + 4],
        data[at + 5],
        data[at + 6],
        data[at + 7],
        data[at + 8],
        data[at + 9],
        data[at + 10],
        data[at + 11],
        data[at + 12],
        data[at + 13],
        data[at + 14],
        data[at + 15],
    ];
    assert(block@ =~= data@.subrange(16 * n, 16 * n + 16));
    block
}

/// `data` with each of its whole 16-byte blocks replaced by the block of
/// `blocks` at its place; bytes after the last whole block stay as they are.
pub open spec fn spec_replace_blocks(blocks: Seq<[u8; 16]>, data: Seq<u8>) -> Seq<u8> {
    Seq::new(
        data.len(),
        |j: int|
            if j < 16 * (data.len() / 16) {
                blocks[j / 16]@[j % 16]
            } else {
                data[j]
            },
    )
}

/// Replaces the whole 16-byte blocks of `data` by `blocks`, one for one, and
/// keeps what follows the last whole block.
pub fn replace_blocks(blocks: &[[u8; 16]], data: &[u8]) -> (out: Vec<u8>)
    requires
        blocks@.len() == data@.len() / 16,
    ensures
        out@ == spec_replace_blocks(blocks@, data@),
        out@.len() == data@.len(),
{
    let whole: usize = 16 * (data.len() / 16);
    let mut out: Vec<u8> = blocks_bytes(blocks, whole);
    let mut j: usize = whole;
    while j < data.len()
        invariant
            whole == 16 * (data@.len() / 16),
            whole <= j <= data@.len(),
            out@.len() == j,
            forall|k: int| 0 <= k < whole ==> out@[k] == blocks@[k / 16]@[k % 16],
            forall|k: int| whole <= k < j ==> out@[k] == data@[k],
        decreases data@.len() - j,
    {
        out.push(data[j]);
        j += 1;
    }
    assert(out@ =~= spec_replace_blocks(blocks@, data@));
    out
}

/// Encrypts `data` block by block. A Join-Accept is sent through the AES
/// decryption, so this is what the end-device undoes it with.
pub fn ecb_encrypt(key: &[u8; 16], data: &[u8]) -> (out: Vec<u8>)
    ensures
        out@ == spec_ecb_encrypt(key@, data@),
        out@.len() == data@.len(),
{
    let whole: usize = data.len() / 16;
    let mut blocks: Vec<[u8; 16]> = Vec::new();
    let mut n: usize = 0;
    while n < whole
        invariant
            n <= whole,
            whole == data@.len() / 16,
            data@.len() <= usize::MAX,
            blocks@.len() == n,
            forall|m: int|
                0 <= m < n ==> (#[trigger] blocks@[m])@ == aes128_encrypt(
                    key@,
                    data@.subrange(16 * m, 16 * m + 16),
                ),
        decreases whole - n,
    {
        assert(16 * n + 16 <= data@.len());
        let block: [u8; 16] = block_at(data, n);
        let s: [u8; 16] = aes128_encrypt_block(key, &block);
        blocks.push(s);
        n += 1;
    }
    let out: Vec<u8> = replace_blocks(blocks.as_slice(), data);
    assert(out@ =~= spec_ecb_encrypt(key@, data@)) by {
        assert forall|j: int| 0 <= j < data@.len() implies out@[j] == spec_ecb_encrypt(
            key@,
            data@,
        )[j] by {
            if j < 16 * (data@.len() / 16) {
                let m = j / 16;
                assert(0 <= m < whole);
                assert(blocks@[m]@ == aes128_encrypt(
                    key@,
                    data@.subrange(16 * m, 16 * m + 16),
                ));
            }
        }
    }
    out
}

} // verus!
