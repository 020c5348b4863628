//! "Default Settings" which are recommended values for all regions.
//!
//! Defined in RP002-1.0.3, 2.3. Delays and timeouts are in seconds.
use vstd::prelude::*;

verus! {

pub const RECEIVE_DELAY1: u64 = 1;

pub const JOIN_ACCEPT_DELAY1: u64 = 5;

pub const JOIN_ACCEPT_DELAY2: u64 = 6;

pub const MAX_FCNT_GAP: u16 = 16384;

pub const ADR_ACK_LIMIT: u8 = 64;

pub const ADR_ACK_DELAY: u8 = 32;

pub const RETRANSMIT_TIMEOUT_FIXED: u64 = 1;

pub const RETRANSMIT_TIMEOUT_RANDOM: u64 = 2;

pub const PING_SLOT_PERIODICITY: u8 = 7;

pub const CLASS_B_RESP_TIMEOUT: u64 = 8;

pub const CLASS_C_RESP_TIMEOUT: u64 = 8;

} // verus!
