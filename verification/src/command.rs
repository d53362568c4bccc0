//! Command-line entry points of the validator tooling: the argument
//! records, and the pure computations their flows rest on. Argument
//! parsing and the RPC round trips live outside the library; the decisions
//! and conversions are here, verified.

use vstd::prelude::*;
use crate::hexutil::{all_hex_digits, hex_decode_bytes, hex_decoded, HexDecodeError};
use crate::types::clone_bytes;

verus! {

/// Why a command failed.
#[derive(Debug)]
pub struct CommandError {
    pub message: String,
}

/// A command that can be executed once its arguments are parsed.
pub trait Executable {
    fn execute(self) -> Result<(), CommandError>;
}

/// The command-line surface: one subcommand per run.
#[derive(Debug)]
pub struct Command {
    pub command: SubCommands,
}

/// The validator lifecycle subcommands.
#[derive(Debug)]
pub enum SubCommands {
    Join(JoinCommand),
    Leave(LeaveCommand),
    List(ListCommand),
}

/// Arguments of the join flow: stake, identity and network endpoints of
/// the validator that asks to enter the set.
#[derive(Debug)]
pub struct JoinCommand {
    pub rpc_url: String,
    pub private_key: String,
    pub gas_limit: u64,
    pub gas_price: u128,
    pub stake_amount: String,
    pub moniker: String,
    pub stake_pool: Option<String>,
    pub consensus_public_key: String,
    pub consensus_pop: String,
    pub validator_network_address: String,
    pub fullnode_network_address: String,
    pub lockup_duration: u64,
}

/// Arguments of the leave flow.
#[derive(Debug)]
pub struct LeaveCommand {
    pub rpc_url: String,
    pub private_key: String,
    pub gas_limit: u64,
    pub gas_price: u128,
    pub stake_pool: String,
}

/// Arguments of the list flow.
#[derive(Debug)]
pub struct ListCommand {
    pub rpc_url: String,
}

/// A private-key argument with its optional `0x` prefix removed.
pub open spec fn strip_hex_prefix(s: Seq<u8>) -> Seq<u8> {
    if s.len() >= 2 && s[0] == 48 && s[1] == 120 {
        s.skip(2)
    } else {
        s
    }
}

/// Why a private-key argument was rejected.
#[derive(Clone, Copy, Debug, PartialEq, Eq)]
pub enum KeyParseError {
    /// Not a hex string after the optional `0x` prefix.
    InvalidHex,
    /// Valid hex, but not the scheme's 32-byte key length.
    WrongLength,
}

/// Parses a private-key argument: strips an optional `0x` prefix, decodes
/// the hex digits, and accepts exactly a 32-byte key.
pub fn parse_private_key(key: &Vec<u8>) -> (r: Result<Vec<u8>, KeyParseError>)
    ensures
        r is Ok <==> strip_hex_prefix(key@).len() == 64 && all_hex_digits(strip_hex_prefix(key@)),
        (r matches Ok(v) ==> v@ == hex_decoded(strip_hex_prefix(key@)) && v@.len() == 32),
        (r == Err::<Vec<u8>, KeyParseError>(KeyParseError::InvalidHex) <==> !(strip_hex_prefix(
            key@,
        ).len() % 2 == 0 && all_hex_digits(strip_hex_prefix(key@)))),
        (r == Err::<Vec<u8>, KeyParseError>(KeyParseError::WrongLength) <==> strip_hex_prefix(
            key@,
        ).len() % 2 == 0 && all_hex_digits(strip_hex_prefix(key@)) && strip_hex_prefix(
            key@,
        ).len() != 64),
    {
    let stripped: Vec<u8> = if key.len() >= 2 && key[0] == 48 && key[1] == 120 {
        let mut t: Vec<u8> = Vec::new();
        for i in 2..key.len()
            invariant
                key@.len() >= 2,
                t@ =~= key@.subrange(2, i as int),
        {
            t.push(key[i]);
        }
        proof {
            assert(t@ =~= key@.skip(2));
        }
        t
    } else {
        clone_bytes(key)
    };
    proof {
        assert(stripped@ == strip_hex_prefix(key@));
    }
    match hex_decode_bytes(&stripped) {
        Err(_) => Err(KeyParseError::InvalidHex),
        Ok(v) => {
            if v.len() == 32 {
                Ok(v)
            } else {
                Err(KeyParseError::WrongLength)
            }
        }
    }
}

/// The stake lockup expiry in microseconds: the current chain timestamp
/// plus the lockup duration, both in seconds, scaled to microseconds. The
/// caller keeps the product within the 64-bit range.
pub fn compute_locked_until(current_timestamp: u64, lockup_duration: u64) -> (r: u64)
    requires
        (current_timestamp + lockup_duration) * 1000000 <= u64::MAX,
    ensures
        r == (current_timestamp + lockup_duration) * 1000000,
{
    proof {
        assert(current_timestamp + lockup_duration <= u64::MAX) by (nonlinear_arith)
            requires
                (current_timestamp + lockup_duration) * 1000000 <= u64::MAX as int,
                0 <= current_timestamp + lockup_duration,
        ;
    }
    (current_timestamp + lockup_duration) * 1000000
}

} // verus!
