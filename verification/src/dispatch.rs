use vstd::prelude::*;

use crate::errors::InputError;
use crate::hex_codec::{decode_hex, decode_hex_spec, valid_hex};
use crate::json_params::{json_array_len, json_array_wf, parse_json_array};

verus! {

/// What the user asked for: one tag per supported remote operation, with
/// its typed parameters. Hash identifiers and the raw-call parameter
/// literal are carried as the bytes of the text the user supplied.
#[derive(Debug)]
pub enum Command {
    GetBlockchainInfo,
    GetBestBlockHash,
    GetBlockCount,
    GetDifficulty,
    GetNetworkInfo,
    GetPeerInfo,
    GetMiningInfo,
    GetBlockHash { height: u64 },
    GetBlock { hash: Vec<u8>, verbosity: u8 },
    GetRawTransaction { txid: Vec<u8>, verbose: bool },
    GetTxOut { txid: Vec<u8>, vout: u32, include_mempool: bool },
    GetMempoolInfo,
    GetConnectionCount,
    Raw { method: String, params: Option<Vec<u8>> },
}

/// The one remote request an invocation performs: which client method to
/// call, with hash identifiers already decoded to their byte form and
/// raw-call parameters already parsed. Whoever executes it performs
/// exactly one remote operation.
#[derive(Debug)]
pub enum RpcRequest {
    BlockchainInfo,
    BestBlockHash,
    BlockCount,
    Difficulty,
    NetworkInfo,
    PeerInfo,
    MiningInfo,
    BlockHash { height: u64 },
    /// The raw serialized-hex form of a block.
    BlockHex { hash: Vec<u8> },
    /// The decoded informational form of a block.
    BlockInfo { hash: Vec<u8> },
    RawTransactionHex { txid: Vec<u8> },
    RawTransactionInfo { txid: Vec<u8> },
    TxOut { txid: Vec<u8>, vout: u32, include_mempool: bool },
    MempoolInfo,
    ConnectionCount,
    RawCall { method: String, params: Vec<serde_json::Value> },
}

/// Map a command to the single remote request to perform.
///
/// Hash identifiers are hex-decoded first; text that is not valid
/// hexadecimal is rejected with an input error, before any remote call
/// would be attempted (this function performs none). For block
/// retrieval, verbosity 0 requests the raw-hex form and every verbosity
/// of 1 or above requests the decoded informational form. For a raw
/// call, an absent parameter literal means an empty parameter sequence,
/// and a literal that does not parse as a JSON array is rejected with an
/// input error.
pub fn dispatch(cmd: Command) -> (r: Result<RpcRequest, InputError>)
    ensures
        cmd is GetBlockchainInfo ==> (r matches Ok(q) && q is BlockchainInfo),
        cmd is GetBestBlockHash ==> (r matches Ok(q) && q is BestBlockHash),
        cmd is GetBlockCount ==> (r matches Ok(q) && q is BlockCount),
        cmd is GetDifficulty ==> (r matches Ok(q) && q is Difficulty),
        cmd is GetNetworkInfo ==> (r matches Ok(q) && q is NetworkInfo),
        cmd is GetPeerInfo ==> (r matches Ok(q) && q is PeerInfo),
        cmd is GetMiningInfo ==> (r matches Ok(q) && q is MiningInfo),
        cmd is GetMempoolInfo ==> (r matches Ok(q) && q is MempoolInfo),
        cmd is GetConnectionCount ==> (r matches Ok(q) && q is ConnectionCount),
        cmd matches Command::GetBlockHash { height } ==> (r matches Ok(q) && q
            == (RpcRequest::BlockHash { height })),
        cmd matches Command::GetBlock { hash, verbosity } ==> {
            &&& !valid_hex(hash@) ==> r == Err::<RpcRequest, InputError>(InputError::InvalidHex)
            &&& valid_hex(hash@) && verbosity == 0 ==> (r matches Ok(
                RpcRequest::BlockHex { hash: h },
            ) && h@ == decode_hex_spec(hash@))
            &&& valid_hex(hash@) && verbosity >= 1 ==> (r matches Ok(
                RpcRequest::BlockInfo { hash: h },
            ) && h@ == decode_hex_spec(hash@))
        },
        cmd matches Command::GetRawTransaction { txid, verbose } ==> {
            &&& !valid_hex(txid@) ==> r == Err::<RpcRequest, InputError>(InputError::InvalidHex)
            &&& valid_hex(txid@) && verbose ==> (r matches Ok(
                RpcRequest::RawTransactionInfo { txid: t },
            ) && t@ == decode_hex_spec(txid@))
            &&& valid_hex(txid@) && !verbose ==> (r matches Ok(
                RpcRequest::RawTransactionHex { txid: t },
            ) && t@ == decode_hex_spec(txid@))
        },
        cmd matches Command::GetTxOut { txid, vout, include_mempool } ==> {
            &&& !valid_hex(txid@) ==> r == Err::<RpcRequest, InputError>(InputError::InvalidHex)
            &&& valid_hex(txid@) ==> (r matches Ok(
                RpcRequest::TxOut { txid: t, vout: v, include_mempool: m },
            ) && t@ == decode_hex_spec(txid@) && v == vout && m == include_mempool)
        },
        cmd matches Command::Raw { method, params } ==> {
            &&& params is None ==> (r matches Ok(RpcRequest::RawCall { method: m, params: p })
                && m == method && p@.len() == 0)
            &&& params matches Some(literal) ==> {
                &&& r is Ok <==> json_array_wf(literal@)
                &&& !json_array_wf(literal@) ==> r == Err::<RpcRequest, InputError>(
                    InputError::InvalidParamsJson,
                )
                &&& r matches Ok(RpcRequest::RawCall { method: m, params: p }) ==> m == method
                    && p@.len() == json_array_len(literal@)
                &&& r matches Ok(q) ==> q is RawCall
            }
        },
{
    match cmd {
        Command::GetBlockchainInfo => Ok(RpcRequest::BlockchainInfo),
        Command::GetBestBlockHash => Ok(RpcRequest::BestBlockHash),
        Command::GetBlockCount => Ok(RpcRequest::BlockCount),
        Command::GetDifficulty => Ok(RpcRequest::Difficulty),
        Command::GetNetworkInfo => Ok(RpcRequest::NetworkInfo),
        Command::GetPeerInfo => Ok(RpcRequest::PeerInfo),
        Command::GetMiningInfo => Ok(RpcRequest::MiningInfo),
        Command::GetMempoolInfo => Ok(RpcRequest::MempoolInfo),
        Command::GetConnectionCount => Ok(RpcRequest::ConnectionCount),
        Command::GetBlockHash { height } => Ok(RpcRequest::BlockHash { height }),
        Command::GetBlock { hash, verbosity } => {
            match decode_hex(hash.as_slice()) {
                Ok(bytes) => {
                    if verbosity == 0 {
                        Ok(RpcRequest::BlockHex { hash: bytes })
                    } else {
                        Ok(RpcRequest::BlockInfo { hash: bytes })
                    }
                },
                Err(e) => Err(e),
            }
        },
        Command::GetRawTransaction { txid, verbose } => {
            match decode_hex(txid.as_slice()) {
                Ok(bytes) => {
                    if verbose {
                        Ok(RpcRequest::RawTransactionInfo { txid: bytes })
                    } else {
                        Ok(RpcRequest::RawTransactionHex { txid: bytes })
                    }
                },
                Err(e) => Err(e),
            }
        },
        Command::GetTxOut { txid, vout, include_mempool } => {
            match decode_hex(txid.as_slice()) {
                Ok(bytes) => Ok(RpcRequest::TxOut { txid: bytes, vout, include_mempool }),
                Err(e) => Err(e),
            }
        },
        Command::Raw { method, params } => {
            match params {
                None => Ok(RpcRequest::RawCall { method, params: Vec::new() }),
                Some(literal) => {
                    match parse_json_array(literal.as_slice()) {
                        Ok(values) => Ok(RpcRequest::RawCall { method, params: values }),
                        Err(_) => Err(InputError::InvalidParamsJson),
                    }
                },
            }
        },
    }
}

} // verus!
