use bsvrpc::dispatch::{dispatch, Command, RpcRequest};
use bsvrpc::errors::InputError;

#[test]
fn plain_commands_map_one_to_one() {
    assert!(matches!(
        dispatch(Command::GetBlockchainInfo),
        Ok(RpcRequest::BlockchainInfo)
    ));
    assert!(matches!(
        dispatch(Command::GetBestBlockHash),
        Ok(RpcRequest::BestBlockHash)
    ));
    assert!(matches!(
        dispatch(Command::GetBlockCount),
        Ok(RpcRequest::BlockCount)
    ));
    assert!(matches!(
        dispatch(Command::GetDifficulty),
        Ok(RpcRequest::Difficulty)
    ));
    assert!(matches!(
        dispatch(Command::GetNetworkInfo),
        Ok(RpcRequest::NetworkInfo)
    ));
    assert!(matches!(
        dispatch(Command::GetPeerInfo),
        Ok(RpcRequest::PeerInfo)
    ));
    assert!(matches!(
        dispatch(Command::GetMiningInfo),
        Ok(RpcRequest::MiningInfo)
    ));
    assert!(matches!(
        dispatch(Command::GetMempoolInfo),
        Ok(RpcRequest::MempoolInfo)
    ));
    assert!(matches!(
        dispatch(Command::GetConnectionCount),
        Ok(RpcRequest::ConnectionCount)
    ));
}

#[test]
fn block_hash_carries_the_height() {
    match dispatch(Command::GetBlockHash { height: 820000 }) {
        Ok(RpcRequest::BlockHash { height }) => assert_eq!(height, 820000),
        other => panic!("unexpected request: {:?}", other),
    }
}

#[test]
fn get_block_verbosity_zero_requests_raw_hex() {
    let cmd = Command::GetBlock {
        hash: "00ff".as_bytes().to_vec(),
        verbosity: 0,
    };
    match dispatch(cmd) {
        Ok(RpcRequest::BlockHex { hash }) => assert_eq!(hash, vec![0x00u8, 0xffu8]),
        other => panic!("unexpected request: {:?}", other),
    }
}

#[test]
fn full_length_block_hash_decodes_to_thirty_two_bytes() {
    let genesis = "000000000019d6689c085ae165831e934ff763ae46a2a6c172b3f1b60a8ce26f";
    let cmd = Command::GetBlock {
        hash: genesis.as_bytes().to_vec(),
        verbosity: 1,
    };
    match dispatch(cmd) {
        Ok(RpcRequest::BlockInfo { hash }) => {
            assert_eq!(hash.len(), 32);
            assert_eq!(hash, hex::decode(genesis).unwrap());
        }
        other => panic!("unexpected request: {:?}", other),
    }
}

#[test]
fn get_block_verbosity_one_requests_decoded_form() {
    let cmd = Command::GetBlock {
        hash: "00ff".as_bytes().to_vec(),
        verbosity: 1,
    };
    assert!(matches!(dispatch(cmd), Ok(RpcRequest::BlockInfo { .. })));
}

#[test]
fn get_block_verbosity_two_degrades_to_decoded_form() {
    let cmd = Command::GetBlock {
        hash: "00ff".as_bytes().to_vec(),
        verbosity: 2,
    };
    assert!(matches!(dispatch(cmd), Ok(RpcRequest::BlockInfo { .. })));
}

#[test]
fn get_block_rejects_non_hex_before_any_call() {
    let cmd = Command::GetBlock {
        hash: "not-hex!".as_bytes().to_vec(),
        verbosity: 1,
    };
    assert!(matches!(dispatch(cmd), Err(InputError::InvalidHex)));
}

#[test]
fn raw_transaction_verbose_flag_selects_the_form() {
    let plain = Command::GetRawTransaction {
        txid: "ab".as_bytes().to_vec(),
        verbose: false,
    };
    assert!(matches!(
        dispatch(plain),
        Ok(RpcRequest::RawTransactionHex { .. })
    ));
    let verbose = Command::GetRawTransaction {
        txid: "ab".as_bytes().to_vec(),
        verbose: true,
    };
    match dispatch(verbose) {
        Ok(RpcRequest::RawTransactionInfo { txid }) => assert_eq!(txid, vec![0xabu8]),
        other => panic!("unexpected request: {:?}", other),
    }
}

#[test]
fn raw_transaction_rejects_non_hex() {
    let cmd = Command::GetRawTransaction {
        txid: "xyz1".as_bytes().to_vec(),
        verbose: false,
    };
    assert!(matches!(dispatch(cmd), Err(InputError::InvalidHex)));
}

#[test]
fn tx_out_carries_all_fields() {
    let cmd = Command::GetTxOut {
        txid: "0badc0de".as_bytes().to_vec(),
        vout: 3,
        include_mempool: true,
    };
    match dispatch(cmd) {
        Ok(RpcRequest::TxOut {
            txid,
            vout,
            include_mempool,
        }) => {
            assert_eq!(txid, vec![0x0bu8, 0xadu8, 0xc0u8, 0xdeu8]);
            assert_eq!(vout, 3);
            assert!(include_mempool);
        }
        other => panic!("unexpected request: {:?}", other),
    }
}

#[test]
fn tx_out_rejects_non_hex() {
    let cmd = Command::GetTxOut {
        txid: "q".as_bytes().to_vec(),
        vout: 0,
        include_mempool: false,
    };
    assert!(matches!(dispatch(cmd), Err(InputError::InvalidHex)));
}

#[test]
fn raw_without_params_sends_empty_sequence() {
    let cmd = Command::Raw {
        method: "getinfo".to_owned(),
        params: None,
    };
    match dispatch(cmd) {
        Ok(RpcRequest::RawCall { method, params }) => {
            assert_eq!(method, "getinfo".to_owned());
            assert!(params.is_empty());
        }
        other => panic!("unexpected request: {:?}", other),
    }
}

#[test]
fn raw_with_array_literal_sends_its_elements_in_order() {
    let cmd = Command::Raw {
        method: "getblockhash".to_owned(),
        params: Some("[1,\"x\"]".as_bytes().to_vec()),
    };
    match dispatch(cmd) {
        Ok(RpcRequest::RawCall { method, params }) => {
            assert_eq!(method, "getblockhash".to_owned());
            assert_eq!(params.len(), 2);
            assert_eq!(
                params[0],
                serde_json::Value::Number(serde_json::Number::from(1))
            );
            assert_eq!(params[1], serde_json::Value::String("x".to_owned()));
        }
        other => panic!("unexpected request: {:?}", other),
    }
}

#[test]
fn raw_with_bad_literal_is_rejected_without_a_call() {
    let cmd = Command::Raw {
        method: "getinfo".to_owned(),
        params: Some("not-json".as_bytes().to_vec()),
    };
    assert!(matches!(dispatch(cmd), Err(InputError::InvalidParamsJson)));
}

#[test]
fn raw_with_non_array_json_is_rejected() {
    let cmd = Command::Raw {
        method: "getinfo".to_owned(),
        params: Some("{\"a\":1}".as_bytes().to_vec()),
    };
    assert!(matches!(dispatch(cmd), Err(InputError::InvalidParamsJson)));
}
