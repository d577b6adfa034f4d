use novax_executor::dummy::{DummyExecutor, ScCallStep, ScDeployStep};
use novax_executor::error::{ExecutorError, NormalizationError, TransactionError};
use novax_executor::network::{decode_return_data, find_smart_contract_result, BaseTransactionNetworkExecutor};
use novax_executor::normalization::{join_hex_fields, trim_leading_zeros, u64_be_bytes, NormalizationInOut};
use novax_executor::text::split_text;
use novax_executor::types::{Address, SmartContractResult, TokenTransfer, TransactionOnNetwork, Wallet};

fn scr(nonce: u64, data: &str) -> SmartContractResult {
    SmartContractResult {
        nonce,
        data: data.to_string(),
        sender: String::new(),
        receiver: String::new(),
    }
}

fn addr(b: u8) -> Address {
    Address::from_bytes(vec![b; 32])
}

fn wallet() -> Wallet {
    Wallet { address: addr(1), private_key: vec![9; 32] }
}

#[test]
fn selects_first_nonzero_nonce_result() {
    let results = Some(vec![scr(0, "@6f6b"), scr(7, "@6f6b@2a")]);
    assert_eq!(find_smart_contract_result(&results), Ok(vec![vec![0x2a]]));
}

#[test]
fn skips_results_without_leading_at() {
    let results = Some(vec![scr(3, "6f6b@01"), scr(4, "@6f6b@0102@"), scr(5, "@6f6b@03")]);
    assert_eq!(find_smart_contract_result(&results), Ok(vec![vec![1, 2], vec![]]));
}

#[test]
fn non_ok_status_is_reported() {
    let results = Some(vec![scr(0, "@6f6b@01"), scr(2, "@756e6b6e6f776e@2a")]);
    assert_eq!(find_smart_contract_result(&results), Err(TransactionError::ResultCodeNotOk));
    let response = TransactionOnNetwork { hash: "h".to_string(), smart_contract_results: results };
    assert_eq!(
        BaseTransactionNetworkExecutor::<()>::call_return_values(&response),
        Err(ExecutorError::Transaction(TransactionError::ResultCodeNotOk))
    );
}

#[test]
fn missing_results_are_reported() {
    assert_eq!(find_smart_contract_result(&None), Err(TransactionError::NoSmartContractResult));
    assert_eq!(find_smart_contract_result(&Some(vec![])), Err(TransactionError::NoSmartContractResult));
    let only_transfers = Some(vec![scr(0, "@6f6b"), scr(0, "@6f6b@2a")]);
    assert_eq!(find_smart_contract_result(&only_transfers), Err(TransactionError::NoSmartContractResult));
    let response = TransactionOnNetwork::empty();
    assert_eq!(
        BaseTransactionNetworkExecutor::<()>::call_return_values(&response),
        Err(ExecutorError::Transaction(TransactionError::NoSmartContractResult))
    );
}

#[test]
fn bad_hex_is_a_decode_error() {
    assert_eq!(decode_return_data("@6f6b@zz"), Err(TransactionError::CannotDecodeHex));
    assert_eq!(decode_return_data("@6f6b@abc"), Err(TransactionError::CannotDecodeHex));
    assert_eq!(decode_return_data("@"), Err(TransactionError::ResultCodeNotOk));
    assert_eq!(decode_return_data("@6F6B@01"), Err(TransactionError::ResultCodeNotOk));
    assert_eq!(decode_return_data("@6f6b@0A0b"), Ok(vec![vec![0x0a, 0x0b]]));
}

#[test]
fn encoded_return_data_decodes_back() {
    let values = vec![b"ok".to_vec(), vec![1, 2, 255], vec![], vec![0]];
    let data = join_hex_fields("", &values);
    assert_eq!(data, "@6f6b@0102ff@@00");
    assert_eq!(decode_return_data(&data), Ok(vec![vec![1, 2, 255], vec![], vec![0]]));
}

#[test]
fn splits_on_every_separator() {
    assert_eq!(split_text("@a@@bc", '@'), vec!["", "a", "", "bc"]);
    assert_eq!(split_text("", '@'), vec![""]);
}

#[test]
fn numbers_use_shortest_big_endian_bytes() {
    assert_eq!(u64_be_bytes(0), Vec::<u8>::new());
    assert_eq!(u64_be_bytes(1), vec![1]);
    assert_eq!(u64_be_bytes(256), vec![1, 0]);
    assert_eq!(u64_be_bytes(u64::MAX), vec![255; 8]);
    assert_eq!(trim_leading_zeros(&[0, 0, 3, 0]), vec![3, 0]);
    assert_eq!(trim_leading_zeros(&[0, 0]), Vec::<u8>::new());
}

fn request(transfers: Vec<TokenTransfer>) -> NormalizationInOut {
    NormalizationInOut {
        sender: addr(1),
        receiver: addr(2),
        function_name: "add".to_string(),
        arguments: vec![vec![1], vec![0x0a, 0xff]],
        egld_value: vec![5],
        esdt_transfers: transfers,
    }
}

#[test]
fn normalizes_plain_call() {
    let n = request(vec![]).normalize().unwrap();
    assert_eq!(n.transaction_data, "add@01@0aff");
    assert_eq!(n.sender, addr(1));
    assert_eq!(n.receiver, addr(2));
    assert_eq!(n.egld_value, vec![5]);
}

#[test]
fn normalizes_call_with_transfers() {
    let transfers = vec![
        TokenTransfer { identifier: "WEGLD-abcdef".to_string(), nonce: 0, amount: vec![0, 3, 0xe8] },
        TokenTransfer { identifier: "SFT-123456".to_string(), nonce: 300, amount: vec![1] },
    ];
    let n = request(transfers).normalize().unwrap();
    let expected = format!(
        "MultiESDTNFTTransfer@{}@02@5745474c442d616263646566@@03e8@5346542d313233343536@012c@01@616464@01@0aff",
        "02".repeat(32)
    );
    assert_eq!(n.transaction_data, expected);
    assert!(n.transaction_data.starts_with("MultiESDTNFTTransfer@"));
    assert_eq!(n.receiver, addr(1));
    assert_eq!(n.egld_value, vec![5]);
}

#[test]
fn normalization_is_repeatable() {
    let a = request(vec![TokenTransfer { identifier: "T-1".to_string(), nonce: 1, amount: vec![7] }]);
    let first = a.normalize().unwrap();
    let second = a.normalize().unwrap();
    assert_eq!(first.transaction_data, second.transaction_data);
    assert_eq!(first.receiver, second.receiver);
}

#[test]
fn malformed_address_is_rejected() {
    let mut r = request(vec![]);
    r.receiver = Address::from_bytes(vec![1, 2, 3]);
    assert_eq!(r.normalize().err(), Some(NormalizationError::InvalidAddress));
    let executor = BaseTransactionNetworkExecutor::<()>::new("https://gateway", &wallet());
    let res = executor.prepare_call(&Address::from_bytes(vec![]), "f".to_string(), vec![], vec![], vec![]);
    assert_eq!(res.err(), Some(ExecutorError::Normalization(NormalizationError::InvalidAddress)));
}

#[test]
fn network_executor_prepares_calls() {
    let executor = BaseTransactionNetworkExecutor::<()>::new("https://gateway", &wallet());
    assert_eq!(executor.gateway_url, "https://gateway");
    assert_eq!(executor.wallet.address, addr(1));
    assert!(!executor.should_skip_deserialization());
    let copy = executor.clone();
    assert_eq!(copy.gateway_url, "https://gateway");
    let n = executor.prepare_call(&addr(3), "get".to_string(), vec![vec![0]], vec![], vec![]).unwrap();
    assert_eq!(n.transaction_data, "get@00");
    assert_eq!(n.sender, addr(1));
    assert_eq!(n.receiver, addr(3));
}

#[test]
fn network_deploy_is_not_available() {
    let mut executor = BaseTransactionNetworkExecutor::<()>::new("https://gateway", &wallet());
    let mut step = ScDeployStep::new();
    step.code = vec![1, 2];
    assert_eq!(executor.sc_deploy(&mut step), Err(ExecutorError::DeployNotImplemented));
    assert_eq!(step.code, vec![1, 2]);
}

#[test]
fn dummy_call_captures_step() {
    let mut executor = DummyExecutor::<ScCallStep>::new(&Some(addr(7)));
    assert!(executor.should_skip_deserialization());
    let r = executor
        .sc_call::<u64>(&addr(2), "first".to_string(), vec![], 10, vec![], vec![])
        .unwrap();
    assert_eq!(r.result, None);
    let r = executor
        .sc_call::<u64>(&addr(3), "second".to_string(), vec![vec![4]], 20, vec![1], vec![])
        .unwrap();
    assert_eq!(r.result, None);
    let details = executor.get_transaction_details();
    assert_eq!(details.sender, Some(addr(7)));
    assert_eq!(details.receiver, Some(addr(3)));
    assert_eq!(details.function, "second");
    assert_eq!(details.arguments, vec![vec![4]]);
    assert_eq!(details.gas_limit, 20);
    assert_eq!(details.egld_value, vec![1]);
}

#[test]
fn dummy_call_without_caller_has_no_sender() {
    let mut executor = DummyExecutor::<ScCallStep>::new(&None);
    executor.sc_call::<u64>(&addr(2), "f".to_string(), vec![], 1, vec![], vec![]).unwrap();
    assert_eq!(executor.get_transaction_details().sender, None);
}

#[test]
fn dummy_deploy_stamps_caller() {
    let mut executor = DummyExecutor::<ScDeployStep>::new(&Some(addr(8)));
    assert!(executor.should_skip_deserialization());
    let mut first = ScDeployStep::new();
    first.code = vec![1];
    executor.sc_deploy(&mut first).unwrap();
    let mut second = ScDeployStep::new();
    second.code = vec![2, 3];
    second.gas_limit = 50;
    executor.sc_deploy(&mut second).unwrap();
    assert_eq!(second.from, Some(addr(8)));
    let details = executor.get_transaction_details();
    assert_eq!(details.sender, Some(addr(8)));
    assert_eq!(details.code, vec![2, 3]);
    assert_eq!(details.gas_limit, 50);
    assert_eq!(details.receiver, None);
}

#[test]
fn dummy_deploy_without_caller_keeps_sender() {
    let mut executor = DummyExecutor::<ScDeployStep>::new(&None);
    let mut step = ScDeployStep::new();
    executor.sc_deploy(&mut step).unwrap();
    assert_eq!(executor.get_transaction_details().sender, None);
    step.from = Some(addr(4));
    executor.sc_deploy(&mut step).unwrap();
    assert_eq!(executor.get_transaction_details().sender, Some(addr(4)));
}
