use axe::express::{
    originate_express_transfer, originate_parsed, required_inputs, show_hash, strip_prefixes,
    NetworkDefaults, OriginateError, OriginateInputs, ParsedInputs, RequiredInputs, SourceChain,
};

/// The private key one, and the address that it signs for.
const KEY: &str = "0x0000000000000000000000000000000000000000000000000000000000000001";
const KEY_ADDRESS: &str = "7e5f4552091a69125d5dfcb7b8c2659029395bdf";

fn inputs() -> OriginateInputs {
    OriginateInputs {
        source_chain: Some("flow".into()),
        destination_chain: Some("solana".into()),
        amount: "1000000".into(),
        gas_value: "0x10".into(),
        app_address: None,
        symbol: None,
        private_key: Some(KEY.into()),
        source_rpc: None,
    }
}

fn given() -> RequiredInputs {
    required_inputs(inputs()).unwrap()
}

fn chain() -> SourceChain {
    SourceChain {
        gateway: "0xe432150cce91c13a887f7D836923d5597adD8E31".into(),
        rpc: Some("https://flow.test".into()),
    }
}

fn defaults() -> NetworkDefaults {
    NetworkDefaults {
        app_proxy: "00000000000000000000000000000000000000Ff".into(),
        symbols: vec!["aUSDC".into(), "axlUSDC".into()],
    }
}

fn hex(bytes: &[u8]) -> String {
    bytes.iter().map(|b| format!("{b:02x}")).collect()
}

#[test]
fn missing_inputs_are_reported_in_order() {
    let mut none = inputs();
    none.source_chain = None;
    none.destination_chain = None;
    none.private_key = None;
    assert_eq!(
        required_inputs(none).unwrap_err().message(),
        "--originate requires --source-chain"
    );
    let mut no_destination = inputs();
    no_destination.destination_chain = None;
    no_destination.private_key = None;
    assert_eq!(
        required_inputs(no_destination).unwrap_err().message(),
        "--originate requires --destination-chain"
    );
    let mut no_key = inputs();
    no_key.private_key = None;
    assert_eq!(
        required_inputs(no_key).unwrap_err().message(),
        "--originate requires EVM_PRIVATE_KEY or --private-key"
    );
}

#[test]
fn a_transfer_goes_back_to_the_account_that_signs_it() {
    let args = originate_express_transfer(given(), chain(), defaults()).unwrap();
    assert_eq!(args.source_rpc_urls, ["https://flow.test"]);
    assert_eq!(
        hex(&args.source_gateway),
        "e432150cce91c13a887f7d836923d5597add8e31"
    );
    assert_eq!(
        hex(&args.app_address),
        "00000000000000000000000000000000000000ff"
    );
    assert_eq!(args.destination_chain, "solana");
    assert_eq!(args.symbols, ["aUSDC", "axlUSDC"]);
    assert_eq!(args.amount, alloy::primitives::U256::from(1_000_000u64));
    assert_eq!(args.gas_value_wei, alloy::primitives::U256::from(16u64));
    assert_eq!(args.signing_key, &KEY[2..]);
    assert_eq!(hex(&args.recipient), KEY_ADDRESS);
}

#[test]
fn given_inputs_take_the_place_of_defaults() {
    let mut wanted = inputs();
    wanted.source_rpc = Some("https://mine.test".into());
    wanted.symbol = Some("wETH".into());
    wanted.app_address = Some("0x1111111111111111111111111111111111111111".into());
    let mut without_rpc = chain();
    without_rpc.rpc = None;
    let args =
        originate_express_transfer(required_inputs(wanted).unwrap(), without_rpc, defaults())
            .unwrap();
    assert_eq!(args.source_rpc_urls, ["https://mine.test"]);
    assert_eq!(args.symbols, ["wETH"]);
    assert_eq!(args.app_address, [0x11; 20]);
}

#[test]
fn the_first_fault_is_reported() {
    let mut bad_gateway = chain();
    bad_gateway.gateway = "not an address".into();
    bad_gateway.rpc = None;
    assert_eq!(
        originate_express_transfer(given(), bad_gateway, defaults())
            .unwrap_err()
            .message(),
        "not an address".parse::<alloy::primitives::Address>().unwrap_err().to_string()
    );

    let mut no_rpc = chain();
    no_rpc.rpc = None;
    let error = originate_express_transfer(given(), no_rpc, defaults()).unwrap_err();
    assert!(matches!(
        &error,
        OriginateError::RpcMissing { source_chain } if source_chain == "flow"
    ));
    assert_eq!(error.message(), "no RPC for source chain 'flow'");

    let mut bad_key = given();
    bad_key.private_key = "0x00".into();
    assert_eq!(
        originate_express_transfer(bad_key, chain(), defaults())
            .unwrap_err()
            .message(),
        "00".parse::<alloy::signers::local::PrivateKeySigner>().unwrap_err().to_string()
    );

    let mut bad_app = given();
    bad_app.app_address = Some("0x123".into());
    assert_eq!(
        originate_express_transfer(bad_app, chain(), defaults())
            .unwrap_err()
            .message(),
        "0x123".parse::<alloy::primitives::Address>().unwrap_err().to_string()
    );

    let mut bad_amount = given();
    bad_amount.amount = "lots".into();
    assert_eq!(
        originate_express_transfer(bad_amount, chain(), defaults())
            .unwrap_err()
            .message(),
        "lots".parse::<alloy::primitives::U256>().unwrap_err().to_string()
    );

    let mut bad_gas = given();
    bad_gas.gas_value = "-1".into();
    assert_eq!(
        originate_express_transfer(bad_gas, chain(), defaults())
            .unwrap_err()
            .message(),
        "-1".parse::<alloy::primitives::U256>().unwrap_err().to_string()
    );
}

#[test]
fn addresses_may_go_without_their_prefix() {
    for (text, valid) in [
        ("e432150cce91c13a887f7D836923d5597adD8E31", true),
        ("0Xe432150cce91c13a887f7D836923d5597adD8E31", true),
        ("0x0xe432150cce91c13a887f7D836923d5597adD8E31", false),
        ("e432150cce91c13a887f7D836923d5597adD8E3", false),
        ("e432150cce91c13a887f7D836923d5597adD8E3g", false),
        (" e432150cce91c13a887f7D836923d5597adD8E31", false),
        ("", false),
    ] {
        let mut at = chain();
        at.gateway = text.into();
        assert_eq!(
            originate_express_transfer(given(), at, defaults()).is_ok(),
            valid,
            "{text:?}"
        );
    }
}

#[test]
fn what_was_read_is_what_is_sent() {
    let parsed = ParsedInputs {
        gateway: Ok([1; 20]),
        recipient: Ok([2; 20]),
        app_address: Ok([3; 20]),
        amount: Ok(alloy::primitives::U256::from(4u64)),
        gas_value: Ok(alloy::primitives::U256::from(5u64)),
    };
    let args = originate_parsed(given(), chain(), defaults(), parsed, "k".into()).unwrap();
    assert_eq!(args.source_gateway, [1; 20]);
    assert_eq!(args.recipient, [2; 20]);
    assert_eq!(args.app_address, [3; 20]);
    assert_eq!(args.amount, alloy::primitives::U256::from(4u64));
    assert_eq!(args.gas_value_wei, alloy::primitives::U256::from(5u64));
    assert_eq!(args.signing_key, "k");
}

#[test]
fn keys_lose_every_prefix() {
    assert_eq!(strip_prefixes("0xab"), "ab");
    assert_eq!(strip_prefixes("0x0xab"), "ab");
    assert_eq!(strip_prefixes("0Xab"), "0Xab");
    assert_eq!(strip_prefixes("ab0x"), "ab0x");
    assert_eq!(strip_prefixes("0"), "0");
    assert_eq!(strip_prefixes(""), "");
}

#[test]
fn hashes_are_shown_in_lower_case() {
    let mut hash = [0u8; 32];
    hash[0] = 0xAB;
    hash[31] = 0x0F;
    assert_eq!(
        show_hash(&hash),
        "0xab0000000000000000000000000000000000000000000000000000000000000f"
    );
}

#[test]
fn what_could_not_be_read_is_told_as_it_was_said() {
    let parsed = || ParsedInputs {
        gateway: Ok([1; 20]),
        recipient: Ok([2; 20]),
        app_address: Ok([3; 20]),
        amount: Ok(alloy::primitives::U256::from(4u64)),
        gas_value: Ok(alloy::primitives::U256::from(5u64)),
    };
    let told = |parsed: ParsedInputs| {
        originate_parsed(given(), chain(), defaults(), parsed, "k".into())
            .unwrap_err()
            .message()
    };
    let mut all = parsed();
    all.gateway = Err("g".into());
    all.recipient = Err("r".into());
    assert_eq!(told(all), "g");
    let mut key = parsed();
    key.recipient = Err("r".into());
    key.app_address = Err("a".into());
    assert_eq!(told(key), "r");
    let mut app = parsed();
    app.app_address = Err("a".into());
    app.amount = Err("m".into());
    assert_eq!(told(app), "a");
    let mut amount = parsed();
    amount.amount = Err("m".into());
    amount.gas_value = Err("v".into());
    assert_eq!(told(amount), "m");
    let mut gas = parsed();
    gas.gas_value = Err("v".into());
    assert_eq!(told(gas), "v");
}
