//! Originating an express transfer: which inputs it needs, and what is sent.

use vstd::prelude::*;

use crate::evm;
use crate::evm::{address_of_key, hash_text, parse_address, parse_amount};
use crate::text::{chars_of, text_between};

verus! {

/// The inputs of an originated transfer.
#[derive(Debug)]
pub struct OriginateInputs {
    pub source_chain: Option<String>,
    pub destination_chain: Option<String>,
    pub amount: String,
    pub gas_value: String,
    pub app_address: Option<String>,
    pub symbol: Option<String>,
    pub private_key: Option<String>,
    pub source_rpc: Option<String>,
}

/// The inputs that a transfer cannot be originated without, and the rest.
#[derive(Debug)]
pub struct RequiredInputs {
    pub source_chain: String,
    pub destination_chain: String,
    pub private_key: String,
    pub amount: String,
    pub gas_value: String,
    pub app_address: Option<String>,
    pub symbol: Option<String>,
    pub source_rpc: Option<String>,
}

/// What the chains configuration says of the source chain.
#[derive(Debug)]
pub struct SourceChain {
    pub gateway: String,
    pub rpc: Option<String>,
}

/// What a network falls back to.
#[derive(Debug)]
pub struct NetworkDefaults {
    pub app_proxy: String,
    pub symbols: Vec<String>,
}

/// What is sent.
#[derive(Debug)]
pub struct OriginateArgs {
    pub source_rpc_urls: Vec<String>,
    pub source_gateway: [u8; 20],
    pub app_address: [u8; 20],
    pub destination_chain: String,
    pub symbols: Vec<String>,
    pub amount: alloy::primitives::U256,
    pub recipient: [u8; 20],
    pub gas_value_wei: alloy::primitives::U256,
    /// The key that signs, without its prefix.
    pub signing_key: String,
}

/// Why a transfer was not originated. An input that could not be read is told
/// in the words of its parser.
#[derive(Debug)]
pub enum OriginateError {
    SourceChainMissing,
    DestinationChainMissing,
    KeyMissing,
    GatewayInvalid { cause: String },
    RpcMissing { source_chain: String },
    KeyInvalid { cause: String },
    AppAddressInvalid { cause: String },
    AmountInvalid { cause: String },
    GasValueInvalid { cause: String },
}

/// Why a transfer was not originated, as a value.
pub enum OriginateFault {
    SourceChainMissing,
    DestinationChainMissing,
    KeyMissing,
    GatewayInvalid(Seq<char>),
    RpcMissing(Seq<char>),
    KeyInvalid(Seq<char>),
    AppAddressInvalid(Seq<char>),
    AmountInvalid(Seq<char>),
    GasValueInvalid(Seq<char>),
}

impl View for OriginateError {
    type V = OriginateFault;

    open spec fn view(&self) -> OriginateFault {
        match self {
            OriginateError::SourceChainMissing => OriginateFault::SourceChainMissing,
            OriginateError::DestinationChainMissing => OriginateFault::DestinationChainMissing,
            OriginateError::KeyMissing => OriginateFault::KeyMissing,
            OriginateError::GatewayInvalid { cause } => OriginateFault::GatewayInvalid(cause@),
            OriginateError::RpcMissing { source_chain } => OriginateFault::RpcMissing(
                source_chain@,
            ),
            OriginateError::KeyInvalid { cause } => OriginateFault::KeyInvalid(cause@),
            OriginateError::AppAddressInvalid { cause } => OriginateFault::AppAddressInvalid(
                cause@,
            ),
            OriginateError::AmountInvalid { cause } => OriginateFault::AmountInvalid(cause@),
            OriginateError::GasValueInvalid { cause } => OriginateFault::GasValueInvalid(cause@),
        }
    }
}

impl OriginateFault {
    /// What the operator is told.
    pub open spec fn told(self) -> Seq<char> {
        match self {
            OriginateFault::SourceChainMissing => "--originate requires --source-chain"@,
            OriginateFault::DestinationChainMissing => "--originate requires --destination-chain"@,
            OriginateFault::KeyMissing => "--originate requires EVM_PRIVATE_KEY or --private-key"@,
            OriginateFault::RpcMissing(source_chain) => "no RPC for source chain '"@ + source_chain
                + "'"@,
            OriginateFault::GatewayInvalid(cause) => cause,
            OriginateFault::KeyInvalid(cause) => cause,
            OriginateFault::AppAddressInvalid(cause) => cause,
            OriginateFault::AmountInvalid(cause) => cause,
            OriginateFault::GasValueInvalid(cause) => cause,
        }
    }
}

impl OriginateError {
    /// Renders what the operator is told.
    pub fn message(&self) -> (message: String)
        ensures
            message@ == self@.told(),
    {
        match self {
            OriginateError::SourceChainMissing => "--originate requires --source-chain".to_owned(),
            OriginateError::DestinationChainMissing => {
                "--originate requires --destination-chain".to_owned()
            },
            OriginateError::KeyMissing => {
                "--originate requires EVM_PRIVATE_KEY or --private-key".to_owned()
            },
            OriginateError::RpcMissing { source_chain } => {
                let mut message = "no RPC for source chain '".to_owned();
                message.append(source_chain.as_str());
                message.append("'");
                message
            },
            OriginateError::GatewayInvalid { cause } => cause.clone(),
            OriginateError::KeyInvalid { cause } => cause.clone(),
            OriginateError::AppAddressInvalid { cause } => cause.clone(),
            OriginateError::AmountInvalid { cause } => cause.clone(),
            OriginateError::GasValueInvalid { cause } => cause.clone(),
        }
    }
}

/// Sorts out the inputs that are required, before anything is resolved. The
/// first that is missing is reported.
pub fn required_inputs(inputs: OriginateInputs) -> (required: Result<
    RequiredInputs,
    OriginateError,
>)
    ensures
        match required {
            Ok(given) => {
                &&& inputs.source_chain == Some(given.source_chain)
                &&& inputs.destination_chain == Some(given.destination_chain)
                &&& inputs.private_key == Some(given.private_key)
                &&& given.amount == inputs.amount
                &&& given.gas_value == inputs.gas_value
                &&& given.app_address == inputs.app_address
                &&& given.symbol == inputs.symbol
                &&& given.source_rpc == inputs.source_rpc
            },
            Err(error) => if inputs.source_chain is None {
                error is SourceChainMissing
            } else if inputs.destination_chain is None {
                error is DestinationChainMissing
            } else {
                inputs.private_key is None && error is KeyMissing
            },
        },
{
    let source_chain = match inputs.source_chain {
        Some(chain) => chain,
        None => {
            return Err(OriginateError::SourceChainMissing);
        },
    };
    let destination_chain = match inputs.destination_chain {
        Some(chain) => chain,
        None => {
            return Err(OriginateError::DestinationChainMissing);
        },
    };
    let private_key = match inputs.private_key {
        Some(key) => key,
        None => {
            return Err(OriginateError::KeyMissing);
        },
    };
    Ok(
        RequiredInputs {
            source_chain,
            destination_chain,
            private_key,
            amount: inputs.amount,
            gas_value: inputs.gas_value,
            app_address: inputs.app_address,
            symbol: inputs.symbol,
            source_rpc: inputs.source_rpc,
        },
    )
}

/// A key without the prefixes that it starts with.
pub open spec fn without_prefixes(key: Seq<char>) -> Seq<char>
    decreases key.len(),
{
    if key.len() >= 2 && key[0] == '0' && key[1] == 'x' {
        without_prefixes(key.skip(2))
    } else {
        key
    }
}

/// Strips the prefixes that a key starts with.
pub fn strip_prefixes(key: &str) -> (stripped: String)
    ensures
        stripped@ == without_prefixes(key@),
{
    let chars = chars_of(key);
    let n: usize = chars.len();
    let mut i: usize = 0;
    assert(key@.skip(0) =~= key@);
    while n - i >= 2 && chars[i] == '0' && chars[i + 1] == 'x'
        invariant
            chars@ == key@,
            n == chars@.len(),
            i <= n,
            without_prefixes(key@) == without_prefixes(key@.skip(i as int)),
        decreases n - i,
    {
        assert(key@.skip(i as int).skip(2) =~= key@.skip(i + 2));
        i = i + 2;
    }
    let stripped = text_between(&chars, i, n);
    assert(stripped@ =~= key@.skip(i as int));
    stripped
}

/// The endpoint that a transfer is sent to: the one given, else the one of the
/// chain.
pub open spec fn rpc_of(given: RequiredInputs, chain: SourceChain) -> Option<String> {
    if given.source_rpc is Some {
        given.source_rpc
    } else {
        chain.rpc
    }
}

/// The app address that a transfer goes through, as text.
pub open spec fn app_of(given: RequiredInputs, defaults: NetworkDefaults) -> Seq<char> {
    match given.app_address {
        Some(address) => address@,
        None => defaults.app_proxy@,
    }
}

/// Why a transfer cannot be sent, if it cannot: the first thing that is wrong.
pub open spec fn origination_fault(
    given: RequiredInputs,
    chain: SourceChain,
    defaults: NetworkDefaults,
) -> Option<OriginateFault> {
    let app = app_of(given, defaults);
    let key = without_prefixes(given.private_key@);
    if evm::address_of(chain.gateway@) is None {
        Some(OriginateFault::GatewayInvalid(evm::address_error(chain.gateway@)))
    } else if rpc_of(given, chain) is None {
        Some(OriginateFault::RpcMissing(given.source_chain@))
    } else if evm::key_address(key) is Err {
        Some(OriginateFault::KeyInvalid(evm::key_address(key)->Err_0))
    } else if evm::address_of(app) is None {
        Some(OriginateFault::AppAddressInvalid(evm::address_error(app)))
    } else if evm::parsed_amount(given.amount@) is Err {
        Some(OriginateFault::AmountInvalid(evm::parsed_amount(given.amount@)->Err_0))
    } else if evm::parsed_amount(given.gas_value@) is Err {
        Some(OriginateFault::GasValueInvalid(evm::parsed_amount(given.gas_value@)->Err_0))
    } else {
        None
    }
}

/// Whether what is sent is what the inputs, the chain and the network's
/// defaults say. The transfer goes back to the account that signs it.
pub open spec fn sends(
    given: RequiredInputs,
    chain: SourceChain,
    defaults: NetworkDefaults,
    args: OriginateArgs,
) -> bool {
    &&& args.source_rpc_urls@.len() == 1
    &&& Some(args.source_rpc_urls@[0]) == rpc_of(given, chain)
    &&& Some(args.source_gateway@) == evm::address_of(chain.gateway@)
    &&& Some(args.app_address@) == evm::address_of(app_of(given, defaults))
    &&& args.destination_chain == given.destination_chain
    &&& match given.symbol {
        Some(symbol) => args.symbols@ == seq![symbol],
        None => args.symbols == defaults.symbols,
    }
    &&& evm::parsed_amount(given.amount@) matches Ok(amount) && args.amount == amount
    &&& evm::parsed_amount(given.gas_value@) matches Ok(gas) && args.gas_value_wei == gas
    &&& args.signing_key@ == without_prefixes(given.private_key@)
    &&& evm::key_address(args.signing_key@) matches Ok(signer) && args.recipient@ == signer
}

/// What the inputs of a transfer were read as, or why they could not be.
#[derive(Debug)]
pub struct ParsedInputs {
    pub gateway: Result<[u8; 20], String>,
    pub recipient: Result<[u8; 20], String>,
    pub app_address: Result<[u8; 20], String>,
    pub amount: Result<alloy::primitives::U256, String>,
    pub gas_value: Result<alloy::primitives::U256, String>,
}

/// Why a transfer whose inputs were read cannot be sent, if it cannot.
pub open spec fn parsed_fault(
    given: RequiredInputs,
    chain: SourceChain,
    parsed: ParsedInputs,
) -> Option<OriginateFault> {
    if let Err(cause) = parsed.gateway {
        Some(OriginateFault::GatewayInvalid(cause@))
    } else if rpc_of(given, chain) is None {
        Some(OriginateFault::RpcMissing(given.source_chain@))
    } else if let Err(cause) = parsed.recipient {
        Some(OriginateFault::KeyInvalid(cause@))
    } else if let Err(cause) = parsed.app_address {
        Some(OriginateFault::AppAddressInvalid(cause@))
    } else if let Err(cause) = parsed.amount {
        Some(OriginateFault::AmountInvalid(cause@))
    } else if let Err(cause) = parsed.gas_value {
        Some(OriginateFault::GasValueInvalid(cause@))
    } else {
        None
    }
}

/// Makes what is sent from what the inputs were read as, or says what is
/// wrong.
pub fn originate_parsed(
    given: RequiredInputs,
    chain: SourceChain,
    defaults: NetworkDefaults,
    parsed: ParsedInputs,
    signing_key: String,
) -> (made: Result<OriginateArgs, OriginateError>)
    ensures
        match made {
            Ok(args) => {
                &&& parsed_fault(given, chain, parsed) is None
                &&& args.source_rpc_urls@.len() == 1
                &&& Some(args.source_rpc_urls@[0]) == rpc_of(given, chain)
                &&& given.source_rpc matches Some(url) ==> args.source_rpc_urls@ == seq![url]
                &&& given.source_rpc is None ==> (chain.rpc matches Some(url)
                    && args.source_rpc_urls@ == seq![url])
                &&& parsed.gateway matches Ok(read) && args.source_gateway == read
                &&& parsed.app_address matches Ok(read) && args.app_address == read
                &&& args.destination_chain == given.destination_chain
                &&& match given.symbol {
                    Some(symbol) => args.symbols@ == seq![symbol],
                    None => args.symbols == defaults.symbols,
                }
                &&& parsed.amount matches Ok(read) && args.amount == read
                &&& parsed.recipient matches Ok(read) && args.recipient == read
                &&& parsed.gas_value matches Ok(read) && args.gas_value_wei == read
                &&& args.signing_key == signing_key
            },
            Err(error) => Some(error@) == parsed_fault(given, chain, parsed),
        },
{
    let source_gateway = match parsed.gateway {
        Ok(address) => address,
        Err(cause) => {
            return Err(OriginateError::GatewayInvalid { cause });
        },
    };
    let rpc = match given.source_rpc {
        Some(rpc) => rpc,
        None => match chain.rpc {
            Some(rpc) => rpc,
            None => {
                return Err(OriginateError::RpcMissing { source_chain: given.source_chain });
            },
        },
    };
    let recipient = match parsed.recipient {
        Ok(address) => address,
        Err(cause) => {
            return Err(OriginateError::KeyInvalid { cause });
        },
    };
    let app_address = match parsed.app_address {
        Ok(address) => address,
        Err(cause) => {
            return Err(OriginateError::AppAddressInvalid { cause });
        },
    };
    let amount = match parsed.amount {
        Ok(amount) => amount,
        Err(cause) => {
            return Err(OriginateError::AmountInvalid { cause });
        },
    };
    let gas_value_wei = match parsed.gas_value {
        Ok(amount) => amount,
        Err(cause) => {
            return Err(OriginateError::GasValueInvalid { cause });
        },
    };
    let symbols = match given.symbol {
        Some(symbol) => {
            let mut only: Vec<String> = Vec::new();
            only.push(symbol);
            only
        },
        None => defaults.symbols,
    };
    let mut source_rpc_urls: Vec<String> = Vec::new();
    source_rpc_urls.push(rpc);
    Ok(
        OriginateArgs {
            source_rpc_urls,
            source_gateway,
            app_address,
            destination_chain: given.destination_chain,
            symbols,
            amount,
            recipient,
            gas_value_wei,
            signing_key,
        },
    )
}

/// Makes what is sent, or says what is wrong.
pub fn originate_express_transfer(
    given: RequiredInputs,
    chain: SourceChain,
    defaults: NetworkDefaults,
) -> (made: Result<OriginateArgs, OriginateError>)
    ensures
        match made {
            Ok(args) => {
                &&& origination_fault(given, chain, defaults) is None
                &&& sends(given, chain, defaults, args)
            },
            Err(error) => Some(error@) == origination_fault(given, chain, defaults),
        },
{
    let signing_key = strip_prefixes(given.private_key.as_str());
    let app = match &given.app_address {
        Some(address) => address.as_str(),
        None => defaults.app_proxy.as_str(),
    };
    let parsed = ParsedInputs {
        gateway: parse_address(chain.gateway.as_str()),
        recipient: address_of_key(signing_key.as_str()),
        app_address: parse_address(app),
        amount: parse_amount(given.amount.as_str()),
        gas_value: parse_amount(given.gas_value.as_str()),
    };
    originate_parsed(given, chain, defaults, parsed, signing_key)
}

/// Shows the hash of a sent transfer, for the monitor to watch.
pub fn show_hash(hash: &[u8; 32]) -> (shown: String)
    ensures
        shown@ == "0x"@ + evm::lower_hex(hash@),
{
    hash_text(hash)
}

/// An endpoint that is given is the one a transfer is sent to, whatever the
/// chain has; the chain's own is used only where none is given.
pub proof fn law_a_given_endpoint_is_the_one_sent_to(
    given: RequiredInputs,
    chain: SourceChain,
    defaults: NetworkDefaults,
    args: OriginateArgs,
)
    requires
        sends(given, chain, defaults, args),
    ensures
        given.source_rpc matches Some(url) ==> args.source_rpc_urls@ == seq![url],
        given.source_rpc is None ==> (chain.rpc matches Some(url) && args.source_rpc_urls@
            == seq![url]),
{
    assert(args.source_rpc_urls@ =~= seq![args.source_rpc_urls@[0]]);
}

/// A transfer has an endpoint exactly where one is given or the chain has one,
/// and then it is one of the two, the given one first.
pub proof fn law_an_endpoint_is_given_or_the_chain_has_it(
    given: RequiredInputs,
    chain: SourceChain,
)
    ensures
        rpc_of(given, chain) is None <==> given.source_rpc is None && chain.rpc is None,
        given.source_rpc matches Some(url) ==> rpc_of(given, chain) == Some(url),
        given.source_rpc is None ==> rpc_of(given, chain) == chain.rpc,
{
}

/// What is given of a transfer is what is sent: its app, its token, its
/// destination and its amounts. The network's defaults fill in the app and the
/// token alone, and only where none is given.
pub proof fn law_what_is_given_is_sent(
    given: RequiredInputs,
    chain: SourceChain,
    defaults: NetworkDefaults,
    args: OriginateArgs,
)
    requires
        sends(given, chain, defaults, args),
    ensures
        given.app_address matches Some(app) ==> Some(args.app_address@) == evm::address_of(app@),
        given.app_address is None ==> Some(args.app_address@) == evm::address_of(
            defaults.app_proxy@,
        ),
        given.symbol matches Some(symbol) ==> args.symbols@ == seq![symbol],
        given.symbol is None ==> args.symbols@ == defaults.symbols@,
        args.destination_chain@ == given.destination_chain@,
        Some(args.source_gateway@) == evm::address_of(chain.gateway@),
        evm::parsed_amount(given.amount@) == Ok::<alloy::primitives::U256, Seq<char>>(args.amount),
        evm::parsed_amount(given.gas_value@) == Ok::<alloy::primitives::U256, Seq<char>>(
            args.gas_value_wei,
        ),
        evm::key_address(args.signing_key@) == Ok::<Seq<u8>, Seq<char>>(args.recipient@),
        args.signing_key@.is_suffix_of(given.private_key@),
{
    law_a_key_loses_its_prefixes_only(given.private_key@);
}

/// A key loses all the prefixes that it starts with, and nothing else: what is
/// left ends the key and has no prefix, and what went is prefixes alone.
pub proof fn law_a_key_loses_its_prefixes_only(key: Seq<char>)
    ensures
        without_prefixes(key).is_suffix_of(key),
        !(without_prefixes(key).len() >= 2 && without_prefixes(key)[0] == '0' && without_prefixes(
            key,
        )[1] == 'x'),
        (key.len() - without_prefixes(key).len()) % 2 == 0,
        forall|i: int|
            0 <= i < key.len() - without_prefixes(key).len() ==> #[trigger] key[i] == (if i % 2
                == 0 {
                '0'
            } else {
                'x'
            }),
    decreases key.len(),
{
    if key.len() >= 2 && key[0] == '0' && key[1] == 'x' {
        let rest = key.skip(2);
        law_a_key_loses_its_prefixes_only(rest);
        let left = without_prefixes(key);
        assert(left =~= key.subrange(key.len() - left.len(), key.len() as int)) by {
            assert(left =~= rest.subrange(rest.len() - left.len(), rest.len() as int));
        }
        assert forall|i: int| 0 <= i < key.len() - left.len() implies #[trigger] key[i] == (if i % 2
            == 0 {
            '0'
        } else {
            'x'
        }) by {
            if i >= 2 {
                assert(rest[i - 2] == key[i]);
            }
        }
    } else {
        assert(key =~= key.subrange(0, key.len() as int));
    }
}

/// A key is told apart from its prefix: prefixing a key changes nothing of what
/// is left of it.
pub proof fn law_a_prefix_does_not_change_a_key(key: Seq<char>)
    ensures
        without_prefixes(seq!['0', 'x'] + key) == without_prefixes(key),
        !(key.len() >= 2 && key[0] == '0' && key[1] == 'x') ==> without_prefixes(key) == key,
{
    let longer = seq!['0', 'x'] + key;
    assert(longer[0] == '0' && longer[1] == 'x');
    assert(longer.skip(2) =~= key);
}

/// A transfer can be sent exactly where its gateway, its endpoint, its key, its
/// app and its amounts are all in order. Where one is not, the first that is
/// not, in that order, is told in the words of its parser.
pub proof fn law_the_first_fault_is_told(
    given: RequiredInputs,
    chain: SourceChain,
    defaults: NetworkDefaults,
)
    ensures
        ({
            let fault = origination_fault(given, chain, defaults);
            let gateway = evm::address_of(chain.gateway@) is Some;
            let endpoint = given.source_rpc is Some || chain.rpc is Some;
            let key = evm::key_address(without_prefixes(given.private_key@));
            let app = if given.app_address is Some {
                given.app_address->0@
            } else {
                defaults.app_proxy@
            };
            let amount = evm::parsed_amount(given.amount@);
            let gas = evm::parsed_amount(given.gas_value@);
            &&& fault is None <==> gateway && endpoint && key is Ok && evm::address_of(app) is Some
                && amount is Ok && gas is Ok
            &&& fault matches Some(OriginateFault::GatewayInvalid(why)) ==> !gateway && why
                == evm::address_error(chain.gateway@)
            &&& fault matches Some(OriginateFault::RpcMissing(named)) ==> gateway && !endpoint
                && named == given.source_chain@
            &&& fault matches Some(OriginateFault::KeyInvalid(why)) ==> gateway && endpoint && key
                == Err::<Seq<u8>, Seq<char>>(why)
            &&& fault matches Some(OriginateFault::AppAddressInvalid(why)) ==> gateway && endpoint
                && key is Ok && evm::address_of(app) is None && why == evm::address_error(app)
            &&& fault matches Some(OriginateFault::AmountInvalid(why)) ==> gateway && endpoint
                && key is Ok && evm::address_of(app) is Some && amount == Err::<
                alloy::primitives::U256,
                Seq<char>,
            >(why)
            &&& fault matches Some(OriginateFault::GasValueInvalid(why)) ==> gateway && endpoint
                && key is Ok && evm::address_of(app) is Some && amount is Ok && gas == Err::<
                alloy::primitives::U256,
                Seq<char>,
            >(why)
            &&& fault != Some(OriginateFault::SourceChainMissing)
            &&& fault != Some(OriginateFault::DestinationChainMissing)
            &&& fault != Some(OriginateFault::KeyMissing)
        }),
{
}

/// A transfer whose inputs were read can be sent exactly where all of them were
/// read and there is an endpoint; else the first that was not is told.
pub proof fn law_the_first_unread_input_is_told(
    given: RequiredInputs,
    chain: SourceChain,
    parsed: ParsedInputs,
)
    ensures
        ({
            let fault = parsed_fault(given, chain, parsed);
            let endpoint = given.source_rpc is Some || chain.rpc is Some;
            &&& fault is None <==> parsed.gateway is Ok && endpoint && parsed.recipient is Ok
                && parsed.app_address is Ok && parsed.amount is Ok && parsed.gas_value is Ok
            &&& fault matches Some(OriginateFault::GatewayInvalid(why)) ==> (
            parsed.gateway matches Err(cause) && cause@ == why)
            &&& fault matches Some(OriginateFault::RpcMissing(named)) ==> parsed.gateway is Ok
                && !endpoint && named == given.source_chain@
            &&& fault matches Some(OriginateFault::KeyInvalid(why)) ==> parsed.gateway is Ok
                && endpoint && (parsed.recipient matches Err(cause) && cause@ == why)
            &&& fault matches Some(OriginateFault::AppAddressInvalid(why)) ==> parsed.gateway is Ok
                && endpoint && parsed.recipient is Ok && (parsed.app_address matches Err(cause)
                && cause@ == why)
            &&& fault matches Some(OriginateFault::AmountInvalid(why)) ==> parsed.gateway is Ok
                && endpoint && parsed.recipient is Ok && parsed.app_address is Ok && (
            parsed.amount matches Err(cause) && cause@ == why)
            &&& fault matches Some(OriginateFault::GasValueInvalid(why)) ==> parsed.gateway is Ok
                && endpoint && parsed.recipient is Ok && parsed.app_address is Ok
                && parsed.amount is Ok && (parsed.gas_value matches Err(cause) && cause@ == why)
            &&& fault != Some(OriginateFault::SourceChainMissing)
            &&& fault != Some(OriginateFault::DestinationChainMissing)
            &&& fault != Some(OriginateFault::KeyMissing)
        }),
{
}

/// An error stands for the fault of its own name, with the same cause.
pub proof fn law_an_error_stands_for_its_fault(error: OriginateError)
    ensures
        error is SourceChainMissing <==> error@ is SourceChainMissing,
        error is DestinationChainMissing <==> error@ is DestinationChainMissing,
        error is KeyMissing <==> error@ is KeyMissing,
        error is GatewayInvalid <==> error@ is GatewayInvalid,
        error is RpcMissing <==> error@ is RpcMissing,
        error is KeyInvalid <==> error@ is KeyInvalid,
        error is AppAddressInvalid <==> error@ is AppAddressInvalid,
        error is AmountInvalid <==> error@ is AmountInvalid,
        error is GasValueInvalid <==> error@ is GasValueInvalid,
        error matches OriginateError::GatewayInvalid { cause } ==> error@.told() == cause@,
        error matches OriginateError::KeyInvalid { cause } ==> error@.told() == cause@,
        error matches OriginateError::AppAddressInvalid { cause } ==> error@.told() == cause@,
        error matches OriginateError::AmountInvalid { cause } ==> error@.told() == cause@,
        error matches OriginateError::GasValueInvalid { cause } ==> error@.told() == cause@,
{
}

/// An input that is missing is told by the option that gives it, and a missing
/// endpoint by the chain that lacks it.
pub proof fn law_a_missing_input_is_told_by_name(source_chain: Seq<char>)
    ensures
        "--source-chain"@.is_suffix_of(OriginateFault::SourceChainMissing.told()),
        "--destination-chain"@.is_suffix_of(OriginateFault::DestinationChainMissing.told()),
        "EVM_PRIVATE_KEY or --private-key"@.is_suffix_of(OriginateFault::KeyMissing.told()),
        ("'"@ + source_chain + "'"@).is_suffix_of(OriginateFault::RpcMissing(source_chain).told()),
        "no RPC for source chain "@.is_prefix_of(OriginateFault::RpcMissing(source_chain).told()),
        OriginateFault::RpcMissing(source_chain).told().len() == "no RPC for source chain "@.len()
            + ("'"@ + source_chain + "'"@).len(),
{
    reveal_strlit("--originate requires --source-chain");
    reveal_strlit("--source-chain");
    reveal_strlit("--originate requires --destination-chain");
    reveal_strlit("--destination-chain");
    reveal_strlit("--originate requires EVM_PRIVATE_KEY or --private-key");
    reveal_strlit("EVM_PRIVATE_KEY or --private-key");
    reveal_strlit("no RPC for source chain '");
    reveal_strlit("no RPC for source chain ");
    reveal_strlit("'");
    let a = "--originate requires --source-chain"@;
    assert("--source-chain"@ =~= a.subrange(
        a.len() - "--source-chain"@.len(),
        a.len() as int,
    ));
    let b = "--originate requires --destination-chain"@;
    assert("--destination-chain"@ =~= b.subrange(
        b.len() - "--destination-chain"@.len(),
        b.len() as int,
    ));
    let c = "--originate requires EVM_PRIVATE_KEY or --private-key"@;
    assert("EVM_PRIVATE_KEY or --private-key"@ =~= c.subrange(
        c.len() - "EVM_PRIVATE_KEY or --private-key"@.len(),
        c.len() as int,
    ));
    let d = OriginateFault::RpcMissing(source_chain).told();
    let quoted = "'"@ + source_chain + "'"@;
    assert(quoted =~= d.subrange(d.len() - quoted.len(), d.len() as int));
    assert("no RPC for source chain "@ =~= d.subrange(
        0,
        "no RPC for source chain "@.len() as int,
    ));
}

} // verus!
