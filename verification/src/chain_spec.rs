//! Chain specifications: the predefined chains, and the storage with which they begin.
use crate::xcm_config::account::AccountId20;
use crate::xcm_config::weight::Balance;
use sp_core::Pair;
use vstd::prelude::*;

verus! {

/// The properties of a chain, which wallets and explorers read.
pub type Properties = serde_json::Map<String, serde_json::Value>;

/// A value of a property.
pub enum PropertyValue {
    Integer(i32),
    Text(&'static str),
}

/// What a property says.
pub enum Property {
    Integer(int),
    Text(Seq<char>),
}

impl View for PropertyValue {
    type V = Property;

    open spec fn view(&self) -> Property {
        match *self {
            PropertyValue::Integer(n) => Property::Integer(n as int),
            PropertyValue::Text(text) => Property::Text(text@),
        }
    }
}

/// `serde_json::Map`, a collection of keys and values.
#[verifier::external_type_specification]
#[verifier::external_body]
#[verifier::reject_recursive_types(K)]
#[verifier::reject_recursive_types(V)]
pub struct ExJsonMap<K, V>(serde_json::Map<K, V>);

/// `serde_json::Value`, carried through unread.
#[verifier::external_type_specification]
#[verifier::external_body]
pub struct ExJsonValue(serde_json::Value);

/// The properties in a `serde_json::Map`, by their keys.
pub uninterp spec fn properties_in(properties: Properties) -> Map<Seq<char>, Property>;

/// No property at all.
pub open spec fn without_properties() -> Map<Seq<char>, Property> {
    Map::empty()
}

/// `serde_json::Map::new`: a collection without properties.
#[verifier::external_body]
fn no_properties() -> (r: Properties)
    ensures
        properties_in(r) == without_properties(),
{
    serde_json::Map::new()
}

/// `serde_json::Map::insert`, of an integer or a text: binds the key to the value, whether or not
/// it was bound before, and changes no other key.
#[verifier::external_body]
fn insert_property(properties: &mut Properties, key: &str, value: PropertyValue)
    ensures
        properties_in(*final(properties)) == properties_in(*old(properties)).insert(key@, value@),
{
    properties.insert(
        key.into(),
        match value {
            PropertyValue::Integer(n) => n.into(),
            PropertyValue::Text(text) => text.into(),
        },
    );
}

/// The properties of the token of every storage chain.
pub open spec fn token_properties() -> Map<Seq<char>, Property> {
    without_properties().insert("tokenDecimals"@, Property::Integer(18)).insert(
        "tokenSymbol"@,
        Property::Text("STOR"@),
    )
}

/// The properties of the token: its symbol, and its number of decimals.
pub fn chainspec_properties() -> (r: Properties)
    ensures
        properties_in(r) == token_properties(),
{
    let mut properties = no_properties();
    insert_property(&mut properties, "tokenDecimals", PropertyValue::Integer(18));
    insert_property(&mut properties, "tokenSymbol", PropertyValue::Text("STOR"));
    properties
}

/// The value of a hexadecimal digit.
pub open spec fn hex_value(digit: char) -> int {
    if '0' <= digit <= '9' {
        digit as int - '0' as int
    } else if 'a' <= digit <= 'f' {
        digit as int - 'a' as int + 10
    } else {
        digit as int - 'A' as int + 10
    }
}

/// Whether a character is a hexadecimal digit.
pub open spec fn is_hex_digit(c: char) -> bool {
    '0' <= c <= '9' || 'a' <= c <= 'f' || 'A' <= c <= 'F'
}

/// Whether a text writes down an account: `0x` and forty hexadecimal digits.
pub open spec fn writes_account(text: Seq<char>) -> bool {
    &&& text.len() == 42
    &&& text[0] == '0'
    &&& text[1] == 'x'
    &&& forall|i: int| 2 <= i < 42 ==> is_hex_digit(#[trigger] text[i])
}

/// The bytes of the account that a text writes down, two digits for each.
pub open spec fn written_account(text: Seq<char>) -> Seq<u8> {
    Seq::new(
        20,
        |i: int| (16 * hex_value(text[2 + 2 * i]) + hex_value(text[3 + 2 * i])) as u8,
    )
}

/// Whether an account is the one that a text writes down.
pub open spec fn is_written_as(account: AccountId20, text: Seq<char>) -> bool {
    account.0@ == written_account(text)
}

/// `array_bytes::hex_n_into_unchecked` for twenty bytes: reads an account from `0x` and forty
/// hexadecimal digits of either case.
#[verifier::external_body]
fn account_from_hex(text: &str) -> (r: AccountId20)
    requires
        writes_account(text@),
    ensures
        is_written_as(r, text@),
{
    AccountId20(array_bytes::hex_n_into_unchecked::<_, [u8; 20], 20>(text))
}

pub const ALITH: &'static str = "0xf24FF3a9CF04c71Dbc94D0b566f7A27B94566cac";

pub const BALTATHAR: &'static str = "0x3Cd0A705a2DC65e5b1E1205896BaA2be8A07c6e0";

pub const CHARLETH: &'static str = "0x798d4Ba9baf0064Ec19eB4F0a1a45785ae9D6DFc";

pub const DOROTHY: &'static str = "0x773539d4Ac0e786233D90A233654ccEE26a613D9";

/// The key by which a collator signs the blocks that it authors.
#[derive(Clone, Copy, Debug, PartialEq, Eq)]
pub struct AuraId(pub [u8; 32]);

/// The keys of a session of a collator.
#[derive(Clone, Copy, Debug, PartialEq, Eq)]
pub struct SessionKeys {
    pub aura: AuraId,
}

/// The public Aura key of the key pair that a secret URI leads to, if it leads to one.
pub uninterp spec fn aura_key_of(uri: Seq<char>) -> Option<Seq<u8>>;

/// The secret URI of a seed: one hard derivation from the well-known development phrase.
pub open spec fn secret_uri(seed: Seq<char>) -> Seq<char> {
    "//"@ + seed
}

/// Whether a seed is a single step of derivation: not empty, and without a slash.
pub open spec fn is_single_step(seed: Seq<char>) -> bool {
    seed.len() > 0 && !seed.contains('/')
}

/// `sp_core::Pair::from_string` and `sp_core::Pair::public` for Aura key pairs, without a
/// password. The public key is given a name; beside that it depends on the URI alone, what is
/// claimed is that a URI of a single hard derivation leads to a key.
#[verifier::external_body]
fn aura_key(uri: &str) -> (r: Option<AuraId>)
    ensures
        match aura_key_of(uri@) {
            Some(key) => r matches Some(id) && id.0@ == key,
            None => r is None,
        },
        forall|seed: Seq<char>|
            #![trigger secret_uri(seed)]
            uri@ == secret_uri(seed) && is_single_step(seed) ==> r is Some,
{
    match sp_consensus_aura::sr25519::AuthorityPair::from_string(uri, None) {
        Ok(pair) => Some(AuraId(sp_core::sr25519::Public::from(pair.public()).0)),
        Err(_) => None,
    }
}

/// What is said of a seed that leads to no key.
pub open spec fn seed_complaint(seed: Seq<char>) -> Seq<char> {
    "Invalid string '"@ + seed + "'"@
}

/// What a seed leads to: the key, or a complaint if it leads to none.
pub open spec fn is_key_of_seed(seed: Seq<char>, key: Result<AuraId, String>) -> bool {
    match aura_key_of(secret_uri(seed)) {
        Some(bytes) => key matches Ok(id) && id.0@ == bytes,
        None => key matches Err(complaint) && complaint@ == seed_complaint(seed),
    }
}

/// The key that a seed leads to. Every seed of a single step leads to one.
pub fn get_from_secret(seed: &str) -> (r: Result<AuraId, String>)
    ensures
        is_key_of_seed(seed@, r),
        is_single_step(seed@) ==> r is Ok,
{
    let mut uri = "//".to_owned();
    uri.append(seed);
    assert(uri@ == secret_uri(seed@));
    let key = aura_key(uri.as_str());
    key_or_complaint(seed, key)
}

/// The key, or the complaint about the seed if there is none.
pub fn key_or_complaint(seed: &str, key: Option<AuraId>) -> (r: Result<AuraId, String>)
    ensures
        match key {
            Some(id) => r == Ok::<AuraId, String>(id),
            None => r matches Err(complaint) && complaint@ == seed_complaint(seed@),
        },
{
    match key {
        Some(id) => Ok(id),
        None => {
            let mut complaint = "Invalid string '".to_owned();
            complaint.append(seed);
            complaint.append("'");
            Err(complaint)
        },
    }
}

/// The key of a collator, from its seed. Every seed of a single step leads to one.
pub fn get_collator_keys_from_seed(seed: &str) -> (r: Result<AuraId, String>)
    ensures
        is_key_of_seed(seed@, r),
        is_single_step(seed@) ==> r is Ok,
{
    get_from_secret(seed)
}

/// The keys of a session, from the Aura key.
fn session_keys(aura: AuraId) -> (r: SessionKeys)
    ensures
        r == (SessionKeys { aura }),
{
    SessionKeys { aura }
}

/// What a chain specification says beyond what every chain has in it.
#[derive(Clone, Debug, PartialEq)]
pub struct Extensions {
    /// The relay chain of the parachain.
    pub relay_chain: String,
    /// The id of the parachain.
    pub para_id: u32,
}

/// What the genesis takes from the runtime.
#[derive(Clone, Debug)]
pub struct RuntimeParameters {
    /// The runtime as WebAssembly code.
    pub code: Vec<u8>,
    /// One token, in its smallest unit.
    pub stor: Balance,
    /// The balance below which an account ceases to exist.
    pub existential_deposit: Balance,
}

/// An initial collator: its account, and its key.
#[derive(Clone, Copy, Debug, PartialEq, Eq)]
pub struct Collator {
    pub account: AccountId20,
    pub aura: AuraId,
}

/// An account and what it holds at the beginning.
#[derive(Clone, Copy, Debug, PartialEq, Eq)]
pub struct Endowment {
    pub account: AccountId20,
    pub balance: Balance,
}

/// The session keys with which a validator, under an account, begins.
#[derive(Clone, Copy, Debug, PartialEq, Eq)]
pub struct InitialSession {
    pub account: AccountId20,
    pub validator: AccountId20,
    pub keys: SessionKeys,
}

/// An account of the EVM, at the beginning without code and storage.
#[derive(Clone, Copy, Debug, PartialEq, Eq)]
pub struct EvmAccount {
    pub address: [u8; 20],
    pub nonce: u128,
    pub balance: u128,
}

/// The storage with which a chain begins. What is not listed begins with its default.
#[derive(Clone, Debug)]
pub struct GenesisConfig {
    /// The runtime as WebAssembly code.
    pub code: Vec<u8>,
    /// The id of the parachain.
    pub parachain_id: u32,
    /// The accounts that hold a balance.
    pub balances: Vec<Endowment>,
    /// The collators that are not elected.
    pub invulnerables: Vec<AccountId20>,
    /// The deposit of candidates for collator.
    pub candidacy_bond: Balance,
    /// The session keys of the collators.
    pub session: Vec<InitialSession>,
    /// The version of XCM that every other chain is taken to understand.
    pub safe_xcm_version: Option<u32>,
    /// The account with administration rights.
    pub sudo: Option<AccountId20>,
    /// The accounts of the EVM.
    pub evm_accounts: Vec<EvmAccount>,
}

/// The number of tokens that are shared out at the beginning.
pub const ENDOWMENT_TOKENS: u128 = 2_500_000_000;

/// How many existential deposits a candidate for collator deposits.
pub const CANDIDACY_BOND_DEPOSITS: u128 = 16;

/// The address of the account with which the EVM begins.
pub const EVM_GENESIS_ADDRESS: [u8; 20] = [
    0x6b,
    0xe0,
    0x2d,
    0x1d,
    0x36,
    0x65,
    0x66,
    0x0d,
    0x22,
    0xff,
    0x96,
    0x24,
    0xb7,
    0xbe,
    0x05,
    0x51,
    0xee,
    0x1a,
    0xc9,
    0x1b,
];

/// The version of XCM that the `staging_xcm` crate calls its latest, which is the third.
#[verifier::external_body]
fn latest_xcm_version() -> (r: u32)
    ensures
        r == 3,
{
    staging_xcm::prelude::XCM_VERSION
}

impl RuntimeParameters {
    /// Whether the amounts of a genesis fit a balance.
    pub open spec fn fits(&self) -> bool {
        &&& ENDOWMENT_TOKENS * self.stor <= u128::MAX
        &&& self.existential_deposit * CANDIDACY_BOND_DEPOSITS <= u128::MAX
    }

    /// What each endowed account receives if there are `collators` collators.
    pub open spec fn share(&self, collators: nat) -> int {
        ENDOWMENT_TOKENS * self.stor / collators as int
    }
}

/// The same balance for each of the accounts, in order.
pub open spec fn endowments_of(accounts: Seq<AccountId20>, balance: Balance) -> Seq<Endowment> {
    accounts.map_values(|account: AccountId20| Endowment { account, balance })
}

/// The accounts of collators, in order.
pub open spec fn accounts_of(collators: Seq<Collator>) -> Seq<AccountId20> {
    collators.map_values(|collator: Collator| collator.account)
}

/// The sessions of collators, in order: each is a validator under its own account.
pub open spec fn sessions_of(collators: Seq<Collator>) -> Seq<InitialSession> {
    collators.map_values(
        |collator: Collator|
            InitialSession {
                account: collator.account,
                validator: collator.account,
                keys: SessionKeys { aura: collator.aura },
            },
    )
}

/// The genesis of a chain, as a statement on what it holds.
pub open spec fn is_testnet_genesis(
    genesis: GenesisConfig,
    runtime: &RuntimeParameters,
    collators: Seq<Collator>,
    root_key: AccountId20,
    endowed_accounts: Seq<AccountId20>,
    id: u32,
) -> bool {
    &&& genesis.code@ == runtime.code@
    &&& genesis.parachain_id == id
    &&& genesis.balances@ == endowments_of(
        endowed_accounts,
        runtime.share(collators.len()) as u128,
    )
    &&& genesis.invulnerables@ == accounts_of(collators)
    &&& genesis.candidacy_bond == runtime.existential_deposit * CANDIDACY_BOND_DEPOSITS
    &&& genesis.session@ == sessions_of(collators)
    &&& genesis.safe_xcm_version == Some(3u32)
    &&& genesis.sudo == Some(root_key)
    &&& genesis.evm_accounts@ == seq![
        EvmAccount { address: EVM_GENESIS_ADDRESS, nonce: 0, balance: 0 },
    ]
}

/// The storage of a chain that begins with the given collators, administrator and endowed
/// accounts. Each endowed account receives the tokens that are shared out, divided by the number
/// of collators.
pub fn testnet_genesis(
    runtime: &RuntimeParameters,
    collators: &Vec<Collator>,
    root_key: AccountId20,
    endowed_accounts: &Vec<AccountId20>,
    id: u32,
) -> (r: GenesisConfig)
    requires
        runtime.fits(),
        endowed_accounts@.len() > 0 ==> collators@.len() > 0,
    ensures
        is_testnet_genesis(r, runtime, collators@, root_key, endowed_accounts@, id),
{
    let endowment: u128 = ENDOWMENT_TOKENS * runtime.stor;
    let ghost share = runtime.share(collators@.len()) as u128;
    let mut balances: Vec<Endowment> = Vec::new();
    let mut i: usize = 0;
    while i < endowed_accounts.len()
        invariant
            i <= endowed_accounts@.len(),
            endowed_accounts@.len() > 0 ==> collators@.len() > 0,
            endowment == ENDOWMENT_TOKENS * runtime.stor,
            share == runtime.share(collators@.len()) as u128,
            balances@.len() == i,
            forall|j: int|
                0 <= j < i ==> #[trigger] balances@[j] == (Endowment {
                    account: endowed_accounts@[j],
                    balance: share,
                }),
        decreases endowed_accounts.len() - i,
    {
        balances.push(
            Endowment {
                account: endowed_accounts[i],
                balance: endowment / collators.len() as u128,
            },
        );
        i += 1;
    }
    let mut invulnerables: Vec<AccountId20> = Vec::new();
    let mut session: Vec<InitialSession> = Vec::new();
    let mut i: usize = 0;
    while i < collators.len()
        invariant
            i <= collators@.len(),
            invulnerables@.len() == i,
            session@.len() == i,
            forall|j: int|
                0 <= j < i ==> #[trigger] invulnerables@[j] == collators@[j].account,
            forall|j: int|
                0 <= j < i ==> #[trigger] session@[j] == (InitialSession {
                    account: collators@[j].account,
                    validator: collators@[j].account,
                    keys: SessionKeys { aura: collators@[j].aura },
                }),
        decreases collators.len() - i,
    {
        invulnerables.push(collators[i].account);
        session.push(
            InitialSession {
                account: collators[i].account,
                validator: collators[i].account,
                keys: session_keys(collators[i].aura),
            },
        );
        i += 1;
    }
    let genesis = GenesisConfig {
        code: runtime.code.clone(),
        parachain_id: id,
        balances,
        invulnerables,
        candidacy_bond: runtime.existential_deposit * CANDIDACY_BOND_DEPOSITS,
        session,
        safe_xcm_version: Some(latest_xcm_version()),
        sudo: Some(root_key),
        evm_accounts: vec![
            EvmAccount { address: EVM_GENESIS_ADDRESS, nonce: 0, balance: 0 },
        ],
    };
    assert(genesis.balances@ =~= endowments_of(endowed_accounts@, share));
    assert(genesis.invulnerables@ =~= accounts_of(collators@));
    assert(genesis.session@ =~= sessions_of(collators@));
    assert(genesis.code@ =~= runtime.code@);
    assert(genesis.evm_accounts@ =~= seq![
        EvmAccount { address: EVM_GENESIS_ADDRESS, nonce: 0, balance: 0 },
    ]);
    genesis
}

/// The protocol by which the nodes of a chain find each other.
pub const PROTOCOL_ID: &'static str = "stor";

/// The relay chain of the predefined chains.
pub const RELAY_CHAIN: &'static str = "rococo-local";

/// The parachain id of the predefined chains.
pub const PARA_ID: u32 = 2000;

/// The administrator of the development chain, who also holds a balance there.
pub const DEVELOPMENT_ADMINISTRATOR: [u8; 20] = [
    0xf2,
    0x4f,
    0xf3,
    0xa9,
    0xcf,
    0x04,
    0xc7,
    0x1d,
    0xbc,
    0x94,
    0xd0,
    0xb5,
    0x66,
    0xf7,
    0xa2,
    0x7b,
    0x94,
    0x56,
    0x6c,
    0xac,
];

/// The second account that holds a balance on the development chain.
pub const DEVELOPMENT_ACCOUNT_2: [u8; 20] = [
    0x7e,
    0xd8,
    0xc8,
    0xa0,
    0xc4,
    0xd1,
    0xfe,
    0xa0,
    0x12,
    0x75,
    0xfe,
    0x13,
    0xf0,
    0xef,
    0x23,
    0xbc,
    0xe5,
    0xcb,
    0xf8,
    0xc3,
];

/// The third account that holds a balance on the development chain.
pub const DEVELOPMENT_ACCOUNT_3: [u8; 20] = [
    0x32,
    0x63,
    0x23,
    0x6c,
    0xbc,
    0x32,
    0x7b,
    0x55,
    0x19,
    0xe3,
    0x73,
    0xcc,
    0x59,
    0x13,
    0x18,
    0xe5,
    0x6e,
    0x7c,
    0x50,
    0x81,
];

/// The administrator of the local test network.
pub const LOCAL_ADMINISTRATOR: [u8; 20] = [
    0x55,
    0xd5,
    0xe7,
    0x76,
    0x99,
    0x71,
    0x98,
    0x67,
    0x9a,
    0x87,
    0x74,
    0x50,
    0x7c,
    0xaa,
    0x4b,
    0x0f,
    0x78,
    0x41,
    0x76,
    0x7e,
];

/// What a chain is for.
#[derive(Clone, Copy, Debug, PartialEq, Eq)]
pub enum ChainType {
    /// Development on a single node.
    Development,
    /// Tests on a network of one machine.
    Local,
}

/// The specification of a chain.
pub struct ChainSpec {
    pub name: &'static str,
    pub id: &'static str,
    pub chain_type: ChainType,
    pub genesis: GenesisConfig,
    /// The addresses of the nodes that a new node asks first.
    pub boot_nodes: Vec<String>,
    /// The telemetry servers, each with the verbosity that it is sent.
    pub telemetry_endpoints: Option<Vec<(String, u8)>>,
    pub protocol_id: Option<&'static str>,
    /// The name of the fork, if the chain is one.
    pub fork_id: Option<&'static str>,
    pub properties: Option<Properties>,
    pub extensions: Extensions,
}

/// What the specifications of the predefined chains have in common.
pub open spec fn is_predefined(spec: ChainSpec) -> bool {
    &&& spec.boot_nodes@.len() == 0
    &&& spec.telemetry_endpoints is None
    &&& spec.protocol_id matches Some(protocol) && protocol@ == "stor"@
    &&& spec.fork_id is None
    &&& spec.properties matches Some(properties) && properties_in(properties) == token_properties()
    &&& spec.extensions.relay_chain@ == "rococo-local"@
    &&& spec.extensions.para_id == PARA_ID
}

/// Whether a collator has the account that a text writes down and the key that a seed leads to.
pub open spec fn is_collator(collator: Collator, text: Seq<char>, seed: Seq<char>) -> bool {
    is_written_as(collator.account, text) && is_key_of_seed(seed, Ok(collator.aura))
}

/// Whether a genesis is that of the development chain: Alith collates with the key of Alice, and
/// three accounts hold a balance.
pub open spec fn is_development_genesis(genesis: GenesisConfig, runtime: &RuntimeParameters) -> bool {
    exists|alith: Collator|
        {
            &&& #[trigger] is_collator(alith, ALITH@, "Alice"@)
            &&& is_testnet_genesis(
                genesis,
                runtime,
                seq![alith],
                AccountId20(DEVELOPMENT_ADMINISTRATOR),
                seq![
                    AccountId20(DEVELOPMENT_ADMINISTRATOR),
                    AccountId20(DEVELOPMENT_ACCOUNT_2),
                    AccountId20(DEVELOPMENT_ACCOUNT_3),
                ],
                PARA_ID,
            )
        }
}

/// Whether a genesis is that of the local test network: Alith and Baltathar collate with the keys
/// of Alice and Bob, and four accounts hold a balance.
pub open spec fn is_local_genesis(genesis: GenesisConfig, runtime: &RuntimeParameters) -> bool {
    exists|alith: Collator, baltathar: Collator, charleth: AccountId20, dorothy: AccountId20|
        {
            &&& #[trigger] is_collator(alith, ALITH@, "Alice"@)
            &&& #[trigger] is_collator(baltathar, BALTATHAR@, "Bob"@)
            &&& #[trigger] is_written_as(charleth, CHARLETH@)
            &&& #[trigger] is_written_as(dorothy, DOROTHY@)
            &&& is_testnet_genesis(
                genesis,
                runtime,
                seq![alith, baltathar],
                AccountId20(LOCAL_ADMINISTRATOR),
                seq![alith.account, baltathar.account, charleth, dorothy],
                PARA_ID,
            )
        }
}

proof fn lemma_predefined_accounts_are_written()
    ensures
        writes_account(ALITH@),
        writes_account(BALTATHAR@),
        writes_account(CHARLETH@),
        writes_account(DOROTHY@),
{
    reveal_strlit("0xf24FF3a9CF04c71Dbc94D0b566f7A27B94566cac");
    reveal_strlit("0x3Cd0A705a2DC65e5b1E1205896BaA2be8A07c6e0");
    reveal_strlit("0x798d4Ba9baf0064Ec19eB4F0a1a45785ae9D6DFc");
    reveal_strlit("0x773539d4Ac0e786233D90A233654ccEE26a613D9");
}

/// The collator with the account that a text writes down and the key that a seed leads to.
fn collator(text: &str, seed: &str) -> (r: Collator)
    requires
        writes_account(text@),
        is_single_step(seed@),
    ensures
        is_collator(r, text@, seed@),
{
    Collator {
        account: account_from_hex(text),
        aura: get_collator_keys_from_seed(seed).unwrap(),
    }
}

/// The specification of the development chain.
pub fn development_config(runtime: &RuntimeParameters) -> (r: Result<ChainSpec, String>)
    requires
        runtime.fits(),
    ensures
        r matches Ok(spec) && {
            &&& spec.name@ == "Development"@
            &&& spec.id@ == "dev"@
            &&& spec.chain_type == ChainType::Development
            &&& is_development_genesis(spec.genesis, runtime)
            &&& is_predefined(spec)
        },
{
    proof {
        lemma_predefined_accounts_are_written();
        reveal_strlit("Alice");
    }
    let alith = collator(ALITH, "Alice");
    let collators = vec![alith];
    let endowed = vec![
        AccountId20(DEVELOPMENT_ADMINISTRATOR),
        AccountId20(DEVELOPMENT_ACCOUNT_2),
        AccountId20(DEVELOPMENT_ACCOUNT_3),
    ];
    let genesis = testnet_genesis(
        runtime,
        &collators,
        AccountId20(DEVELOPMENT_ADMINISTRATOR),
        &endowed,
        PARA_ID,
    );
    assert(collators@ =~= seq![alith]);
    assert(endowed@ =~= seq![
        AccountId20(DEVELOPMENT_ADMINISTRATOR),
        AccountId20(DEVELOPMENT_ACCOUNT_2),
        AccountId20(DEVELOPMENT_ACCOUNT_3),
    ]);
    Ok(
        ChainSpec {
            name: "Development",
            id: "dev",
            chain_type: ChainType::Development,
            genesis,
            boot_nodes: Vec::new(),
            telemetry_endpoints: None,
            protocol_id: Some(PROTOCOL_ID),
            fork_id: None,
            properties: Some(chainspec_properties()),
            extensions: Extensions { relay_chain: RELAY_CHAIN.to_owned(), para_id: PARA_ID },
        },
    )
}

/// The specification of the local test network.
pub fn local_testnet_config(runtime: &RuntimeParameters) -> (r: Result<ChainSpec, String>)
    requires
        runtime.fits(),
    ensures
        r matches Ok(spec) && {
            &&& spec.name@ == "Local Testnet"@
            &&& spec.id@ == "local_testnet"@
            &&& spec.chain_type == ChainType::Local
            &&& is_local_genesis(spec.genesis, runtime)
            &&& is_predefined(spec)
        },
{
    proof {
        lemma_predefined_accounts_are_written();
        reveal_strlit("Alice");
        reveal_strlit("Bob");
    }
    let alith = collator(ALITH, "Alice");
    let baltathar = collator(BALTATHAR, "Bob");
    let charleth = account_from_hex(CHARLETH);
    let dorothy = account_from_hex(DOROTHY);
    let collators = vec![alith, baltathar];
    let endowed = vec![
        account_from_hex(ALITH),
        account_from_hex(BALTATHAR),
        charleth,
        dorothy,
    ];
    assert(endowed@[0] == alith.account) by {
        assert(endowed@[0].0 =~= alith.account.0);
    }
    assert(endowed@[1] == baltathar.account) by {
        assert(endowed@[1].0 =~= baltathar.account.0);
    }
    let genesis = testnet_genesis(
        runtime,
        &collators,
        AccountId20(LOCAL_ADMINISTRATOR),
        &endowed,
        PARA_ID,
    );
    assert(collators@ =~= seq![alith, baltathar]);
    assert(endowed@ =~= seq![alith.account, baltathar.account, charleth, dorothy]);
    Ok(
        ChainSpec {
            name: "Local Testnet",
            id: "local_testnet",
            chain_type: ChainType::Local,
            genesis,
            boot_nodes: Vec::new(),
            telemetry_endpoints: None,
            protocol_id: Some(PROTOCOL_ID),
            fork_id: None,
            properties: Some(chainspec_properties()),
            extensions: Extensions { relay_chain: RELAY_CHAIN.to_owned(), para_id: PARA_ID },
        },
    )
}

/// As many endowed accounts as there are collators never receive more than the tokens that are
/// shared out.
pub proof fn shares_of_collators_fit_the_endowment(runtime: &RuntimeParameters, collators: nat)
    requires
        collators > 0,
    ensures
        0 <= collators * runtime.share(collators) <= ENDOWMENT_TOKENS * runtime.stor,
{
    let total = ENDOWMENT_TOKENS * runtime.stor;
    let n = collators as int;
    assert(0 <= n * (total / n) <= total) by (nonlinear_arith)
        requires
            n > 0,
            total >= 0,
    ;
}

/// In every genesis, the collators that are not elected are exactly those with session keys, in
/// the same order, and each validates under its own account.
pub proof fn invulnerables_have_session_keys(
    genesis: GenesisConfig,
    runtime: &RuntimeParameters,
    collators: Seq<Collator>,
    root_key: AccountId20,
    endowed_accounts: Seq<AccountId20>,
    id: u32,
)
    requires
        is_testnet_genesis(genesis, runtime, collators, root_key, endowed_accounts, id),
    ensures
        genesis.session@.len() == genesis.invulnerables@.len() == collators.len(),
        forall|i: int|
            0 <= i < collators.len() ==> {
                &&& (#[trigger] genesis.session@[i]).account == genesis.invulnerables@[i]
                &&& genesis.session@[i].validator == genesis.invulnerables@[i]
                &&& genesis.session@[i].keys.aura == collators[i].aura
            },
{
}

/// The text of a property and its number are what they say.
pub proof fn properties_say_what_they_hold(n: i32, text: &'static str)
    ensures
        PropertyValue::Integer(n)@ == Property::Integer(n as int),
        PropertyValue::Text(text)@ == Property::Text(text@),
{
}

/// The token has the symbol STOR and eighteen decimals, and nothing else is said of it.
pub proof fn token_is_stor_with_eighteen_decimals(r: Properties, key: Seq<char>)
    requires
        call_ensures(chainspec_properties, (), r),
    ensures
        properties_in(r).contains_key(key) <==> key == "tokenDecimals"@ || key == "tokenSymbol"@,
        properties_in(r)["tokenDecimals"@] == Property::Integer(18),
        properties_in(r)["tokenSymbol"@] == Property::Text("STOR"@),
{
    reveal_strlit("tokenDecimals");
    reveal_strlit("tokenSymbol");
    assert("tokenDecimals"@.len() == 13);
    assert("tokenSymbol"@.len() == 11);
}

/// A seed is put behind two slashes, and the key of that URI is the one of the seed; where there is
/// none, the complaint names the seed as it was given. A seed that is not empty and has no slash
/// always leads to a key.
pub proof fn seeds_are_single_hard_derivations(
    seed: &str,
    r: Result<AuraId, String>,
    collator: Result<AuraId, String>,
)
    requires
        call_ensures(get_from_secret, (seed,), r),
        call_ensures(get_collator_keys_from_seed, (seed,), collator),
    ensures
        r is Ok <==> aura_key_of("//"@ + seed@) is Some,
        r matches Ok(key) ==> aura_key_of("//"@ + seed@) == Some(key.0@),
        r matches Err(complaint) ==> complaint@ == "Invalid string '"@ + seed@ + "'"@,
        seed@.len() > 0 && !seed@.contains('/') ==> r is Ok,
        collator is Ok <==> r is Ok,
        collator matches Ok(key) ==> r matches Ok(same) && key.0@ == same.0@,
        collator matches Err(complaint) ==> r matches Err(same) && complaint@ == same@,
{
}

/// A key that was found is handed on, and a seed without one is complained of by name.
pub proof fn complaints_name_the_seed(seed: &str, key: Option<AuraId>, r: Result<AuraId, String>)
    requires
        call_ensures(key_or_complaint, (seed, key), r),
    ensures
        r is Ok <==> key is Some,
        r matches Ok(id) ==> key == Some(id),
        r matches Err(complaint) ==> complaint@ == "Invalid string '"@ + seed@ + "'"@,
{
}

/// What every genesis holds: the code, id and administrator that it is given; for each endowed
/// account, in order, a share of two and a half billion tokens, one for each collator; the
/// collators, in order, with their keys; a bond of sixteen existential deposits; the third version
/// of XCM; and one empty account of the EVM.
pub proof fn genesis_holds_what_it_is_given(
    runtime: &RuntimeParameters,
    collators: &Vec<Collator>,
    root_key: AccountId20,
    endowed_accounts: &Vec<AccountId20>,
    id: u32,
    r: GenesisConfig,
)
    requires
        2_500_000_000 * runtime.stor <= u128::MAX,
        runtime.existential_deposit * 16 <= u128::MAX,
        endowed_accounts@.len() > 0 ==> collators@.len() > 0,
        call_ensures(
            testnet_genesis,
            (runtime, collators, root_key, endowed_accounts, id),
            r,
        ),
    ensures
        call_requires(testnet_genesis, (runtime, collators, root_key, endowed_accounts, id)),
        r.code@ == runtime.code@,
        r.parachain_id == id,
        r.sudo == Some(root_key),
        r.balances@.len() == endowed_accounts@.len(),
        forall|i: int|
            0 <= i < endowed_accounts@.len() ==> {
                &&& (#[trigger] r.balances@[i]).account == endowed_accounts@[i]
                &&& r.balances@[i].balance == (2_500_000_000 * runtime.stor)
                    / collators@.len() as int
            },
        r.invulnerables@.len() == collators@.len(),
        r.session@.len() == collators@.len(),
        forall|i: int|
            0 <= i < collators@.len() ==> {
                &&& #[trigger] r.invulnerables@[i] == collators@[i].account
                &&& r.session@[i].account == collators@[i].account
                &&& r.session@[i].validator == collators@[i].account
                &&& r.session@[i].keys.aura == collators@[i].aura
            },
        r.candidacy_bond == runtime.existential_deposit * 16,
        r.safe_xcm_version == Some(3u32),
        r.evm_accounts@.len() == 1,
        r.evm_accounts@[0].nonce == 0,
        r.evm_accounts@[0].balance == 0,
        r.evm_accounts@[0].address@ =~= seq![
                0x6bu8, 0xe0, 0x2d, 0x1d, 0x36, 0x65, 0x66, 0x0d, 0x22, 0xff,
                0x96, 0x24, 0xb7, 0xbe, 0x05, 0x51, 0xee, 0x1a, 0xc9, 0x1b,
            ],
{
    let total = 2_500_000_000 * runtime.stor;
    let n = collators@.len() as int;
    if n > 0 {
        assert(0 <= total / n <= total) by (nonlinear_arith)
            requires
                n > 0,
                total >= 0,
        ;
    }
}

/// The accounts of the predefined chains, as their texts write them down.
proof fn lemma_predefined_accounts()
    ensures
        written_account(ALITH@) =~= seq![
                0xf2u8, 0x4f, 0xf3, 0xa9, 0xcf, 0x04, 0xc7, 0x1d, 0xbc, 0x94,
                0xd0, 0xb5, 0x66, 0xf7, 0xa2, 0x7b, 0x94, 0x56, 0x6c, 0xac,
            ],
        written_account(BALTATHAR@) =~= seq![
                0x3cu8, 0xd0, 0xa7, 0x05, 0xa2, 0xdc, 0x65, 0xe5, 0xb1, 0xe1,
                0x20, 0x58, 0x96, 0xba, 0xa2, 0xbe, 0x8a, 0x07, 0xc6, 0xe0,
            ],
        written_account(CHARLETH@) =~= seq![
                0x79u8, 0x8d, 0x4b, 0xa9, 0xba, 0xf0, 0x06, 0x4e, 0xc1, 0x9e,
                0xb4, 0xf0, 0xa1, 0xa4, 0x57, 0x85, 0xae, 0x9d, 0x6d, 0xfc,
            ],
        written_account(DOROTHY@) =~= seq![
                0x77u8, 0x35, 0x39, 0xd4, 0xac, 0x0e, 0x78, 0x62, 0x33, 0xd9,
                0x0a, 0x23, 0x36, 0x54, 0xcc, 0xee, 0x26, 0xa6, 0x13, 0xd9,
            ],
{
    reveal_strlit("0xf24FF3a9CF04c71Dbc94D0b566f7A27B94566cac");
    reveal_strlit("0x3Cd0A705a2DC65e5b1E1205896BaA2be8A07c6e0");
    reveal_strlit("0x798d4Ba9baf0064Ec19eB4F0a1a45785ae9D6DFc");
    reveal_strlit("0x773539d4Ac0e786233D90A233654ccEE26a613D9");
}

/// The accounts of the predefined chains that are written as bytes.
proof fn lemma_predefined_bytes()
    ensures
        DEVELOPMENT_ADMINISTRATOR@ =~= seq![
            0xf2u8, 0x4f, 0xf3, 0xa9, 0xcf, 0x04, 0xc7, 0x1d, 0xbc, 0x94,
            0xd0, 0xb5, 0x66, 0xf7, 0xa2, 0x7b, 0x94, 0x56, 0x6c, 0xac,
        ],
        DEVELOPMENT_ACCOUNT_2@ =~= seq![
            0x7eu8, 0xd8, 0xc8, 0xa0, 0xc4, 0xd1, 0xfe, 0xa0, 0x12, 0x75,
            0xfe, 0x13, 0xf0, 0xef, 0x23, 0xbc, 0xe5, 0xcb, 0xf8, 0xc3,
        ],
        DEVELOPMENT_ACCOUNT_3@ =~= seq![
            0x32u8, 0x63, 0x23, 0x6c, 0xbc, 0x32, 0x7b, 0x55, 0x19, 0xe3,
            0x73, 0xcc, 0x59, 0x13, 0x18, 0xe5, 0x6e, 0x7c, 0x50, 0x81,
        ],
        LOCAL_ADMINISTRATOR@ =~= seq![
            0x55u8, 0xd5, 0xe7, 0x76, 0x99, 0x71, 0x98, 0x67, 0x9a, 0x87,
            0x74, 0x50, 0x7c, 0xaa, 0x4b, 0x0f, 0x78, 0x41, 0x76, 0x7e,
        ],
{
}

/// The account that Alith's text writes down is the administrator of the development chain.
proof fn lemma_alith_administrates(account: AccountId20)
    requires
        is_written_as(account, ALITH@),
    ensures
        account == AccountId20(DEVELOPMENT_ADMINISTRATOR),
{
    lemma_predefined_accounts();
    lemma_predefined_bytes();
    assert(account.0 =~= DEVELOPMENT_ADMINISTRATOR);
}

/// On every predefined chain the runtime and the node agree on the parachain id, which is 2000;
/// and apart from names and genesis the two chains are specified alike: a parachain of the local
/// Rococo with the protocol "stor", no fork, without bootnodes and telemetry.
pub proof fn predefined_chains_are_parachain_2000(
    runtime: &RuntimeParameters,
    development: Result<ChainSpec, String>,
    local: Result<ChainSpec, String>,
)
    requires
        call_ensures(development_config, (runtime,), development),
        call_ensures(local_testnet_config, (runtime,), local),
    ensures
        development is Ok && local is Ok,
        forall|spec: ChainSpec|
            development == Ok::<ChainSpec, String>(spec) || local == Ok::<ChainSpec, String>(spec)
                ==> {
                &&& #[trigger] spec.genesis.parachain_id == 2000
                &&& spec.extensions.para_id == 2000
                &&& spec.extensions.relay_chain@ == "rococo-local"@
                &&& spec.protocol_id is Some && spec.protocol_id->0@ == "stor"@
                &&& spec.fork_id is None
                &&& spec.boot_nodes@.len() == 0
                &&& spec.telemetry_endpoints is None
                &&& spec.properties is Some
                &&& properties_in(spec.properties->0).contains_key("tokenDecimals"@)
                &&& properties_in(spec.properties->0)["tokenDecimals"@] == Property::Integer(18)
                &&& properties_in(spec.properties->0).contains_key("tokenSymbol"@)
                &&& properties_in(spec.properties->0)["tokenSymbol"@] == Property::Text("STOR"@)
                &&& properties_in(spec.properties->0).dom() =~= set!["tokenDecimals"@, "tokenSymbol"@]
                &&& spec.genesis.code@ == runtime.code@
                &&& spec.genesis.candidacy_bond == runtime.existential_deposit * 16
                &&& spec.genesis.safe_xcm_version == Some(3u32)
                &&& spec.genesis.evm_accounts@.len() == 1
                &&& spec.genesis.evm_accounts@[0].nonce == 0
                &&& spec.genesis.evm_accounts@[0].balance == 0
                &&& spec.genesis.evm_accounts@[0].address@ == seq![
                0x6bu8, 0xe0, 0x2d, 0x1d, 0x36, 0x65, 0x66, 0x0d, 0x22, 0xff,
                0x96, 0x24, 0xb7, 0xbe, 0x05, 0x51, 0xee, 0x1a, 0xc9, 0x1b,
            ]
            },
{
    reveal_strlit("tokenDecimals");
    reveal_strlit("tokenSymbol");
    assert("tokenDecimals"@.len() == 13);
    assert("tokenSymbol"@.len() == 11);
}

/// On the development chain one collator, Alith with the key of Alice, produces blocks. Alith
/// also administrates it, and holds with two others two and a half billion tokens each.
pub proof fn development_chain_is_run_by_alith(
    runtime: &RuntimeParameters,
    r: Result<ChainSpec, String>,
)
    requires
        2_500_000_000 * runtime.stor <= u128::MAX,
        runtime.existential_deposit * 16 <= u128::MAX,
        call_ensures(development_config, (runtime,), r),
    ensures
        call_requires(development_config, (runtime,)),
        r matches Ok(spec) && {
            let genesis = spec.genesis;
            let alith = seq![
                0xf2u8, 0x4f, 0xf3, 0xa9, 0xcf, 0x04, 0xc7, 0x1d, 0xbc, 0x94,
                0xd0, 0xb5, 0x66, 0xf7, 0xa2, 0x7b, 0x94, 0x56, 0x6c, 0xac,
            ];
            let second = seq![
                0x7eu8, 0xd8, 0xc8, 0xa0, 0xc4, 0xd1, 0xfe, 0xa0, 0x12, 0x75,
                0xfe, 0x13, 0xf0, 0xef, 0x23, 0xbc, 0xe5, 0xcb, 0xf8, 0xc3,
            ];
            let third = seq![
                0x32u8, 0x63, 0x23, 0x6c, 0xbc, 0x32, 0x7b, 0x55, 0x19, 0xe3,
                0x73, 0xcc, 0x59, 0x13, 0x18, 0xe5, 0x6e, 0x7c, 0x50, 0x81,
            ];
            &&& spec.name@ == "Development"@
            &&& spec.id@ == "dev"@
            &&& spec.chain_type is Development
            &&& genesis.sudo is Some
            &&& (genesis.sudo->0).0@ == alith
            &&& genesis.invulnerables@.len() == 1
            &&& genesis.invulnerables@[0] == genesis.sudo->0
            &&& genesis.session@.len() == 1
            &&& genesis.session@[0].account == genesis.sudo->0
            &&& genesis.session@[0].validator == genesis.sudo->0
            &&& aura_key_of("//"@ + "Alice"@) == Some(genesis.session@[0].keys.aura.0@)
            &&& genesis.balances@.len() == 3
            &&& genesis.balances@[0].account == genesis.sudo->0
            &&& genesis.balances@[1].account.0@ == second
            &&& genesis.balances@[2].account.0@ == third
            &&& genesis.balances@[0].balance == 2_500_000_000 * runtime.stor
            &&& genesis.balances@[1].balance == 2_500_000_000 * runtime.stor
            &&& genesis.balances@[2].balance == 2_500_000_000 * runtime.stor
        },
{
    lemma_predefined_bytes();
    let genesis = r->Ok_0.genesis;
    let alith = choose|alith: Collator|
        {
            &&& #[trigger] is_collator(alith, ALITH@, "Alice"@)
            &&& is_testnet_genesis(
                genesis,
                runtime,
                seq![alith],
                AccountId20(DEVELOPMENT_ADMINISTRATOR),
                seq![
                    AccountId20(DEVELOPMENT_ADMINISTRATOR),
                    AccountId20(DEVELOPMENT_ACCOUNT_2),
                    AccountId20(DEVELOPMENT_ACCOUNT_3),
                ],
                PARA_ID,
            )
        };
    lemma_alith_administrates(alith.account);
    assert(genesis.invulnerables@[0] == alith.account);
    assert(genesis.session@[0].keys.aura == alith.aura);
    assert(genesis.balances@[0].account == AccountId20(DEVELOPMENT_ADMINISTRATOR));
    assert(genesis.balances@[1].account == AccountId20(DEVELOPMENT_ACCOUNT_2));
    assert(genesis.balances@[2].account == AccountId20(DEVELOPMENT_ACCOUNT_3));
    let total = 2_500_000_000 * runtime.stor;
    assert(total / 1 == total) by (nonlinear_arith);
    assert(runtime.share(1) == total);
}

/// On the local test network two collators produce blocks: Alith with the key of Alice, and
/// Baltathar with the key of Bob. They and two others hold half of two and a half billion tokens
/// each, and a fifth account administrates the chain.
pub proof fn local_chain_is_run_by_alith_and_baltathar(
    runtime: &RuntimeParameters,
    r: Result<ChainSpec, String>,
)
    requires
        2_500_000_000 * runtime.stor <= u128::MAX,
        runtime.existential_deposit * 16 <= u128::MAX,
        call_ensures(local_testnet_config, (runtime,), r),
    ensures
        call_requires(local_testnet_config, (runtime,)),
        r matches Ok(spec) && {
            let genesis = spec.genesis;
            let alith = seq![
                0xf2u8, 0x4f, 0xf3, 0xa9, 0xcf, 0x04, 0xc7, 0x1d, 0xbc, 0x94,
                0xd0, 0xb5, 0x66, 0xf7, 0xa2, 0x7b, 0x94, 0x56, 0x6c, 0xac,
            ];
            let baltathar = seq![
                0x3cu8, 0xd0, 0xa7, 0x05, 0xa2, 0xdc, 0x65, 0xe5, 0xb1, 0xe1,
                0x20, 0x58, 0x96, 0xba, 0xa2, 0xbe, 0x8a, 0x07, 0xc6, 0xe0,
            ];
            let charleth = seq![
                0x79u8, 0x8d, 0x4b, 0xa9, 0xba, 0xf0, 0x06, 0x4e, 0xc1, 0x9e,
                0xb4, 0xf0, 0xa1, 0xa4, 0x57, 0x85, 0xae, 0x9d, 0x6d, 0xfc,
            ];
            let dorothy = seq![
                0x77u8, 0x35, 0x39, 0xd4, 0xac, 0x0e, 0x78, 0x62, 0x33, 0xd9,
                0x0a, 0x23, 0x36, 0x54, 0xcc, 0xee, 0x26, 0xa6, 0x13, 0xd9,
            ];
            let administrator = seq![
                0x55u8, 0xd5, 0xe7, 0x76, 0x99, 0x71, 0x98, 0x67, 0x9a, 0x87,
                0x74, 0x50, 0x7c, 0xaa, 0x4b, 0x0f, 0x78, 0x41, 0x76, 0x7e,
            ];
            let share = (2_500_000_000 * runtime.stor) / 2;
            &&& spec.name@ == "Local Testnet"@
            &&& spec.id@ == "local_testnet"@
            &&& spec.chain_type is Local
            &&& genesis.sudo matches Some(key) && key.0@ == administrator
            &&& genesis.invulnerables@.len() == 2
            &&& genesis.invulnerables@[0].0@ == alith
            &&& genesis.invulnerables@[1].0@ == baltathar
            &&& genesis.session@.len() == 2
            &&& genesis.session@[0].account.0@ == alith
            &&& genesis.session@[0].validator.0@ == alith
            &&& aura_key_of("//"@ + "Alice"@) == Some(genesis.session@[0].keys.aura.0@)
            &&& genesis.session@[1].account.0@ == baltathar
            &&& genesis.session@[1].validator.0@ == baltathar
            &&& aura_key_of("//"@ + "Bob"@) == Some(genesis.session@[1].keys.aura.0@)
            &&& genesis.balances@.len() == 4
            &&& genesis.balances@[0].account.0@ == alith
            &&& genesis.balances@[1].account.0@ == baltathar
            &&& genesis.balances@[2].account.0@ == charleth
            &&& genesis.balances@[3].account.0@ == dorothy
            &&& genesis.balances@[0].balance == share
            &&& genesis.balances@[1].balance == share
            &&& genesis.balances@[2].balance == share
            &&& genesis.balances@[3].balance == share
        },
{
    lemma_predefined_accounts();
    lemma_predefined_bytes();
}

} // verus!
