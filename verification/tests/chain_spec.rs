use storage_chain::chain_spec::{
    chainspec_properties, development_config, get_collator_keys_from_seed, get_from_secret,
    key_or_complaint, local_testnet_config, testnet_genesis, AuraId, ChainType, Collator,
    EvmAccount, Extensions, InitialSession, RuntimeParameters, SessionKeys,
};
use storage_chain::xcm_config::account::AccountId20;

const STOR: u128 = 1_000_000_000_000_000_000;

fn runtime() -> RuntimeParameters {
    RuntimeParameters { code: vec![0, 97, 115, 109], stor: STOR, existential_deposit: 500 }
}

fn account(text: &str) -> AccountId20 {
    let mut bytes = [0u8; 20];
    for i in 0..20 {
        bytes[i] = u8::from_str_radix(&text[2 * i..2 * i + 2], 16).unwrap();
    }
    AccountId20(bytes)
}

fn key(text: &str) -> AuraId {
    let mut bytes = [0u8; 32];
    for i in 0..32 {
        bytes[i] = u8::from_str_radix(&text[2 * i..2 * i + 2], 16).unwrap();
    }
    AuraId(bytes)
}

fn alice() -> AuraId {
    key("d43593c715fdd31c61141abd04a99fd6822c8558854ccde39a5684e7a56da27d")
}

fn bob() -> AuraId {
    key("8eaf04151687736326c9fea17e25fc5287613693c912909cb226aa4794f26a48")
}

fn alith() -> AccountId20 {
    account("f24FF3a9CF04c71Dbc94D0b566f7A27B94566cac")
}

#[test]
fn properties_of_the_token() {
    let properties = chainspec_properties();
    assert_eq!(properties.len(), 2);
    assert_eq!(properties["tokenDecimals"], serde_json::Value::from(18));
    assert_eq!(properties["tokenSymbol"], serde_json::Value::from("STOR"));
}

#[test]
fn keys_from_seeds() {
    assert_eq!(get_collator_keys_from_seed("Alice"), Ok(alice()));
    assert_eq!(get_collator_keys_from_seed("Bob"), Ok(bob()));
    assert!(get_collator_keys_from_seed("Alice//stash").is_ok());
    assert!(get_collator_keys_from_seed("a b\nc").is_ok());
    assert!(get_collator_keys_from_seed("0").is_ok());
    assert_eq!(get_collator_keys_from_seed(""), Err("Invalid string ''".to_string()));
    assert_eq!(get_from_secret(""), Err("Invalid string ''".to_string()));
    assert_eq!(get_from_secret("Alice"), Ok(alice()));
    assert_eq!(key_or_complaint("x y", None), Err("Invalid string 'x y'".to_string()));
    assert_eq!(key_or_complaint("x y", Some(bob())), Ok(bob()));
}

#[test]
fn development_chain() {
    let spec = development_config(&runtime()).unwrap();
    assert_eq!(spec.name, "Development");
    assert_eq!(spec.id, "dev");
    assert_eq!(spec.chain_type, ChainType::Development);
    assert!(spec.boot_nodes.is_empty());
    assert!(spec.telemetry_endpoints.is_none());
    assert_eq!(spec.protocol_id, Some("stor"));
    assert_eq!(spec.fork_id, None);
    assert_eq!(spec.properties, Some(chainspec_properties()));
    assert_eq!(spec.extensions.relay_chain, "rococo-local");
    assert_eq!(spec.extensions.para_id, 2000);
    let genesis = spec.genesis;
    assert_eq!(genesis.code, vec![0, 97, 115, 109]);
    assert_eq!(genesis.parachain_id, 2000);
    assert_eq!(genesis.sudo, Some(alith()));
    assert_eq!(genesis.invulnerables, vec![alith()]);
    assert_eq!(
        genesis.session,
        vec![InitialSession {
            account: alith(),
            validator: alith(),
            keys: SessionKeys { aura: alice() },
        }]
    );
    let holders: Vec<AccountId20> = genesis.balances.iter().map(|e| e.account).collect();
    assert_eq!(
        holders,
        vec![
            alith(),
            account("7ed8c8a0C4d1FeA01275fE13F0Ef23bce5CBF8C3"),
            account("3263236Cbc327B5519E373CC591318e56e7c5081"),
        ]
    );
    assert!(genesis.balances.iter().all(|e| e.balance == 2_500_000_000 * STOR));
    assert_eq!(genesis.candidacy_bond, 8000);
    assert_eq!(genesis.safe_xcm_version, Some(3));
    assert_eq!(
        genesis.evm_accounts,
        vec![EvmAccount {
            address: account("6Be02d1d3665660d22FF9624b7BE0551ee1Ac91b").0,
            nonce: 0,
            balance: 0,
        }]
    );
}

#[test]
fn local_test_network() {
    let spec = local_testnet_config(&runtime()).unwrap();
    assert_eq!(spec.name, "Local Testnet");
    assert_eq!(spec.id, "local_testnet");
    assert_eq!(spec.chain_type, ChainType::Local);
    assert!(spec.boot_nodes.is_empty());
    assert!(spec.telemetry_endpoints.is_none());
    assert_eq!(spec.protocol_id, Some("stor"));
    assert_eq!(spec.fork_id, None);
    assert_eq!(spec.properties, Some(chainspec_properties()));
    assert_eq!(spec.extensions.relay_chain, "rococo-local");
    assert_eq!(spec.extensions.para_id, 2000);
    let genesis = spec.genesis;
    let baltathar = account("3Cd0A705a2DC65e5b1E1205896BaA2be8A07c6e0");
    assert_eq!(genesis.sudo, Some(account("55D5E776997198679A8774507CaA4b0F7841767e")));
    assert_eq!(genesis.invulnerables, vec![alith(), baltathar]);
    assert_eq!(genesis.session[0].keys.aura, alice());
    assert_eq!(genesis.session[1].keys.aura, bob());
    let holders: Vec<AccountId20> = genesis.balances.iter().map(|e| e.account).collect();
    assert_eq!(
        holders,
        vec![
            alith(),
            baltathar,
            account("798d4Ba9baf0064Ec19eB4F0a1a45785ae9D6DFc"),
            account("773539d4Ac0e786233D90A233654ccEE26a613D9"),
        ]
    );
    assert!(genesis.balances.iter().all(|e| e.balance == 1_250_000_000 * STOR));
}

#[test]
fn nobody_is_endowed_twice_on_predefined_chains() {
    for genesis in [
        development_config(&runtime()).unwrap().genesis,
        local_testnet_config(&runtime()).unwrap().genesis,
    ] {
        for i in 0..genesis.balances.len() {
            for j in 0..i {
                assert_ne!(genesis.balances[i].account, genesis.balances[j].account);
            }
        }
    }
}

#[test]
fn shares_are_rounded_down() {
    let collator = Collator { account: alith(), aura: alice() };
    let small = RuntimeParameters { code: vec![], stor: 1, existential_deposit: 0 };
    let genesis =
        testnet_genesis(&small, &vec![collator, collator, collator], alith(), &vec![alith()], 1);
    assert_eq!(genesis.balances[0].balance, 833_333_333);
    assert_eq!(genesis.invulnerables.len(), 3);
}

#[test]
fn genesis_of_nobody() {
    let genesis = testnet_genesis(&runtime(), &vec![], alith(), &vec![], 1);
    assert!(genesis.balances.is_empty());
    assert!(genesis.invulnerables.is_empty());
    assert!(genesis.session.is_empty());
}

#[test]
fn extensions_are_compared_by_what_they_say() {
    let spec = development_config(&runtime()).unwrap();
    let same = local_testnet_config(&runtime()).unwrap().extensions;
    assert_eq!(spec.extensions, same);
    assert_ne!(spec.extensions, Extensions { para_id: 1, ..same });
}
