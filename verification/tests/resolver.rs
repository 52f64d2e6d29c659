use spectre::chain::ChainConfigBuilder;
use spectre::genesis::{default_block_gas_limit, GenesisBuilder};
use spectre::nums::{Address, Ether, Uint256};
use spectre::refs::AddressOrAlias;
use spectre::resolver::{
    AllocBuilder, BuilderError, DefaultsBuilder, Eip1559TransactionBuilder,
    Eip2930TransactionBuilder, LegacyTransactionBuilder, SpectreBuilder, SystemBuilder,
    TransactionBuilder, WalletBuilder,
};
use spectre::tx::TypedTransaction;

fn wei(v: u64) -> Ether {
    Ether(Uint256 { l0: v, l1: 0, l2: 0, l3: 0 })
}

fn zero256() -> Uint256 {
    Uint256 { l0: 0, l1: 0, l2: 0, l3: 0 }
}

fn alias(name: &str) -> AddressOrAlias {
    AddressOrAlias::Alias(name.as_bytes().to_vec())
}

fn wallet(name: &str) -> WalletBuilder {
    WalletBuilder { name: name.as_bytes().to_vec(), secret: None }
}

fn no_defaults() -> DefaultsBuilder {
    DefaultsBuilder {
        account_balance: None,
        tx_gas_price: None,
        tx_max_fee_per_gas: None,
        tx_max_priority_fee_per_gas: None,
        tx_gas_limit: None,
    }
}

fn genesis_decl() -> GenesisBuilder {
    GenesisBuilder {
        nonce: 0,
        timestamp: 1,
        gas_limit: default_block_gas_limit(),
        difficulty: Uint256 { l0: 1, l1: 0, l2: 0, l3: 0 },
        mix_hash: zero256(),
        coinbase: Address::new(vec![0u8; 20]),
    }
}

fn legacy_tx(from: &str, to: Option<&str>) -> TransactionBuilder {
    TransactionBuilder::Legacy(LegacyTransactionBuilder {
        from: alias(from),
        to: to.map(alias),
        gas_price: Some(wei(1_000_000_000)),
        gas_limit: Some(21_000),
        value: Some(wei(1_000_000_000_000_000_000)),
        input: Vec::new(),
    })
}

fn base_config(seed: Option<u64>) -> SpectreBuilder {
    SpectreBuilder {
        system: SystemBuilder { random_seed: seed, geth_path: None },
        defaults: no_defaults(),
        genesis: genesis_decl(),
        chain: ChainConfigBuilder::default(),
        alloc: vec![AllocBuilder {
            address: alias("alice"),
            nonce: None,
            balance: Some(wei(10_000_000_000_000_000_000)),
            code: None,
            storage: Vec::new(),
        }],
        wallet: vec![wallet("alice"), wallet("bob")],
        transactions: vec![legacy_tx("alice", Some("bob"))],
    }
}

#[test]
fn two_wallets_one_legacy_transfer() {
    // Two wallets, alice pre-funded with 10 ether, one legacy transfer of
    // 1 ether with explicit gas price and limit: one signed transaction
    // with nonce 0.
    let world = base_config(Some(42)).build().unwrap();
    assert_eq!(world.wallets.len(), 2);
    assert_eq!(world.genesis.alloc.len(), 1);
    assert_eq!(world.genesis.alloc[0].0.bytes, world.wallets[0].address.bytes);
    assert_eq!(world.genesis.alloc[0].1.balance, wei(10_000_000_000_000_000_000).0);
    assert_eq!(world.transactions.len(), 1);
    assert_eq!(world.transactions[0].from.bytes, world.wallets[0].address.bytes);
    match &world.transactions[0].tx {
        TypedTransaction::Legacy(t) => {
            assert_eq!(t.nonce, 0);
            assert_eq!(t.gas_price, 1_000_000_000u128);
            assert_eq!(t.gas_limit, 21_000);
            assert_eq!(t.chain_id, Some(1337));
        },
        _ => panic!("expected a legacy transaction"),
    }
}

#[test]
fn missing_access_list_fails_with_index_zero() {
    // A non-legacy spec without an access list fails before any network
    // interaction, naming index 0.
    let mut cfg = base_config(Some(1));
    cfg.transactions = vec![TransactionBuilder::Eip2930(Eip2930TransactionBuilder {
        from: alias("alice"),
        to: Some(alias("bob")),
        gas_price: Some(wei(1_000_000_000)),
        gas_limit: Some(21_000),
        value: None,
        access_list: None,
        input: Vec::new(),
    })];
    match cfg.build().unwrap_err() {
        BuilderError::AccessListNotSet { idx } => assert_eq!(idx, 0),
        e => panic!("unexpected error: {:?}", e),
    }
}

#[test]
fn seeded_runs_are_identical() {
    let w1 = base_config(Some(7)).build().unwrap();
    let w2 = base_config(Some(7)).build().unwrap();
    assert_eq!(w1.wallets.len(), w2.wallets.len());
    for (a, b) in w1.wallets.iter().zip(w2.wallets.iter()) {
        assert_eq!(a.name, b.name);
        assert_eq!(a.key, b.key);
        assert_eq!(a.address.bytes, b.address.bytes);
    }
    for (a, b) in w1.transactions.iter().zip(w2.transactions.iter()) {
        assert_eq!(a.from.bytes, b.from.bytes);
        assert_eq!(a.signature, b.signature);
    }
    // A different seed gives different wallets.
    let w3 = base_config(Some(8)).build().unwrap();
    assert_ne!(w1.wallets[0].address.bytes, w3.wallets[0].address.bytes);
}

#[test]
fn nonces_start_at_genesis_and_increase() {
    let mut cfg = base_config(Some(3));
    cfg.alloc = vec![AllocBuilder {
        address: alias("alice"),
        nonce: Some(5),
        balance: Some(wei(10_000_000_000_000_000_000)),
        code: None,
        storage: Vec::new(),
    }];
    cfg.transactions = vec![
        legacy_tx("alice", Some("bob")),
        legacy_tx("bob", Some("alice")),
        legacy_tx("alice", None),
    ];
    let world = cfg.build().unwrap();
    let nonce = |i: usize| match &world.transactions[i].tx {
        TypedTransaction::Legacy(t) => t.nonce,
        _ => panic!("expected a legacy transaction"),
    };
    assert_eq!(nonce(0), 5);
    assert_eq!(nonce(1), 0);
    assert_eq!(nonce(2), 6);
    // Distinct payloads give distinct signatures.
    assert_ne!(world.transactions[0].signature, world.transactions[2].signature);
}

#[test]
fn unknown_alias_fails_with_its_index() {
    let mut cfg = base_config(Some(1));
    cfg.transactions = vec![legacy_tx("alice", Some("bob")), legacy_tx("carol", None)];
    match cfg.build().unwrap_err() {
        BuilderError::TxAccountNotFound { idx, name } => {
            assert_eq!(idx, 1);
            match name {
                AddressOrAlias::Alias(n) => assert_eq!(n, b"carol".to_vec()),
                _ => panic!("expected an alias"),
            }
        },
        e => panic!("unexpected error: {:?}", e),
    }
}

#[test]
fn gas_fields_fall_back_to_defaults() {
    // Explicit wins, the default fills an absent field, and with neither
    // the run fails naming the index.
    let mut cfg = base_config(Some(1));
    cfg.defaults.tx_gas_price = Some(wei(77));
    cfg.defaults.tx_gas_limit = Some(50_000);
    cfg.transactions = vec![TransactionBuilder::Legacy(LegacyTransactionBuilder {
        from: alias("alice"),
        to: Some(alias("bob")),
        gas_price: None,
        gas_limit: None,
        value: None,
        input: Vec::new(),
    })];
    let world = cfg.build().unwrap();
    match &world.transactions[0].tx {
        TypedTransaction::Legacy(t) => {
            assert_eq!(t.gas_price, 77u128);
            assert_eq!(t.gas_limit, 50_000);
        },
        _ => panic!("expected a legacy transaction"),
    }

    let mut cfg = base_config(Some(1));
    cfg.transactions = vec![TransactionBuilder::Legacy(LegacyTransactionBuilder {
        from: alias("alice"),
        to: None,
        gas_price: None,
        gas_limit: None,
        value: None,
        input: Vec::new(),
    })];
    match cfg.build().unwrap_err() {
        BuilderError::GasPriceNotSet { idx } => assert_eq!(idx, 0),
        e => panic!("unexpected error: {:?}", e),
    }

    let mut cfg = base_config(Some(1));
    cfg.defaults.tx_gas_price = Some(wei(77));
    cfg.transactions = vec![TransactionBuilder::Legacy(LegacyTransactionBuilder {
        from: alias("alice"),
        to: None,
        gas_price: None,
        gas_limit: None,
        value: None,
        input: Vec::new(),
    })];
    match cfg.build().unwrap_err() {
        BuilderError::GasLimitNotSet { idx } => assert_eq!(idx, 0),
        e => panic!("unexpected error: {:?}", e),
    }
}

#[test]
fn fee_market_fields_fall_back_in_order() {
    let fee_tx = |max_fee: Option<Ether>, max_priority: Option<Ether>| {
        TransactionBuilder::Eip1559(Eip1559TransactionBuilder {
            from: alias("alice"),
            to: Some(alias("bob")),
            max_fee_per_gas: max_fee,
            max_priority_fee_per_gas: max_priority,
            gas_limit: Some(21_000),
            value: None,
            access_list: Some(spectre::tx::TxAccessList(Vec::new())),
            input: Vec::new(),
        })
    };
    let mut cfg = base_config(Some(1));
    cfg.transactions = vec![fee_tx(None, None)];
    match cfg.build().unwrap_err() {
        BuilderError::MaxFeePerGasNotSet { idx } => assert_eq!(idx, 0),
        e => panic!("unexpected error: {:?}", e),
    }
    let mut cfg = base_config(Some(1));
    cfg.transactions = vec![fee_tx(Some(wei(88)), None)];
    match cfg.build().unwrap_err() {
        BuilderError::MaxPriorityFeePerGasNotSet { idx } => assert_eq!(idx, 0),
        e => panic!("unexpected error: {:?}", e),
    }
    let mut cfg = base_config(Some(1));
    cfg.transactions = vec![fee_tx(Some(wei(88)), Some(wei(2)))];
    let world = cfg.build().unwrap();
    match &world.transactions[0].tx {
        TypedTransaction::Eip1559(t) => {
            assert_eq!(t.max_fee_per_gas, 88u128);
            assert_eq!(t.max_priority_fee_per_gas, 2u128);
            assert_eq!(t.chain_id, 1337);
        },
        _ => panic!("expected a fee-market transaction"),
    }
}

#[test]
fn balance_must_resolve() {
    let mut cfg = base_config(Some(1));
    cfg.alloc[0].balance = None;
    match cfg.build().unwrap_err() {
        BuilderError::BalanceNotSet { idx } => assert_eq!(idx, 0),
        e => panic!("unexpected error: {:?}", e),
    }
    // The configured default fills an absent balance.
    let mut cfg = base_config(Some(1));
    cfg.alloc[0].balance = None;
    cfg.defaults.account_balance = Some(wei(99));
    let world = cfg.build().unwrap();
    assert_eq!(world.genesis.alloc[0].1.balance, wei(99).0);
}

#[test]
fn alloc_alias_must_resolve() {
    let mut cfg = base_config(Some(1));
    cfg.alloc[0].address = alias("nobody");
    match cfg.build().unwrap_err() {
        BuilderError::AllocWalletNotFound { idx, name } => {
            assert_eq!(idx, 0);
            assert_eq!(name, b"nobody".to_vec());
        },
        e => panic!("unexpected error: {:?}", e),
    }
}

#[test]
fn at_least_one_transaction_is_required() {
    let mut cfg = base_config(Some(1));
    cfg.transactions = Vec::new();
    assert!(matches!(cfg.build().unwrap_err(), BuilderError::AtLeastOneTransaction));
}

#[test]
fn invalid_explicit_secret_is_rejected() {
    let mut cfg = base_config(Some(1));
    // 32 bytes of 0xff lie above the secp256k1 group order.
    cfg.wallet.insert(0, WalletBuilder { name: b"broken".to_vec(), secret: Some(vec![0xffu8; 32]) });
    match cfg.build().unwrap_err() {
        BuilderError::InvalidSecret { idx } => assert_eq!(idx, 0),
        e => panic!("unexpected error: {:?}", e),
    }
}

#[test]
fn explicit_secret_derives_the_known_address() {
    // The secret scalar 1 derives the generator point's well-known address.
    let mut secret = vec![0u8; 32];
    secret[31] = 1;
    let mut cfg = base_config(Some(1));
    cfg.wallet[0].secret = Some(secret.clone());
    let world = cfg.build().unwrap();
    assert_eq!(world.wallets[0].key, secret);
    assert_eq!(
        world.wallets[0].address.bytes,
        vec![
            0x7e, 0x5f, 0x45, 0x52, 0x09, 0x1a, 0x69, 0x12, 0x5d, 0x5d, 0xfc, 0xb7, 0xb8, 0xc2,
            0x65, 0x90, 0x29, 0x39, 0x5b, 0xdf,
        ],
    );
}

#[test]
fn code_accepts_hex_and_mnemonics() {
    let mut cfg = base_config(Some(1));
    cfg.alloc[0].code = Some(b"0x6001".to_vec());
    let world = cfg.build().unwrap();
    assert_eq!(world.genesis.alloc[0].1.code, Some(vec![0x60, 0x01]));

    let mut cfg = base_config(Some(1));
    cfg.alloc[0].code = Some(b"PUSH1 0x01\nSTOP".to_vec());
    let world = cfg.build().unwrap();
    assert_eq!(world.genesis.alloc[0].1.code, Some(vec![0x61, 0x01, 0x00]));

    let mut cfg = base_config(Some(1));
    cfg.alloc[0].code = Some(b"FROB".to_vec());
    match cfg.build().unwrap_err() {
        BuilderError::CompileError { idx, .. } => assert_eq!(idx, 0),
        e => panic!("unexpected error: {:?}", e),
    }
}

#[test]
fn literal_address_references_parse() {
    let r = AddressOrAlias::from_bytes(b"0x7e5f4552091a69125d5dfcb7b8c2659029395bdf".to_vec())
        .unwrap();
    match r {
        AddressOrAlias::Address(a) => {
            assert_eq!(a.bytes.len(), 20);
            assert_eq!(a.bytes[0], 0x7e);
            assert_eq!(a.bytes[19], 0xdf);
        },
        _ => panic!("expected a literal address"),
    }
    // Upper-case digits decode too.
    assert!(AddressOrAlias::from_bytes(b"0x7E5F4552091A69125D5DFCB7B8C2659029395BDF".to_vec())
        .is_some());
    // A 0x prefix demands exactly 40 hexadecimal digits.
    assert!(AddressOrAlias::from_bytes(b"0x7e5f".to_vec()).is_none());
    assert!(AddressOrAlias::from_bytes(b"0xzz5f4552091a69125d5dfcb7b8c2659029395bdf".to_vec())
        .is_none());
    // Anything else is an alias.
    match AddressOrAlias::from_bytes(b"alice".to_vec()).unwrap() {
        AddressOrAlias::Alias(n) => assert_eq!(n, b"alice".to_vec()),
        _ => panic!("expected an alias"),
    }
}

#[test]
fn literal_sender_signs_with_its_wallet() {
    // A sender given as a literal address still resolves to the wallet
    // holding that address's key.
    let seeded = base_config(Some(9)).build().unwrap();
    let alice_hex: String =
        seeded.wallets[0].address.bytes.iter().map(|b| format!("{:02x}", b)).collect();
    let mut cfg = base_config(Some(9));
    cfg.transactions = vec![TransactionBuilder::Legacy(LegacyTransactionBuilder {
        from: AddressOrAlias::from_bytes(format!("0x{}", alice_hex).into_bytes()).unwrap(),
        to: Some(alias("bob")),
        gas_price: Some(wei(1_000_000_000)),
        gas_limit: Some(21_000),
        value: None,
        input: Vec::new(),
    })];
    let world = cfg.build().unwrap();
    assert_eq!(world.transactions[0].from.bytes, seeded.wallets[0].address.bytes);
}

#[test]
fn later_alloc_entry_replaces_earlier_one() {
    let mut cfg = base_config(Some(1));
    cfg.alloc = vec![
        AllocBuilder {
            address: alias("alice"),
            nonce: Some(1),
            balance: Some(wei(5)),
            code: None,
            storage: Vec::new(),
        },
        AllocBuilder {
            address: alias("bob"),
            nonce: None,
            balance: Some(wei(6)),
            code: None,
            storage: Vec::new(),
        },
        AllocBuilder {
            address: alias("alice"),
            nonce: Some(2),
            balance: Some(wei(7)),
            code: None,
            storage: Vec::new(),
        },
    ];
    let world = cfg.build().unwrap();
    // One entry per address, in first-insertion order, with the later
    // declaration's account.
    assert_eq!(world.genesis.alloc.len(), 2);
    assert_eq!(world.genesis.alloc[0].0.bytes, world.wallets[0].address.bytes);
    assert_eq!(world.genesis.alloc[0].1.nonce, Some(2));
    assert_eq!(world.genesis.alloc[0].1.balance, wei(7).0);
    assert_eq!(world.genesis.alloc[1].0.bytes, world.wallets[1].address.bytes);
}

#[test]
fn duplicate_wallet_names_resolve_to_the_latest() {
    let mut cfg = base_config(Some(1));
    cfg.wallet = vec![wallet("alice"), wallet("alice"), wallet("bob")];
    let world = cfg.build().unwrap();
    // The sender alias picks the most recently declared wallet of the name.
    assert_eq!(world.transactions[0].from.bytes, world.wallets[1].address.bytes);
    assert_ne!(world.wallets[0].address.bytes, world.wallets[1].address.bytes);
}

#[test]
fn storage_is_carried_through() {
    let mut cfg = base_config(Some(1));
    cfg.alloc[0].storage = vec![(wei(1).0, wei(42).0), (wei(2).0, wei(43).0)];
    let world = cfg.build().unwrap();
    assert_eq!(world.genesis.alloc[0].1.storage.len(), 2);
    assert_eq!(world.genesis.alloc[0].1.storage[0], (wei(1).0, wei(42).0));
    assert_eq!(world.genesis.alloc[0].1.storage[1], (wei(2).0, wei(43).0));
}
