use spectre::chain::{default_chain_id, default_false, default_true, ChainConfigBuilder, ForkFlag};
use spectre::genesis::{default_block_gas_limit, default_gas, default_now};
use spectre::harness::{
    clique_extra_data, geth_init_args, geth_run_args, is_ready_line, miner_password,
    prepare_genesis, start_miner_calls, stop_miner_calls, MinerCall, TestNetBuilder,
};
use spectre::nums::{Address, Uint256};

fn addr(fill: u8) -> Address {
    Address::new(vec![fill; 20])
}

#[test]
fn fork_flags_resolve_to_absent_zero_or_value() {
    assert_eq!(ForkFlag::Flag(false).resolve(), None);
    assert_eq!(ForkFlag::Flag(true).resolve(), Some(0));
    assert_eq!(ForkFlag::At(0).resolve(), Some(0));
    assert_eq!(ForkFlag::At(1_234).resolve(), Some(1_234));
}

#[test]
fn chain_defaults_enable_every_fork_from_genesis() {
    let chain = ChainConfigBuilder::default();
    assert_eq!(chain.chain_id, 1337);
    assert!(chain.dao_fork_support);
    let resolved = chain.build();
    assert_eq!(resolved.homestead_block, Some(0));
    assert_eq!(resolved.osaka_time, Some(0));
    assert_eq!(resolved.clique, None);
    assert_eq!(default_chain_id(), 1337);
    assert!(default_true());
    assert!(!default_false());
    assert_eq!(default_block_gas_limit(), 30_000_000);
    assert_eq!(default_gas(), 10_000_000);
    // The wall clock moves forward; the fixture epoch is in the past.
    assert!(default_now() > 1_600_000_000);
}

#[test]
fn extra_data_embeds_the_authority() {
    let a = addr(0x11);
    let data = clique_extra_data(&a);
    assert_eq!(data.len(), 117);
    assert!(data[..32].iter().all(|b| *b == 0));
    assert_eq!(&data[32..52], &a.bytes[..]);
    assert!(data[52..].iter().all(|b| *b == 0));
}

#[test]
fn prepare_genesis_switches_to_proof_of_authority() {
    let cfg = spectre::resolver::SpectreBuilder {
        system: spectre::resolver::SystemBuilder { random_seed: Some(5), geth_path: None },
        defaults: spectre::resolver::DefaultsBuilder {
            account_balance: Some(spectre::nums::Ether(Uint256 { l0: 1, l1: 0, l2: 0, l3: 0 })),
            tx_gas_price: Some(spectre::nums::Ether(Uint256 { l0: 1, l1: 0, l2: 0, l3: 0 })),
            tx_max_fee_per_gas: None,
            tx_max_priority_fee_per_gas: None,
            tx_gas_limit: Some(21_000),
        },
        genesis: spectre::genesis::GenesisBuilder {
            nonce: 0,
            timestamp: 1,
            gas_limit: default_block_gas_limit(),
            difficulty: Uint256 { l0: 1, l1: 0, l2: 0, l3: 0 },
            mix_hash: Uint256 { l0: 0, l1: 0, l2: 0, l3: 0 },
            coinbase: addr(0),
        },
        chain: ChainConfigBuilder::default(),
        alloc: Vec::new(),
        wallet: vec![spectre::resolver::WalletBuilder { name: b"w".to_vec(), secret: None }],
        transactions: vec![spectre::resolver::TransactionBuilder::Legacy(
            spectre::resolver::LegacyTransactionBuilder {
                from: spectre::refs::AddressOrAlias::Alias(b"w".to_vec()),
                to: None,
                gas_price: None,
                gas_limit: None,
                value: None,
                input: Vec::new(),
            },
        )],
    };
    let world = cfg.build().unwrap();
    let authority = addr(0x22);
    let prepared = prepare_genesis(world.genesis, &authority);
    assert!(prepared.config.clique.is_some());
    assert_eq!(prepared.extra_data.len(), 117);
    assert_eq!(&prepared.extra_data[32..52], &authority.bytes[..]);
}

#[test]
fn readiness_is_the_opened_endpoint_line() {
    assert!(is_ready_line(b"INFO [10-11] IPC endpoint opened url=/tmp/x/geth.ipc"));
    assert!(!is_ready_line(b"INFO [10-11] Starting peer-to-peer node"));
    assert!(!is_ready_line(b""));
}

#[test]
fn miner_control_sequences() {
    let stop = stop_miner_calls();
    assert_eq!(stop.len(), 1);
    assert!(matches!(stop[0], MinerCall::StopMining));

    // Resuming first unlocks the authority account, then starts the miner.
    let start = start_miner_calls(addr(0x33));
    assert_eq!(start.len(), 2);
    match &start[0] {
        MinerCall::UnlockAccount { address, password } => {
            assert_eq!(address.bytes, vec![0x33; 20]);
            assert_eq!(password, &miner_password());
        },
        c => panic!("unexpected call: {:?}", std::mem::discriminant(c)),
    }
    assert!(matches!(start[1], MinerCall::StartMining));
    assert_eq!(miner_password(), b"testnet".to_vec());
}

#[test]
fn builder_setters_keep_other_fields() {
    let b = TestNetBuilder::new().geth_path(b"/usr/bin/geth".to_vec()).signing_key(vec![1u8; 32]);
    assert!(b.genesis.is_none());
    assert_eq!(b.geth_path.as_deref(), Some(&b"/usr/bin/geth"[..]));
    assert_eq!(b.signing_key.as_deref(), Some(&[1u8; 32][..]));
}

#[test]
fn uint256_byte_width_checks() {
    let v = Uint256 { l0: 7, l1: 9, l2: 0, l3: 0 };
    assert!(v.fits_u128());
    assert_eq!(v.to_u128(), 7u128 + (9u128 << 64));
    let w = Uint256 { l0: 0, l1: 0, l2: 1, l3: 0 };
    assert!(!w.fits_u128());
    assert_eq!(Uint256::zero(), Uint256::from_u64(0));
}

#[test]
fn node_command_lines() {
    let init = geth_init_args(b"/tmp/data".to_vec(), b"/tmp/data/genesis.json".to_vec());
    assert_eq!(
        init,
        vec![
            b"--datadir".to_vec(),
            b"/tmp/data".to_vec(),
            b"init".to_vec(),
            b"/tmp/data/genesis.json".to_vec(),
        ],
    );

    let run = geth_run_args(b"/tmp/data".to_vec());
    assert_eq!(run.len(), 15);
    // Isolated and non-discoverable, with mining off at startup.
    assert_eq!(run[0], b"--port=0".to_vec());
    assert_eq!(run[1], b"--nodiscover".to_vec());
    assert_eq!(run[2], b"--nat=none".to_vec());
    assert!(run.iter().all(|a| a != &b"--mine".to_vec()));
    assert_eq!(run[13], b"--datadir".to_vec());
    assert_eq!(run[14], b"/tmp/data".to_vec());
}
