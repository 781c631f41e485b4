use relayer_fees::driver::{BalanceQuery, ChainDriver};
use relayer_fees::escrow::{Token, WalletAddress};
use relayer_fees::retry::{Action, Outcome};
use relayer_fees::text::render_decimal;

fn driver(ipv6_grpc: bool) -> ChainDriver {
    ChainDriver::create(
        "gaiad".to_string(),
        "ibc-0".to_string(),
        "/tmp/ibc-0".to_string(),
        "cosmos".to_string(),
        26657,
        9090,
        9091,
        26656,
        6060,
        None,
        ipv6_grpc,
    )
}

#[test]
fn create_keeps_every_parameter() {
    let made = ChainDriver::create(
        "gaiad".to_string(),
        "ibc-0".to_string(),
        "/tmp/ibc-0".to_string(),
        "cosmos".to_string(),
        1,
        2,
        3,
        4,
        5,
        Some("0.37".to_string()),
        true,
    );
    assert_eq!(
        made,
        ChainDriver {
            command_path: "gaiad".to_string(),
            chain_id: "ibc-0".to_string(),
            home_path: "/tmp/ibc-0".to_string(),
            account_prefix: "cosmos".to_string(),
            rpc_port: 1,
            grpc_port: 2,
            grpc_web_port: 3,
            p2p_port: 4,
            pprof_port: 5,
            compat_mode: Some("0.37".to_string()),
            ipv6_grpc: true,
        }
    );
}

#[test]
fn addresses_carry_scheme_host_and_port() {
    let d = driver(false);
    assert_eq!(d.rpc_address(), "http://localhost:26657");
    assert_eq!(d.websocket_address(), "ws://localhost:26657/websocket");
    assert_eq!(d.grpc_address(), "http://127.0.0.1:9090");
    assert_eq!(d.tx_grpc_address(), "http://localhost:9090");
    assert_eq!(d.rpc_listen_address(), "tcp://localhost:26657");
    assert_eq!(d.grpc_listen_address(), "127.0.0.1:9090");
}

#[test]
fn grpc_addresses_follow_the_ipv6_preference() {
    let d = driver(true);
    assert_eq!(d.grpc_address(), "http://[::1]:9090");
    assert_eq!(d.tx_grpc_address(), "http://[::1]:9090");
    assert_eq!(d.grpc_listen_address(), "[::1]:9090");
    assert_eq!(d.rpc_address(), "http://localhost:26657");
    assert_eq!(d.rpc_listen_address(), "tcp://localhost:26657");
}

#[test]
fn addresses_of_the_smallest_and_largest_port() {
    let mut d = driver(false);
    d.rpc_port = 0;
    d.grpc_port = 65535;
    assert_eq!(d.rpc_address(), "http://localhost:0");
    assert_eq!(d.websocket_address(), "ws://localhost:0/websocket");
    assert_eq!(d.grpc_address(), "http://127.0.0.1:65535");
    assert_eq!(d.grpc_listen_address(), "127.0.0.1:65535");
}

#[test]
fn environment_names_command_home_and_addresses() {
    let vars = driver(false).export_env();
    assert_eq!(
        vars,
        vec![
            ("CMD".to_string(), "gaiad".to_string()),
            ("HOME".to_string(), "/tmp/ibc-0".to_string()),
            ("RPC_ADDR".to_string(), "http://localhost:26657".to_string()),
            ("GRPC_ADDR".to_string(), "http://127.0.0.1:9090".to_string()),
        ]
    );
}

#[test]
fn balance_query_names_node_wallet_and_denom() {
    let wallet = WalletAddress("cosmos1wallet".to_string());
    assert_eq!(
        driver(false).balance_query(&wallet, "uatom"),
        BalanceQuery {
            chain_id: "ibc-0".to_string(),
            command_path: "gaiad".to_string(),
            rpc_listen_address: "tcp://localhost:26657".to_string(),
            wallet_address: "cosmos1wallet".to_string(),
            denom: "uatom".to_string(),
        }
    );
}

#[test]
fn wallet_verification_starts_with_the_standard_budget() {
    let wallet = WalletAddress("cosmos1wallet".to_string());
    let token = Token { denom: "uatom".to_string(), amount: 1000 };
    let mut retry = driver(false).eventual_wallet_amount(&wallet, &token);
    assert_eq!(retry.action(), Action::Poll { delay_secs: 0 });
    let mut looks = 0;
    while let Action::Poll { delay_secs } = retry.action() {
        assert_eq!(delay_secs, if looks == 0 { 0 } else { 1 });
        retry.record(relayer_fees::escrow::check_wallet_amount(None, token.amount));
        looks += 1;
    }
    assert_eq!(looks, 90);
    let error = retry.result().unwrap().unwrap_err();
    assert_eq!(error.description, "wallet reach cosmos1wallet amount 1000uatom");
    assert_eq!(
        error.outcome,
        Outcome::Exhausted {
            attempts: 90,
            last_failure: Some(relayer_fees::escrow::Failure::QueryFailed),
        }
    );
}

#[test]
fn decimal_notation_of_integers() {
    assert_eq!(render_decimal(0), "0");
    assert_eq!(render_decimal(7), "7");
    assert_eq!(render_decimal(10), "10");
    assert_eq!(render_decimal(1234567890), "1234567890");
    assert_eq!(render_decimal(u128::MAX), u128::MAX.to_string());
    for n in [9u128, 99, 100, 101, 65535, 1_000_000_000_000_000_000] {
        assert_eq!(render_decimal(n), n.to_string());
    }
}
