//! The connection parameters of one full node, the addresses derived
//! from them, and the verifications that are run against its wallets.

use crate::escrow::{Token, WalletAddress};
use crate::retry::{started, Retry, RetryBudget};
use crate::text::{decimal_text, render_decimal};
use vstd::prelude::*;

verus! {

/// The parameters under which one full node is reached and run.
#[derive(Debug, PartialEq, Eq)]
pub struct ChainDriver {
    /// Path of the command that controls the node.
    pub command_path: String,
    /// Identifier of the chain.
    pub chain_id: String,
    /// Directory in which the node keeps its files.
    pub home_path: String,
    /// Prefix of the chain's account addresses.
    pub account_prefix: String,
    pub rpc_port: u16,
    pub grpc_port: u16,
    pub grpc_web_port: u16,
    pub p2p_port: u16,
    pub pprof_port: u16,
    /// Version of the node interface to stay compatible with, if fixed.
    pub compat_mode: Option<String>,
    /// Whether GRPC is reached over the IPv6 loopback address.
    pub ipv6_grpc: bool,
}

/// The arguments of one balance query.
#[derive(Debug, PartialEq, Eq)]
pub struct BalanceQuery {
    pub chain_id: String,
    pub command_path: String,
    pub rpc_listen_address: String,
    pub wallet_address: String,
    pub denom: String,
}

/// `http://localhost:` and the port.
pub open spec fn rpc_address_of(port: u16) -> Seq<char> {
    "http://localhost:"@ + decimal_text(port as nat)
}

/// `ws://localhost:`, the port, and `/websocket`.
pub open spec fn websocket_address_of(port: u16) -> Seq<char> {
    "ws://localhost:"@ + decimal_text(port as nat) + "/websocket"@
}

/// `http://` with the loopback address of the chosen family, and the port.
pub open spec fn grpc_address_of(port: u16, ipv6: bool) -> Seq<char> {
    if ipv6 {
        "http://[::1]:"@ + decimal_text(port as nat)
    } else {
        "http://127.0.0.1:"@ + decimal_text(port as nat)
    }
}

/// `http://` with the loopback address by name, or the IPv6 loopback
/// address, and the port.
pub open spec fn tx_grpc_address_of(port: u16, ipv6: bool) -> Seq<char> {
    if ipv6 {
        "http://[::1]:"@ + decimal_text(port as nat)
    } else {
        "http://localhost:"@ + decimal_text(port as nat)
    }
}

/// `tcp://localhost:` and the port.
pub open spec fn rpc_listen_address_of(port: u16) -> Seq<char> {
    "tcp://localhost:"@ + decimal_text(port as nat)
}

/// The loopback address of the chosen family and the port, without a
/// scheme.
pub open spec fn grpc_listen_address_of(port: u16, ipv6: bool) -> Seq<char> {
    if ipv6 {
        "[::1]:"@ + decimal_text(port as nat)
    } else {
        "127.0.0.1:"@ + decimal_text(port as nat)
    }
}

/// A token in writing: the amount, then the denomination.
pub open spec fn token_text(token: &Token) -> Seq<char> {
    decimal_text(token.amount as nat) + token.denom@
}

/// What a verification of a wallet's balance is called.
pub open spec fn wallet_amount_description(wallet: &WalletAddress, token: &Token) -> Seq<char> {
    "wallet reach "@ + wallet.0@ + " amount "@ + token_text(token)
}

/// A prefix followed by a port in decimal notation.
fn with_port(prefix: &str, port: u16) -> (text: String)
    ensures
        text@ == prefix@ + decimal_text(port as nat),
{
    let mut text = prefix.to_owned();
    let digits = render_decimal(port as u128);
    text.append(digits.as_str());
    text
}

impl ChainDriver {
    /// Gathers the parameters of one node.
    pub fn create(
        command_path: String,
        chain_id: String,
        home_path: String,
        account_prefix: String,
        rpc_port: u16,
        grpc_port: u16,
        grpc_web_port: u16,
        p2p_port: u16,
        pprof_port: u16,
        compat_mode: Option<String>,
        ipv6_grpc: bool,
    ) -> (driver: ChainDriver)
        ensures
            driver == (ChainDriver {
                command_path,
                chain_id,
                home_path,
                account_prefix,
                rpc_port,
                grpc_port,
                grpc_web_port,
                p2p_port,
                pprof_port,
                compat_mode,
                ipv6_grpc,
            }),
    {
        ChainDriver {
            command_path,
            chain_id,
            home_path,
            account_prefix,
            rpc_port,
            grpc_port,
            grpc_web_port,
            p2p_port,
            pprof_port,
            compat_mode,
            ipv6_grpc,
        }
    }

    /// The full URL of the RPC address.
    pub fn rpc_address(&self) -> (url: String)
        ensures
            url@ == rpc_address_of(self.rpc_port),
    {
        with_port("http://localhost:", self.rpc_port)
    }

    /// The full URL of the WebSocket address.
    pub fn websocket_address(&self) -> (url: String)
        ensures
            url@ == websocket_address_of(self.rpc_port),
    {
        let mut url = with_port("ws://localhost:", self.rpc_port);
        url.append("/websocket");
        url
    }

    /// The full URL of the GRPC address.
    pub fn grpc_address(&self) -> (url: String)
        ensures
            url@ == grpc_address_of(self.grpc_port, self.ipv6_grpc),
    {
        if self.ipv6_grpc {
            with_port("http://[::1]:", self.grpc_port)
        } else {
            with_port("http://127.0.0.1:", self.grpc_port)
        }
    }

    /// The URL of the GRPC address as transactions are configured with
    /// it: by host name unless IPv6 is chosen.
    pub fn tx_grpc_address(&self) -> (url: String)
        ensures
            url@ == tx_grpc_address_of(self.grpc_port, self.ipv6_grpc),
    {
        if self.ipv6_grpc {
            with_port("http://[::1]:", self.grpc_port)
        } else {
            with_port("http://localhost:", self.grpc_port)
        }
    }

    /// The address on which the node listens for RPC, with the `tcp`
    /// scheme that the node asks for.
    pub fn rpc_listen_address(&self) -> (address: String)
        ensures
            address@ == rpc_listen_address_of(self.rpc_port),
    {
        with_port("tcp://localhost:", self.rpc_port)
    }

    /// The address on which the node listens for GRPC, which takes no
    /// scheme.
    pub fn grpc_listen_address(&self) -> (address: String)
        ensures
            address@ == grpc_listen_address_of(self.grpc_port, self.ipv6_grpc),
    {
        if self.ipv6_grpc {
            with_port("[::1]:", self.grpc_port)
        } else {
            with_port("127.0.0.1:", self.grpc_port)
        }
    }

    /// The variables that describe this node to its environment, in the
    /// order in which they are written: command, home directory, RPC
    /// address and GRPC address.
    pub fn export_env(&self) -> (vars: Vec<(String, String)>)
        ensures
            vars@.len() == 4,
            vars@[0].0@ == "CMD"@ && vars@[0].1@ == self.command_path@,
            vars@[1].0@ == "HOME"@ && vars@[1].1@ == self.home_path@,
            vars@[2].0@ == "RPC_ADDR"@ && vars@[2].1@ == rpc_address_of(self.rpc_port),
            vars@[3].0@ == "GRPC_ADDR"@ && vars@[3].1@ == grpc_address_of(
                self.grpc_port,
                self.ipv6_grpc,
            ),
    {
        let mut vars: Vec<(String, String)> = Vec::new();
        vars.push(("CMD".to_owned(), self.command_path.clone()));
        vars.push(("HOME".to_owned(), self.home_path.clone()));
        vars.push(("RPC_ADDR".to_owned(), self.rpc_address()));
        vars.push(("GRPC_ADDR".to_owned(), self.grpc_address()));
        vars
    }

    /// The arguments with which the balance of a wallet in one
    /// denomination is queried from this node.
    pub fn balance_query(&self, wallet_id: &WalletAddress, denom: &str) -> (query: BalanceQuery)
        ensures
            query.chain_id@ == self.chain_id@,
            query.command_path@ == self.command_path@,
            query.rpc_listen_address@ == rpc_listen_address_of(self.rpc_port),
            query.wallet_address@ == wallet_id.0@,
            query.denom@ == denom@,
    {
        BalanceQuery {
            chain_id: self.chain_id.clone(),
            command_path: self.command_path.clone(),
            rpc_listen_address: self.rpc_listen_address(),
            wallet_address: wallet_id.0.clone(),
            denom: denom.to_owned(),
        }
    }

    /// Starts the verification that a wallet comes to hold a token
    /// amount, within the standard budget. The same verification serves
    /// for an escrowed amount: only the judgement of each look differs.
    pub fn eventual_wallet_amount(&self, wallet: &WalletAddress, token: &Token) -> (retry: Retry)
        ensures
            retry@ == started(
                wallet_amount_description(wallet, token),
                RetryBudget { attempts: 90, delay_secs: 1 },
            ),
            retry@.wf(),
    {
        let mut description = "wallet reach ".to_owned();
        description.append(wallet.0.as_str());
        description.append(" amount ");
        let amount = render_decimal(token.amount);
        description.append(amount.as_str());
        description.append(token.denom.as_str());
        assert(description@ =~= wallet_amount_description(wallet, token));
        Retry::new(description, RetryBudget::standard())
    }
}

} // verus!
