//! Fixed-stream clients: one trade stream named in the endpoint, and the
//! user-data stream of a listen key.

use vstd::prelude::*;
use vstd::string::*;

use crate::client::{MAINNET_WS_BASE_URL, TESTNET_WS_BASE_URL};
use crate::stats::{rate_centi_spec, stats_report, StatsReport};
use crate::topic::{lower_of, lowercase};

verus! {

/// Endpoint of the futures test network's user-data stream.
pub const FUTURES_TESTNET_WS_BASE_URL: &'static str = "wss://fstream.binancefuture.com/ws";

/// A client of the trade stream of one symbol, named in the endpoint.
pub struct BinancePublicWebSocket {
    ws_url: String,
    symbol: String,
}

impl BinancePublicWebSocket {
    /// The endpoint's base.
    pub closed spec fn url(&self) -> Seq<char> {
        self.ws_url@
    }

    /// The symbol, lower-cased.
    pub closed spec fn symbol_spec(&self) -> Seq<char> {
        self.symbol@
    }

    /// A client for a symbol on the main or the test network.
    pub fn new(symbol: &str, use_testnet: bool) -> (r: Self)
        ensures
            r.url() == (if use_testnet { TESTNET_WS_BASE_URL@ } else { MAINNET_WS_BASE_URL@ }),
            r.symbol_spec() == lower_of(symbol@),
    {
        let ws_url = if use_testnet {
            String::from_str(TESTNET_WS_BASE_URL)
        } else {
            String::from_str(MAINNET_WS_BASE_URL)
        };
        BinancePublicWebSocket { ws_url, symbol: lowercase(symbol) }
    }

    /// The name of the symbol's trade stream: `<symbol>@trade`.
    pub fn stream_name(&self) -> (r: String)
        ensures
            r@ == self.symbol_spec() + "@trade"@,
    {
        let mut s = self.symbol.clone();
        s.append("@trade");
        s
    }

    /// The endpoint of the symbol's trade stream: `<base>/<stream name>`.
    pub fn stream_url(&self) -> (r: String)
        ensures
            r@ == self.url() + "/"@ + self.symbol_spec() + "@trade"@,
    {
        let mut s = self.ws_url.clone();
        s.append("/");
        let name = self.stream_name();
        s.append(name.as_str());
        s
    }

    /// The figures of the periodic stats report.
    pub fn print_stats(&self, elapsed_millis: u64, message_count: u64) -> (r: StatsReport)
        ensures
            r.message_count == message_count,
            r.rate_centi == rate_centi_spec(message_count as nat, elapsed_millis as nat),
    {
        stats_report(message_count, elapsed_millis)
    }
}

/// A client of the user-data stream of a listen key.
pub struct BinanceWebSocketClient {
    ws_url: String,
}

impl BinanceWebSocketClient {
    /// The endpoint.
    pub closed spec fn url(&self) -> Seq<char> {
        self.ws_url@
    }

    /// A client whose endpoint is `<futures test network base>/<listen key>`.
    pub fn new(listen_key: String) -> (r: Self)
        ensures
            r.url() == FUTURES_TESTNET_WS_BASE_URL@ + "/"@ + listen_key@,
    {
        let mut ws_url = String::from_str(FUTURES_TESTNET_WS_BASE_URL);
        ws_url.append("/");
        ws_url.append(listen_key.as_str());
        BinanceWebSocketClient { ws_url }
    }

    /// The endpoint.
    pub fn ws_url(&self) -> (r: &str)
        ensures
            r@ == self.url(),
    {
        self.ws_url.as_str()
    }
}

} // verus!
