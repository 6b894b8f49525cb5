//! What an agent is started with.

use vstd::prelude::*;
use vstd::string::StringExecFns;

verus! {

/// Seconds between two ticks of the inventory agent.
pub const INVENTORY_INTERVAL_SECS: u64 = 15;

/// Seconds between two ticks of the probe.
pub const PROBE_INTERVAL_SECS: u64 = 5;

/// Seconds after which a read or write on the runtime's socket is given up.
pub const SOCKET_TIMEOUT_SECS: u64 = 120;

/// Where a tick's data comes from, and where it goes.
#[derive(Clone, Copy, Debug, PartialEq, Eq, Structural)]
pub enum Mode {
    /// Take the inventory of the container runtime and post it to the status
    /// endpoint.
    Inventory,
    /// Get the endpoint; what it answers is the tick's whole result.
    Probe,
}

/// What becomes of the loop when the container runtime cannot be queried.
#[derive(Clone, Copy, Debug, PartialEq, Eq, Structural)]
pub enum OnFetchFailure {
    /// The failure is logged and the loop ends, without a shutdown notice.
    Stop,
    /// The failure is logged, the tick is given up, and the loop sleeps until
    /// the next one.
    Continue,
}

/// The settings of one agent. Nothing else is read at run time.
#[derive(Debug, PartialEq, Eq)]
pub struct Config {
    pub mode: Mode,
    /// Path of the container runtime's control socket (inventory only).
    pub socket_path: String,
    /// Read and write timeout on that socket, in seconds (inventory only).
    pub socket_timeout_secs: u64,
    /// The endpoint: posted to by the inventory agent, fetched by the probe.
    pub url: String,
    /// Value of the `x-agent-token` header (inventory only).
    pub token: String,
    /// Seconds of sleep between the end of one tick and the start of the next.
    pub interval_secs: u64,
    pub on_fetch_failure: OnFetchFailure,
}

/// A configuration as mathematics.
pub struct ConfigView {
    pub mode: Mode,
    pub socket_path: Seq<char>,
    pub socket_timeout_secs: u64,
    pub url: Seq<char>,
    pub token: Seq<char>,
    pub interval_secs: u64,
    pub on_fetch_failure: OnFetchFailure,
}

impl View for Config {
    type V = ConfigView;

    open spec fn view(&self) -> ConfigView {
        ConfigView {
            mode: self.mode,
            socket_path: self.socket_path@,
            socket_timeout_secs: self.socket_timeout_secs,
            url: self.url@,
            token: self.token@,
            interval_secs: self.interval_secs,
            on_fetch_failure: self.on_fetch_failure,
        }
    }
}

/// The settings of the inventory agent: the local runtime's socket, the
/// status endpoint on this host, a tick every fifteen seconds, and a loop that
/// ends when the runtime cannot be queried.
pub open spec fn inventory_defaults() -> ConfigView {
    ConfigView {
        mode: Mode::Inventory,
        socket_path: "/Users/arjunkomath/.docker/run/docker.sock"@,
        socket_timeout_secs: SOCKET_TIMEOUT_SECS,
        url: "http://localhost:3000/api/v1/agent/status"@,
        token: "10dbcfc6-9e9b-478f-be81-bbd8b1df176e"@,
        interval_secs: INVENTORY_INTERVAL_SECS,
        on_fetch_failure: OnFetchFailure::Stop,
    }
}

/// The settings of the probe: one endpoint, fetched every five seconds, with
/// failures logged and passed over.
pub open spec fn probe_defaults() -> ConfigView {
    ConfigView {
        mode: Mode::Probe,
        socket_path: Seq::empty(),
        socket_timeout_secs: SOCKET_TIMEOUT_SECS,
        url: "https://example.com/api"@,
        token: Seq::empty(),
        interval_secs: PROBE_INTERVAL_SECS,
        on_fetch_failure: OnFetchFailure::Continue,
    }
}

impl Config {
    /// The inventory agent's settings.
    pub fn inventory() -> (config: Config)
        ensures
            config@ == inventory_defaults(),
    {
        Config {
            mode: Mode::Inventory,
            socket_path: String::from_str("/Users/arjunkomath/.docker/run/docker.sock"),
            socket_timeout_secs: SOCKET_TIMEOUT_SECS,
            url: String::from_str("http://localhost:3000/api/v1/agent/status"),
            token: String::from_str("10dbcfc6-9e9b-478f-be81-bbd8b1df176e"),
            interval_secs: INVENTORY_INTERVAL_SECS,
            on_fetch_failure: OnFetchFailure::Stop,
        }
    }

    /// The probe's settings.
    pub fn probe() -> (config: Config)
        ensures
            config@ == probe_defaults(),
    {
        Config {
            mode: Mode::Probe,
            socket_path: String::new(),
            socket_timeout_secs: SOCKET_TIMEOUT_SECS,
            url: String::from_str("https://example.com/api"),
            token: String::new(),
            interval_secs: PROBE_INTERVAL_SECS,
            on_fetch_failure: OnFetchFailure::Continue,
        }
    }
}

} // verus!
