//! What a runner has to know before it starts: the hosts, how long to rest
//! between rounds, and where the log is.

use crate::monitor::{MonitorView, ReachabilityMonitor};
use vstd::prelude::*;

verus! {

/// The settings of a runner.
#[derive(Debug, PartialEq, Eq)]
pub struct Config {
    /// The gateway of the local network.
    pub gateway: String,
    /// The internet host that is probed in every round.
    pub primary: String,
    /// The internet hosts that are asked when the primary host fails, in
    /// the order in which they are asked.
    pub fallbacks: Vec<String>,
    /// The rest between two rounds, in seconds.
    pub interval_secs: u64,
    /// The file to which the records are appended.
    pub log_path: String,
}

/// A [`Config`] as plain values.
pub struct ConfigView {
    pub gateway: Seq<char>,
    pub primary: Seq<char>,
    pub fallbacks: Seq<Seq<char>>,
    pub interval_secs: u64,
    pub log_path: Seq<char>,
}

impl View for Config {
    type V = ConfigView;

    open spec fn view(&self) -> ConfigView {
        ConfigView {
            gateway: self.gateway@,
            primary: self.primary@,
            fallbacks: self.fallbacks.deep_view(),
            interval_secs: self.interval_secs,
            log_path: self.log_path@,
        }
    }
}

impl ConfigView {
    /// The settings of a home network behind a router at 192.168.1.1, with
    /// two public name servers and a web site as internet hosts and a
    /// quarter of a minute between rounds.
    pub open spec fn standard() -> ConfigView {
        ConfigView {
            gateway: "192.168.1.1"@,
            primary: "8.8.8.8"@,
            fallbacks: seq!["4.2.2.2"@, "bbc.co.uk"@],
            interval_secs: 15,
            log_path: "/home/j/Documents/downtime.log"@,
        }
    }
}

impl Default for Config {
    fn default() -> (config: Config)
        ensures
            config@ == ConfigView::standard(),
    {
        let mut fallbacks: Vec<String> = Vec::new();
        fallbacks.push("4.2.2.2".to_owned());
        fallbacks.push("bbc.co.uk".to_owned());
        assert(fallbacks.deep_view() == seq!["4.2.2.2"@, "bbc.co.uk"@]);
        Config {
            gateway: "192.168.1.1".to_owned(),
            primary: "8.8.8.8".to_owned(),
            fallbacks,
            interval_secs: 15,
            log_path: "/home/j/Documents/downtime.log".to_owned(),
        }
    }
}

impl Config {
    /// A monitor for the hosts of these settings that has not probed yet.
    pub fn monitor(&self) -> (monitor: ReachabilityMonitor)
        ensures
            monitor@ == MonitorView::fresh(self@.gateway, self@.primary, self@.fallbacks),
            monitor@.wf(),
    {
        ReachabilityMonitor::new(self.gateway.as_str(), self.primary.as_str(), &self.fallbacks)
    }
}

} // verus!
