//! The relay's configuration: where to listen, which upstreams to use, and
//! how much to log.
use vstd::prelude::*;

use crate::address::SocketAddress;
use crate::verbosity::ArgVerbosity;

verus! {

/// The port of plaintext DNS.
pub const DNS_PORT: u16 = 53;

/// The largest datagram a listener takes in when no other size is given:
/// room for EDNS0-extended DNS messages.
pub const DEFAULT_MAX_DATAGRAM: usize = 4096;

/// The upstream used when none is given.
pub open spec fn default_upstream_url() -> Seq<char> {
    "https://1.1.1.1/dns-query"@
}

/// The listeners used when no bind address is given: loopback IPv4 and IPv6
/// on the DNS port.
pub open spec fn default_binds() -> Seq<SocketAddress> {
    seq![
        SocketAddress { ip: crate::address::IpAddress::V4([127, 0, 0, 1]), port: DNS_PORT },
        SocketAddress {
            ip: crate::address::IpAddress::V6([0, 0, 0, 0, 0, 0, 0, 0, 0, 0, 0, 0, 0, 0, 0, 1]),
            port: DNS_PORT,
        },
    ]
}

/// The relay's configuration.
#[derive(Debug, Clone, PartialEq, Eq)]
pub struct Args {
    /// The addresses to listen on, one listener each.
    pub bind: Vec<SocketAddress>,
    /// The upstream resolvers, in the order they are tried.
    pub upstream_urls: Vec<String>,
    /// How much to log.
    pub verbosity: ArgVerbosity,
    /// The largest datagram, in bytes, a listener takes in.
    pub max_datagram: usize,
}

impl Default for Args {
    /// No bind address, no upstream, `Info` logging.
    fn default() -> (r: Args)
        ensures
            r.bind@.len() == 0,
            r.upstream_urls@.len() == 0,
            r.verbosity == ArgVerbosity::Info,
            r.max_datagram == DEFAULT_MAX_DATAGRAM,
    {
        Args {
            bind: Vec::new(),
            upstream_urls: Vec::new(),
            verbosity: ArgVerbosity::Info,
            max_datagram: DEFAULT_MAX_DATAGRAM,
        }
    }
}

impl Args {
    /// Adds a bind address after those already there.
    pub fn bind(&mut self, bind: SocketAddress) -> (r: &mut Self)
        ensures
            r.bind@ == old(self).bind@.push(bind),
            r.upstream_urls@ == old(self).upstream_urls@,
            r.verbosity == old(self).verbosity,
            r.max_datagram == old(self).max_datagram,
            *final(self) == *final(r),
    {
        self.bind.push(bind);
        self
    }

    /// Adds an upstream after those already there.
    pub fn upstream_url(&mut self, url: String) -> (r: &mut Self)
        ensures
            r.bind@ == old(self).bind@,
            r.upstream_urls@ == old(self).upstream_urls@.push(url),
            r.verbosity == old(self).verbosity,
            r.max_datagram == old(self).max_datagram,
            *final(self) == *final(r),
    {
        self.upstream_urls.push(url);
        self
    }

    /// Sets the verbosity.
    pub fn verbosity(&mut self, verbosity: ArgVerbosity) -> (r: &mut Self)
        ensures
            r.bind@ == old(self).bind@,
            r.upstream_urls@ == old(self).upstream_urls@,
            r.verbosity == verbosity,
            r.max_datagram == old(self).max_datagram,
            *final(self) == *final(r),
    {
        self.verbosity = verbosity;
        self
    }

    /// Sets the largest datagram a listener takes in.
    pub fn max_datagram(&mut self, max_datagram: usize) -> (r: &mut Self)
        ensures
            r.bind@ == old(self).bind@,
            r.upstream_urls@ == old(self).upstream_urls@,
            r.verbosity == old(self).verbosity,
            r.max_datagram == max_datagram,
            *final(self) == *final(r),
    {
        self.max_datagram = max_datagram;
        self
    }

    /// The configuration of an embedded relay: the bind addresses given, in
    /// order, or loopback IPv4 and IPv6 on the DNS port when none is; the
    /// upstream given, or the default one.
    pub fn for_embedding(
        bind1: Option<SocketAddress>,
        bind2: Option<SocketAddress>,
        upstream_url: Option<String>,
        verbosity: ArgVerbosity,
    ) -> (r: Args)
        ensures
            r.bind@ == (match (bind1, bind2) {
                (None, None) => default_binds(),
                (Some(a), None) => seq![a],
                (None, Some(b)) => seq![b],
                (Some(a), Some(b)) => seq![a, b],
            }),
            r.upstream_urls@.len() == 1,
            r.upstream_urls@[0]@ == (match upstream_url {
                Some(u) => u@,
                None => default_upstream_url(),
            }),
            r.verbosity == verbosity,
            r.max_datagram == DEFAULT_MAX_DATAGRAM,
    {
        let mut args = Args::default();
        if let Some(a) = bind1 {
            args.bind(a);
        }
        if let Some(b) = bind2 {
            args.bind(b);
        }
        if args.bind.len() == 0 {
            args.bind(SocketAddress::v4([127, 0, 0, 1], DNS_PORT));
            args.bind(SocketAddress::v6([0, 0, 0, 0, 0, 0, 0, 0, 0, 0, 0, 0, 0, 0, 0, 1], DNS_PORT));
            assert(args.bind@ =~= default_binds());
        }
        let url = match upstream_url {
            Some(u) => u,
            None => {
                let u = "https://1.1.1.1/dns-query".to_owned();
                proof {
                    reveal_strlit("https://1.1.1.1/dns-query");
                }
                u
            },
        };
        args.upstream_url(url);
        args.verbosity(verbosity);
        args
    }
}

/// How a run of an embedded relay ended.
#[derive(Debug, Clone, Copy, PartialEq, Eq, Structural)]
pub enum RunOutcome {
    /// The async runtime could not be built.
    RuntimeUnavailable,
    /// The relay's loop ended with an error.
    LoopFailed,
    /// The relay ran and was stopped.
    Completed,
}

/// The status an embedded relay reports: 0 on success, and a distinct
/// negative code for each way of failing.
pub fn run_status(outcome: RunOutcome) -> (r: i32)
    ensures
        outcome == RunOutcome::Completed <==> r == 0,
        outcome == RunOutcome::RuntimeUnavailable <==> r == -3,
        outcome == RunOutcome::LoopFailed <==> r == -4,
{
    match outcome {
        RunOutcome::RuntimeUnavailable => -3,
        RunOutcome::LoopFailed => -4,
        RunOutcome::Completed => 0,
    }
}

} // verus!
