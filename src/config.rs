//! The values the tunnel is configured with.

use vstd::prelude::*;

verus! {

/// Worker pairs that run when the configuration names no count.
pub const DEFAULT_WORKER_PAIRS: usize = 2;

/// The tunnel's configuration, as given on the command line.
pub struct Args {
    /// Local address to bind the raw socket to; an IPv4 or IPv6 literal,
    /// which picks the address family.
    pub src_addr: String,
    /// The peer's address, of the same family.
    pub dst_addr: String,
    /// Name for the virtual interface, if one is wanted.
    pub device_name: Option<String>,
    /// Number of worker pairs.
    pub threads: usize,
    /// Address and prefix to assign to the virtual interface, if any.
    pub address: Option<String>,
}

impl Args {
    /// A configuration between two addresses, with the default worker count
    /// and no interface name or address.
    pub fn new(src_addr: String, dst_addr: String) -> (args: Args)
        ensures
            args.src_addr == src_addr,
            args.dst_addr == dst_addr,
            args.device_name is None,
            args.threads == DEFAULT_WORKER_PAIRS,
            args.address is None,
    {
        Args { src_addr, dst_addr, device_name: None, threads: DEFAULT_WORKER_PAIRS, address: None }
    }
}

} // verus!
