//! What this host calls itself: its name and the address chosen for it.

use vstd::prelude::*;
use pnet::ipnetwork::IpNetwork;
use crate::address::{
    each_has_prefix_length, gathered, interface_models, is_proper_ip,
    lemma_gathered_has_prefix_lengths, lemma_proper_address_has_prefix_length, models,
    proper_address, AddressModel, AddressSet, Family, NetworkAddress,
};

verus! {

/// The name and address under which a host signs its log lines.
#[derive(Clone, Debug, PartialEq, Eq)]
pub struct HostIdentity {
    pub name: String,
    pub ip: String,
}

/// Calls `gethostname::gethostname` and reads the answer as text, bytes that
/// are not UTF-8 replaced. Trusted, and nothing is claimed of the name: it is
/// whatever the system holds when asked. On Windows the call is documented to
/// panic where the name changes between the two system calls that it makes.
#[verifier::external_body]
pub fn hostname() -> (r: String) {
    gethostname::gethostname().to_string_lossy().to_string()
}

/// Calls `pnet::datalink::interfaces` and hands out, interface by interface,
/// each address with its family and its text. Trusted: each text is written
/// as the address type writes itself, the address, a slash and the length of
/// the prefix. Nothing else is claimed of the addresses: they are whatever
/// the system lists when asked.
#[verifier::external_body]
fn interface_addresses() -> (r: Vec<Vec<NetworkAddress>>)
    ensures
        forall|k: int| 0 <= k < r@.len() ==> each_has_prefix_length(models((#[trigger] r@[k])@)),
{
    pnet::datalink::interfaces()
        .into_iter()
        .map(|interface| {
            interface.ips.into_iter().map(|ip| match ip {
                IpNetwork::V4(net) => NetworkAddress { family: Family::V4, text: net.to_string() },
                IpNetwork::V6(net) => NetworkAddress { family: Family::V6, text: net.to_string() },
            }).collect()
        })
        .collect()
}

/// The addresses of all interfaces of this host, each once, as they are
/// listed at the time of the call, each written with its prefix length.
pub fn host_addresses() -> (r: AddressSet)
    ensures
        r@.no_duplicates(),
        each_has_prefix_length(r@),
{
    let interfaces = interface_addresses();
    let set = AddressSet::gather(&interfaces);
    proof {
        let listed = interface_models(interfaces@);
        assert forall|k: int| 0 <= k < listed.len() implies each_has_prefix_length(
            #[trigger] listed[k],
        ) by {
            assert(listed[k] == models(interfaces@[k]@));
        }
        lemma_gathered_has_prefix_lengths(listed);
    }
    set
}

/// The address that stands for this host, chosen by
/// [`AddressSet::select_proper_address`] among the addresses that its
/// interfaces carry at the time of the call; empty where they carry none,
/// else written with its prefix length. Nothing is kept between calls.
pub fn get_proper_ip() -> (r: String)
    ensures
        exists|held: Seq<AddressModel>|
            held.no_duplicates() && each_has_prefix_length(held) && (r@.len() == 0 <==> held.len()
                == 0) && r@ == #[trigger] proper_address(held),
        r@.len() == 0 || r@.contains('/'),
{
    let set = host_addresses();
    let r = set.select_proper_address();
    proof {
        lemma_proper_address_has_prefix_length(set@);
        assert(r@ == proper_address(set@));
    }
    r
}

/// The name and the chosen address of this host, both read now. Of the name
/// nothing is known; the address is as [`get_proper_ip`] gives it.
pub fn host_identity() -> (r: HostIdentity)
    ensures
        is_proper_ip(r.ip@),
{
    HostIdentity { name: hostname(), ip: get_proper_ip() }
}

} // verus!
