//! Port names that select a bridge.
use vstd::prelude::*;

verus! {

/// Prefix of a port name that selects a bridge in place of a serial device,
/// as in `bridge://192.168.1.50`.
pub const PORT_PREFIX: &'static str = "bridge://";

/// The port name that selects the bridge at `host`.
pub open spec fn bridge_name(host: Seq<char>) -> Seq<char> {
    PORT_PREFIX@ + host
}

/// The bridge host that a port name selects, if it selects one.
pub open spec fn host_of(port: Seq<char>) -> Option<Seq<char>> {
    if PORT_PREFIX@.is_prefix_of(port) {
        Some(port.skip(PORT_PREFIX@.len() as int))
    } else {
        None
    }
}

/// Returns the host if `port` names a bridge.
pub fn target_host(port: &str) -> (r: Option<&str>)
    ensures
        match r {
            Some(host) => host_of(port@) == Some(host@),
            None => host_of(port@) is None,
        },
        r matches Some(host) ==> port@ == PORT_PREFIX@ + host@,
        r is None ==> forall|host: Seq<char>| port@ != PORT_PREFIX@ + host,
{
    let prefix_len: usize = PORT_PREFIX.unicode_len();
    let port_len: usize = port.unicode_len();
    proof {
        law_names_select_their_host(port@);
    }
    if port_len < prefix_len {
        return None;
    }
    let mut i: usize = 0;
    while i < prefix_len
        invariant
            i <= prefix_len <= port_len,
            prefix_len == PORT_PREFIX@.len(),
            port_len == port@.len(),
            forall|j: int| 0 <= j < i ==> PORT_PREFIX@[j] == port@[j],
        decreases prefix_len - i,
    {
        if PORT_PREFIX.get_char(i) != port.get_char(i) {
            return None;
        }
        i += 1;
    }
    Some(port.substring_char(prefix_len, port_len))
}

/// The port name that selects the bridge at `host`, as a string.
pub fn bridge_port_name(host: &str) -> (r: String)
    ensures
        r@ == bridge_name(host@),
        r@ == PORT_PREFIX@ + host@,
{
    PORT_PREFIX.to_owned().concat(host)
}

/// A port name selects the bridge at `host` exactly when it is the prefix
/// followed by that host. So no two hosts share a name, and the name of a
/// bridge port, given back as a port name, selects the same bridge.
pub proof fn law_names_select_hosts(port: Seq<char>, host: Seq<char>)
    ensures
        host_of(port) == Some(host) <==> port == bridge_name(host),
        host_of(bridge_name(host)) == Some(host),
{
    let name: Seq<char> = bridge_name(host);
    assert(PORT_PREFIX@.is_prefix_of(name));
    assert(name.skip(PORT_PREFIX@.len() as int) == host);
    if PORT_PREFIX@.is_prefix_of(port) {
        assert(port == PORT_PREFIX@ + port.skip(PORT_PREFIX@.len() as int));
    }
}

/// Every name that starts with the prefix selects what follows the prefix, all
/// of it. A name selects a host only if it is the prefix followed by that
/// host, and selects none only if it is not the prefix followed by anything.
pub proof fn law_names_select_their_host(port: Seq<char>)
    ensures
        PORT_PREFIX@ == "bridge://"@,
        forall|host: Seq<char>| #[trigger] host_of(PORT_PREFIX@ + host) == Some(host),
        forall|host: Seq<char>| host_of(port) == Some(host) ==> port == PORT_PREFIX@ + host,
        host_of(port) is None ==> forall|host: Seq<char>| port != PORT_PREFIX@ + host,
        forall|host: Seq<char>| #[trigger] bridge_name(host) == PORT_PREFIX@ + host,
{
    assert forall|host: Seq<char>| #[trigger] host_of(PORT_PREFIX@ + host) == Some(host) by {
        law_names_select_hosts(PORT_PREFIX@ + host, host);
    }
    assert forall|host: Seq<char>| host_of(port) == Some(host) implies port == PORT_PREFIX@
        + host by {
        law_names_select_hosts(port, host);
    }
    if host_of(port) is None {
        assert forall|host: Seq<char>| port != PORT_PREFIX@ + host by {
            law_names_select_hosts(port, host);
        }
    }
}

/// [`target_host`] finds the whole host behind the prefix, whatever the host,
/// and finds none where the prefix is missing.
pub proof fn law_target_host_is_what_follows_the_prefix(
    port: &str,
    host: Seq<char>,
    r: Option<&str>,
)
    requires
        call_ensures(target_host, (port,), r),
    ensures
        port@ == "bridge://"@ + host <==> (r matches Some(found) && found@ == host),
        r is None <==> !"bridge://"@.is_prefix_of(port@),
{
    law_names_select_their_host(port@);
    law_names_select_hosts(port@, host);
    if "bridge://"@.is_prefix_of(port@) {
        let rest: Seq<char> = port@.skip("bridge://"@.len() as int);
        assert(port@ == "bridge://"@ + rest);
    }
}

/// The name of a bridge port, handed to [`target_host`], gives back the host.
pub proof fn law_bridge_port_name_leads_back(
    host: &str,
    name: String,
    port: &str,
    found: Option<&str>,
)
    requires
        call_ensures(bridge_port_name, (host,), name),
        port@ == name@,
        call_ensures(target_host, (port,), found),
    ensures
        name@ == "bridge://"@ + host@,
        found matches Some(h) && h@ == host@,
{
    law_target_host_is_what_follows_the_prefix(port, host@, found);
}

} // verus!
