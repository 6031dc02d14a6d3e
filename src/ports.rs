//! Search for a free local TCP port.
use vstd::prelude::*;

verus! {

/// How many ports past the starting one a search looks at.
pub const PORT_SEARCH_SPAN: u16 = 100;

/// Last port of the search window that starts at `start`: `start + 100`,
/// cut at the largest port number.
pub open spec fn search_end(start: u16) -> int {
    if start as int + PORT_SEARCH_SPAN as int <= u16::MAX as int {
        start as int + PORT_SEARCH_SPAN as int
    } else {
        u16::MAX as int
    }
}

/// Scans `[start_port, start_port + 100]` in increasing order and returns the
/// first port for which `is_available` answers `true`, or `None` when every
/// port of the window was refused. `is_available` is the caller's probe
/// (a test bind); its answers may change from call to call, so the contract
/// speaks of the answers it gave during this scan.
pub fn find_available_port<F: Fn(u16) -> bool>(start_port: u16, is_available: F) -> (r: Option<u16>)
    requires
        forall|p: u16| is_available.requires((p,)),
    ensures
        r matches Some(p) ==> start_port <= p <= search_end(start_port) && is_available.ensures(
            (p,),
            true,
        ),
        forall|p: u16|
            start_port <= p <= search_end(start_port) && (r matches Some(q) ==> p < q)
                ==> #[trigger] is_available.ensures((p,), false),
{
    let end_port: u16 = if start_port <= u16::MAX - PORT_SEARCH_SPAN {
        start_port + PORT_SEARCH_SPAN
    } else {
        u16::MAX
    };
    let mut port: u16 = start_port;
    loop
        invariant
            start_port <= port <= end_port,
            end_port == search_end(start_port),
            forall|p: u16| is_available.requires((p,)),
            forall|p: u16| start_port <= p < port ==> #[trigger] is_available.ensures((p,), false),
        decreases end_port - port,
    {
        let free = is_available(port);
        if free {
            return Some(port);
        }
        if port == end_port {
            return None;
        }
        port = port + 1;
    }
}

} // verus!
