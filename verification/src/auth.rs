//! Authentication-method negotiator.
//!
//! Given the server's configured methods in priority order and the
//! client's offered set, the negotiator picks the first configured
//! method that the client also offers — the server's preference order
//! wins, not the client's — or signals failure with the sentinel. The
//! sentinel itself is never selected as a method, whatever either side
//! lists.

use vstd::prelude::*;

use crate::msg::NO_ACCEPTABLE_METHODS;

verus! {

/// The negotiated method: the first server-configured method, other
/// than the sentinel, that appears among the client's offers; the
/// sentinel when there is none.
pub open spec fn spec_select_method(server: Seq<u8>, client: Seq<u8>) -> u8
    decreases server.len(),
{
    if server.len() == 0 {
        NO_ACCEPTABLE_METHODS
    } else if server[0] != NO_ACCEPTABLE_METHODS && client.contains(server[0]) {
        server[0]
    } else {
        spec_select_method(server.subrange(1, server.len() as int), client)
    }
}

/// Whether `b` occurs among the bytes of `v`.
fn contains_method(v: &[u8], b: u8) -> (r: bool)
    ensures
        r == v@.contains(b),
{
    let mut i: usize = 0;
    while i < v.len()
        invariant
            i <= v@.len(),
            forall|j: int| 0 <= j < i ==> v@[j] != b,
        decreases v@.len() - i,
    {
        if v[i] == b {
            proof {
                assert(v@[i as int] == b);
            }
            return true;
        }
        i = i + 1;
    }
    false
}

/// Picks the authentication method for a connection: the first of the
/// server's configured methods that the client offers, or the sentinel
/// when the two sides share none.
pub fn select_method(server: &[u8], client: &[u8]) -> (m: u8)
    ensures
        m == spec_select_method(server@, client@),
{
    proof {
        assert(server@.subrange(0, server@.len() as int) =~= server@);
    }
    let mut i: usize = 0;
    while i < server.len()
        invariant
            i <= server@.len(),
            spec_select_method(server@, client@) == spec_select_method(
                server@.subrange(i as int, server@.len() as int),
                client@,
            ),
        decreases server@.len() - i,
    {
        let cand = server[i];
        proof {
            assert(server@.subrange(i as int, server@.len() as int)[0] == cand);
        }
        if cand != NO_ACCEPTABLE_METHODS && contains_method(client, cand) {
            return cand;
        }
        proof {
            let s = server@.subrange(i as int, server@.len() as int);
            assert(s.subrange(1, s.len() as int) =~= server@.subrange(
                i + 1,
                server@.len() as int,
            ));
        }
        i = i + 1;
    }
    proof {
        assert(server@.subrange(i as int, server@.len() as int) =~= Seq::<u8>::empty());
    }
    NO_ACCEPTABLE_METHODS
}

/// A client that offers only methods outside the server's configured
/// set is always answered with the sentinel.
pub proof fn lemma_no_common_method(server: Seq<u8>, client: Seq<u8>)
    requires
        forall|i: int| 0 <= i < client.len() ==> !server.contains(#[trigger] client[i]),
    ensures
        spec_select_method(server, client) == NO_ACCEPTABLE_METHODS,
    decreases server.len(),
{
    if server.len() > 0 {
        if server[0] != NO_ACCEPTABLE_METHODS && client.contains(server[0]) {
            let j = choose|j: int| 0 <= j < client.len() && client[j] == server[0];
            assert(server.contains(client[j]));
            assert(false);
        }
        let sub = server.subrange(1, server.len() as int);
        assert forall|i: int| 0 <= i < client.len() implies !sub.contains(
            #[trigger] client[i],
        ) by {
            if sub.contains(client[i]) {
                let k = choose|k: int| 0 <= k < sub.len() && sub[k] == client[i];
                assert(server[k + 1] == client[i]);
                assert(server.contains(client[i]));
            }
        }
        lemma_no_common_method(sub, client);
    }
}

/// A selected method other than the sentinel was configured by the
/// server and offered by the client.
pub proof fn lemma_selected_method_common(server: Seq<u8>, client: Seq<u8>)
    ensures
        spec_select_method(server, client) != NO_ACCEPTABLE_METHODS ==> server.contains(
            spec_select_method(server, client),
        ) && client.contains(spec_select_method(server, client)),
    decreases server.len(),
{
    if server.len() > 0 {
        let m = spec_select_method(server, client);
        if server[0] != NO_ACCEPTABLE_METHODS && client.contains(server[0]) {
            assert(server.contains(m)) by {
                assert(server[0] == m);
            }
        } else {
            let sub = server.subrange(1, server.len() as int);
            lemma_selected_method_common(sub, client);
            if m != NO_ACCEPTABLE_METHODS {
                let k = choose|k: int| 0 <= k < sub.len() && sub[k] == m;
                assert(server[k + 1] == m);
                assert(server.contains(m));
            }
        }
    }
}

} // verus!
