//! Chaotic routing: per-call Bernoulli forwarding decisions and per-message
//! random routes over the currently known peers, kept in a route table that
//! callers clear explicitly once a message's lifecycle ends.
//!
//! Peers are carried as their encoded identifier bytes; the transport
//! collaborator converts its own peer type to and from those bytes.

use vstd::prelude::*;
use std::collections::HashMap;
use crate::CryptoError;
use crate::primitives::rand_below;
use crate::wire::copy_range;

verus! {

broadcast use vstd::std_specs::hash::group_hash_axioms;

/// The denominator of the forwarding probability: a probability `p` is
/// configured as `p * FORWARD_PROB_SCALE` parts per million.
pub const FORWARD_PROB_SCALE: u32 = 1_000_000;

/// Copies a route element by element.
fn copy_route(route: &Vec<Vec<u8>>) -> (r: Vec<Vec<u8>>)
    ensures
        r.deep_view() == route.deep_view(),
{
    let n = route.len();
    let mut out: Vec<Vec<u8>> = Vec::new();
    let mut i: usize = 0;
    while i < n
        invariant
            i <= n,
            n == route@.len(),
            out@.len() == i,
            forall|j: int| 0 <= j < i ==> out.deep_view()[j] == route.deep_view()[j],
        decreases n - i,
    {
        let hop = copy_range(&route[i], 0, route[i].len());
        out.push(hop);
        i = i + 1;
    }
    proof {
        assert(out.deep_view() =~= route.deep_view());
    }
    out
}

/// The forwarding and routing state: a forwarding probability, a hop bound,
/// and the table of routes currently in flight, keyed by message identifier.
pub struct ChaoticRouter {
    forward_probability: u32,
    max_hops: u32,
    current_routes: HashMap<u128, Vec<Vec<u8>>>,
}

impl ChaoticRouter {
    /// The configured forwarding probability, in parts per million.
    pub closed spec fn prob_model(self) -> u32 {
        self.forward_probability
    }

    /// The configured largest hop count of any route.
    pub closed spec fn max_hops_model(self) -> u32 {
        self.max_hops
    }

    /// The current route table.
    pub closed spec fn routes_model(self) -> Map<u128, Vec<Vec<u8>>> {
        self.current_routes@
    }

    /// Creates a router with the given forwarding probability (in parts per
    /// million) and hop bound, and an empty route table.
    pub fn new(forward_probability: u32, max_hops: u32) -> (r: Self)
        ensures
            r.prob_model() == forward_probability,
            r.max_hops_model() == max_hops,
            r.routes_model() == Map::<u128, Vec<Vec<u8>>>::empty(),
    {
        ChaoticRouter { forward_probability, max_hops, current_routes: HashMap::new() }
    }

    /// One independent Bernoulli trial with the configured probability, drawn
    /// from a cryptographically secure source so that forwarding decisions
    /// cannot be correlated across messages: certainly false at probability
    /// zero and certainly true at the full scale.
    pub fn should_forward(&self) -> (r: bool)
        ensures
            self.prob_model() == 0 ==> !r,
            self.prob_model() >= FORWARD_PROB_SCALE ==> r,
    {
        let draw = rand_below(FORWARD_PROB_SCALE as u64);
        draw < self.forward_probability as u64
    }

    /// A route of `min(hop_count, max_hops)` peers, each drawn independently
    /// and uniformly with replacement from `available_peers`; an empty peer
    /// set or a zero hop count yields an empty route.
    pub fn generate_random_route(&self, available_peers: &Vec<Vec<u8>>, hop_count: u32) -> (r: Vec<
        Vec<u8>,
    >)
        ensures
            r@.len() == (if available_peers@.len() == 0 || hop_count == 0 {
                0int
            } else if hop_count <= self.max_hops_model() {
                hop_count as int
            } else {
                self.max_hops_model() as int
            }),
            forall|i: int|
                0 <= i < r@.len() ==> available_peers.deep_view().contains(
                    #[trigger] r.deep_view()[i],
                ),
    {
        if available_peers.is_empty() || hop_count == 0 {
            return Vec::new();
        }
        let actual_hops = if hop_count < self.max_hops {
            hop_count
        } else {
            self.max_hops
        };
        let n = available_peers.len();
        let mut route: Vec<Vec<u8>> = Vec::new();
        let mut i: u32 = 0;
        while i < actual_hops
            invariant
                i <= actual_hops,
                n == available_peers@.len(),
                n > 0,
                route@.len() == i,
                forall|j: int|
                    0 <= j < route@.len() ==> available_peers.deep_view().contains(
                        #[trigger] route.deep_view()[j],
                    ),
            decreases actual_hops - i,
        {
            let idx = rand_below(n as u64) as usize;
            let peer = copy_range(&available_peers[idx], 0, available_peers[idx].len());
            let ghost prev = route.deep_view();
            route.push(peer);
            proof {
                assert(available_peers.deep_view()[idx as int] == available_peers@[idx as int]@);
                assert(route.deep_view()[i as int] == available_peers.deep_view()[idx as int]);
                assert forall|j: int| 0 <= j < i + 1 implies available_peers.deep_view().contains(
                    #[trigger] route.deep_view()[j],
                ) by {
                    if j < i {
                        assert(route.deep_view()[j] == prev[j]);
                    } else {
                        assert(available_peers.deep_view().contains(
                            available_peers.deep_view()[idx as int],
                        ));
                    }
                }
            }
            i = i + 1;
        }
        route
    }

    /// Draws a hop count uniformly from `[1, max_hops]`, generates a route,
    /// stores it under `message_id`, and returns it; an empty peer set is a
    /// `Route` error and leaves the table unchanged.
    pub fn create_route(&mut self, message_id: u128, available_peers: &Vec<Vec<u8>>) -> (r: Result<
        Vec<Vec<u8>>,
        CryptoError,
    >)
        requires
            old(self).max_hops_model() >= 1,
        ensures
            final(self).prob_model() == old(self).prob_model(),
            final(self).max_hops_model() == old(self).max_hops_model(),
            r matches Err(e) ==> e == CryptoError::Route && available_peers@.len() == 0
                && *final(self) == *old(self),
            r matches Ok(route) ==> {
                &&& available_peers@.len() > 0
                &&& 1 <= route@.len() <= old(self).max_hops_model()
                &&& forall|i: int|
                    0 <= i < route@.len() ==> available_peers.deep_view().contains(
                        #[trigger] route.deep_view()[i],
                    )
                &&& final(self).routes_model().dom() =~= old(self).routes_model().dom().insert(
                    message_id,
                )
                &&& final(self).routes_model()[message_id].deep_view() == route.deep_view()
                &&& forall|k: u128|
                    k != message_id && old(self).routes_model().dom().contains(k)
                        ==> final(self).routes_model()[k] == #[trigger] old(self).routes_model()[k]
            },
    {
        if available_peers.is_empty() {
            return Err(CryptoError::Route);
        }
        let hop_count = 1 + rand_below(self.max_hops as u64) as u32;
        let route = self.generate_random_route(available_peers, hop_count);
        let stored = copy_route(&route);
        self.current_routes.insert(message_id, stored);
        Ok(route)
    }

    /// The route stored under `message_id`, if any.
    pub fn get_route(&self, message_id: u128) -> (r: Option<&Vec<Vec<u8>>>)
        ensures
            match r {
                Some(route) => self.routes_model().dom().contains(message_id) && *route
                    == self.routes_model()[message_id],
                None => !self.routes_model().dom().contains(message_id),
            },
    {
        self.current_routes.get(&message_id)
    }

    /// Removes the route stored under `message_id`; callers do this once a
    /// message's routing lifecycle completes, to bound the table.
    pub fn clear_route(&mut self, message_id: u128)
        ensures
            final(self).prob_model() == old(self).prob_model(),
            final(self).max_hops_model() == old(self).max_hops_model(),
            final(self).routes_model() == old(self).routes_model().remove(message_id),
    {
        self.current_routes.remove(&message_id);
    }

    /// The number of routes currently stored.
    pub fn route_count(&self) -> (r: usize)
        ensures
            r == self.routes_model().dom().len(),
    {
        self.current_routes.len()
    }
}

} // verus!
