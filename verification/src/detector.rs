//! The routing-loop detector.
//!
//! Every socket address that the proxy owns on an outbound connection must not
//! show up as the source of an inbound connection: if it does, the outbound
//! connection was intercepted again and the proxy would loop. The detector
//! holds the local addresses of the outbound connections that are open; an
//! inbound connection whose source is among them is refused.

use vstd::prelude::*;
use crate::addr::SocketAddr;

verus! {

/// The set of socket addresses owned by the proxy's open outbound connections.
pub struct Detector {
    addrs: Vec<SocketAddr>,
}

impl View for Detector {
    type V = Set<SocketAddr>;

    closed spec fn view(&self) -> Set<SocketAddr> {
        self.addrs@.to_set()
    }
}

impl Detector {
    /// No address is held twice.
    #[verifier::type_invariant]
    closed spec fn inv(self) -> bool {
        self.addrs@.no_duplicates()
    }

    /// The index at which `addr` is held, if it is.
    fn position(&self, addr: &SocketAddr) -> (r: Option<usize>)
        ensures
            r matches Some(i) ==> i < self.addrs@.len() && self.addrs@[i as int] == *addr,
            r is None ==> !self.addrs@.contains(*addr),
    {
        let mut i: usize = 0;
        while i < self.addrs.len()
            invariant
                i <= self.addrs@.len(),
                forall|j: int| 0 <= j < i ==> self.addrs@[j] != *addr,
            decreases self.addrs@.len() - i,
        {
            if self.addrs[i] == *addr {
                return Some(i);
            }
            i = i + 1;
        }
        None
    }

    /// An empty detector.
    pub fn new() -> (d: Detector)
        ensures
            d@ == Set::<SocketAddr>::empty(),
    {
        let d = Detector { addrs: Vec::new() };
        assert(d@ =~= Set::<SocketAddr>::empty());
        d
    }

    /// Adds `addr`. Returns whether it was absent before.
    pub fn insert(&mut self, addr: SocketAddr) -> (added: bool)
        ensures
            added == !old(self)@.contains(addr),
            final(self)@ == old(self)@.insert(addr),
    {
        proof {
            use_type_invariant(&*self);
        }
        match self.position(&addr) {
            Some(_) => {
                assert(old(self)@.insert(addr) =~= old(self)@);
                false
            },
            None => {
                let mut addrs = Vec::new();
                std::mem::swap(&mut addrs, &mut self.addrs);
                let ghost before = addrs@;
                addrs.push(addr);
                assert(addrs@.to_set() =~= before.to_set().insert(addr)) by {
                    assert forall|a: SocketAddr| #[trigger] addrs@.contains(a) <==> (
                    before.contains(a) || a == addr) by {
                        if before.contains(a) {
                            let k = choose|k: int| 0 <= k < before.len() && before[k] == a;
                            assert(addrs@[k] == a);
                        }
                        if a == addr {
                            assert(addrs@[before.len() as int] == a);
                        }
                    }
                }
                self.addrs = addrs;
                true
            },
        }
    }

    /// Removes `addr`. Returns whether it was present before.
    pub fn remove(&mut self, addr: &SocketAddr) -> (removed: bool)
        ensures
            removed == old(self)@.contains(*addr),
            final(self)@ == old(self)@.remove(*addr),
    {
        proof {
            use_type_invariant(&*self);
        }
        match self.position(addr) {
            Some(i) => {
                let mut addrs = Vec::new();
                std::mem::swap(&mut addrs, &mut self.addrs);
                let ghost before = addrs@;
                addrs.remove(i);
                assert(addrs@.to_set() =~= before.to_set().remove(*addr)) by {
                    assert forall|a: SocketAddr| #[trigger] addrs@.contains(a) <==> (
                    before.contains(a) && a != *addr) by {
                        if addrs@.contains(a) {
                            let k = choose|k: int| 0 <= k < addrs@.len() && addrs@[k] == a;
                            if k < i {
                                assert(before[k] == a);
                            } else {
                                assert(before[k + 1] == a);
                            }
                        }
                        if before.contains(a) && a != *addr {
                            let k = choose|k: int| 0 <= k < before.len() && before[k] == a;
                            assert(k != i);
                            if k < i {
                                assert(addrs@[k] == a);
                            } else {
                                assert(addrs@[k - 1] == a);
                            }
                        }
                    }
                }
                self.addrs = addrs;
                true
            },
            None => {
                assert(old(self)@.remove(*addr) =~= old(self)@);
                false
            },
        }
    }

    /// Whether `addr` is held.
    pub fn contains(&self, addr: &SocketAddr) -> (r: bool)
        ensures
            r == self@.contains(*addr),
    {
        self.position(addr).is_some()
    }
}

/// Marks a socket address as owned by an open outbound connection for as long
/// as the guard lives: made with `new`, which adds the address to the
/// detector, and ended with `drop_manually`, which takes it out again.
pub struct DetectGuard(SocketAddr);

impl View for DetectGuard {
    type V = SocketAddr;

    closed spec fn view(&self) -> SocketAddr {
        self.0
    }
}

impl DetectGuard {
    /// Adds `addr` to `detector` and returns the guard for it.
    pub fn new(addr: SocketAddr, detector: &mut Detector) -> (g: DetectGuard)
        ensures
            g@ == addr,
            final(detector)@ == old(detector)@.insert(addr),
    {
        detector.insert(addr);
        DetectGuard(addr)
    }

    /// Ends the guard: its address leaves `detector`.
    pub fn drop_manually(self, detector: &mut Detector)
        ensures
            final(detector)@ == old(detector)@.remove(self@),
    {
        detector.remove(&self.0);
    }
}

/// Taking a guard for an address the detector does not hold and then ending
/// it leaves the detector as it was; taking one for an address it holds
/// already leaves it as it was too.
pub proof fn lemma_guard_round_trip(held: Set<SocketAddr>, addr: SocketAddr)
    ensures
        !held.contains(addr) ==> held.insert(addr).remove(addr) == held,
        held.contains(addr) ==> held.insert(addr) == held,
{
    if !held.contains(addr) {
        assert(held.insert(addr).remove(addr) =~= held);
    } else {
        assert(held.insert(addr) =~= held);
    }
}

} // verus!
