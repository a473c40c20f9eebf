//! The registries that wait to be tried, and the choice among them.

use vstd::prelude::*;
use crate::mdns::{parsed, NmosMdnsEvent, NmosMdnsRegistry};
use crate::version::APIVersion;

verus! {

/// Among the first `n` registries of `q`, the place of the one to take for
/// the revision `api`: of those that speak it, the one with the lowest
/// priority number, and of several such the one that was discovered first.
/// `None` where none of them speaks the revision.
pub open spec fn best_upto(q: Seq<NmosMdnsRegistry>, api: APIVersion, n: int) -> Option<int>
    decreases n,
{
    if n <= 0 {
        None
    } else {
        let before = best_upto(q, api, n - 1);
        if q[n - 1].speaks(api) && (before is None || q[n - 1].pri < q[before->0].pri) {
            Some(n - 1)
        } else {
            before
        }
    }
}

/// The place in `q` of the registry to take for the revision `api`.
pub open spec fn best(q: Seq<NmosMdnsRegistry>, api: APIVersion) -> Option<int> {
    best_upto(q, api, q.len() as int)
}

/// The registry at the chosen place speaks the revision, none that speaks
/// it has a lower priority number, and none with the same number stands
/// before it. Where no place is chosen, no registry speaks the revision.
pub proof fn lemma_best_upto(q: Seq<NmosMdnsRegistry>, api: APIVersion, n: int)
    requires
        0 <= n <= q.len(),
    ensures
        match best_upto(q, api, n) {
            Some(i) => {
                &&& 0 <= i < n
                &&& q[i].speaks(api)
                &&& forall|j: int|
                    0 <= j < n && (#[trigger] q[j]).speaks(api) ==> q[i].pri < q[j].pri || (q[i].pri
                        == q[j].pri && i <= j)
            },
            None => forall|j: int| 0 <= j < n ==> !(#[trigger] q[j]).speaks(api),
        },
    decreases n,
{
    if n > 0 {
        lemma_best_upto(q, api, n - 1);
    }
}

/// The registry that is taken speaks the revision and has the lowest
/// priority number of those that do, the first discovered among equals;
/// none is taken only where none speaks the revision.
pub proof fn lemma_best_is_least(q: Seq<NmosMdnsRegistry>, api: APIVersion)
    ensures
        match best(q, api) {
            Some(i) => {
                &&& 0 <= i < q.len()
                &&& q[i].speaks(api)
                &&& forall|j: int|
                    0 <= j < q.len() && (#[trigger] q[j]).speaks(api) ==> q[i].pri < q[j].pri || (
                    q[i].pri == q[j].pri && i <= j)
            },
            None => forall|j: int| 0 <= j < q.len() ==> !(#[trigger] q[j]).speaks(api),
        },
{
    lemma_best_upto(q, api, q.len() as int);
}

/// Taking twice with nothing queued between yields priority numbers that do
/// not fall: what is taken second was there to be taken first.
pub proof fn lemma_takes_ascend(q: Seq<NmosMdnsRegistry>, api: APIVersion)
    requires
        best(q, api) is Some,
        best(q.remove(best(q, api)->0), api) is Some,
    ensures
        q[best(q, api)->0].pri <= q.remove(best(q, api)->0)[best(
            q.remove(best(q, api)->0),
            api,
        )->0].pri,
{
    let i = best(q, api)->0;
    lemma_best_is_least(q, api);
    let rest = q.remove(i);
    let j = best(rest, api)->0;
    lemma_best_is_least(rest, api);
    if j < i {
        assert(rest[j] == q[j]);
    } else {
        assert(rest[j] == q[j + 1]);
    }
}

/// The discovered registries in the order of their discovery.
#[derive(Debug)]
pub struct RegistryQueue {
    items: Vec<NmosMdnsRegistry>,
}

impl View for RegistryQueue {
    type V = Seq<NmosMdnsRegistry>;

    closed spec fn view(&self) -> Seq<NmosMdnsRegistry> {
        self.items@
    }
}

impl RegistryQueue {
    /// A queue that holds nothing.
    pub fn new() -> (r: RegistryQueue)
        ensures
            r@ == Seq::<NmosMdnsRegistry>::empty(),
    {
        RegistryQueue { items: Vec::new() }
    }

    pub fn len(&self) -> (r: usize)
        ensures
            r == self@.len(),
    {
        self.items.len()
    }

    pub fn is_empty(&self) -> (r: bool)
        ensures
            r == (self@.len() == 0),
    {
        self.items.len() == 0
    }

    /// Queues a registry behind those already there. A registry that is
    /// there already is queued once more.
    pub fn push(&mut self, registry: NmosMdnsRegistry)
        ensures
            final(self)@ == old(self)@.push(registry),
    {
        self.items.push(registry);
    }

    /// Takes the best registry for the revision `api` out of the queue.
    /// Registries that do not speak the revision stay where they are.
    pub fn pop(&mut self, api: &APIVersion) -> (r: Option<NmosMdnsRegistry>)
        ensures
            match best(old(self)@, *api) {
                Some(i) => r == Some(old(self)@[i]) && final(self)@ == old(self)@.remove(i),
                None => r is None && final(self)@ == old(self)@,
            },
    {
        let n: usize = self.items.len();
        let mut found: Option<usize> = None;
        let mut i: usize = 0;
        while i < n
            invariant
                i <= n,
                n == self.items@.len(),
                self.items@ == old(self).items@,
                match found {
                    Some(f) => best_upto(self.items@, *api, i as int) == Some(f as int) && f < i,
                    None => best_upto(self.items@, *api, i as int) is None,
                },
            decreases n - i,
        {
            if self.items[i].is_compatible(api) {
                let better = match found {
                    Some(f) => self.items[i].pri < self.items[f].pri,
                    None => true,
                };
                if better {
                    found = Some(i);
                }
            }
            i = i + 1;
        }
        match found {
            Some(f) => Some(self.items.remove(f)),
            None => None,
        }
    }

    /// Takes in what the transport reports. A discovery that names a
    /// registry queues it; anything else leaves the queue as it is. Returns
    /// whether a registry was queued.
    pub fn accept(&mut self, event: NmosMdnsEvent) -> (r: bool)
        ensures
            match event {
                NmosMdnsEvent::Discovery(_, Some(d)) => match parsed(d) {
                    Some(c) => {
                        &&& r
                        &&& final(self)@.len() == old(self)@.len() + 1
                        &&& final(self)@.drop_last() == old(self)@
                        &&& final(self)@.last()@ == c
                    },
                    None => !r && final(self)@ == old(self)@,
                },
                _ => !r && final(self)@ == old(self)@,
            },
    {
        match event {
            NmosMdnsEvent::Discovery(_, Some(d)) => match NmosMdnsRegistry::parse(&d) {
                Some(c) => {
                    self.items.push(c);
                    proof {
                        assert(self.items@.drop_last() =~= old(self).items@);
                    }
                    true
                },
                None => false,
            },
            _ => false,
        }
    }
}

} // verus!
