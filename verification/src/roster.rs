//! The users that a DAVE session recognises, in ascending order.
use vstd::prelude::*;

verus! {

/// Whether a row of identifiers is strictly ascending, and so without repetition.
pub open spec fn ascending(ids: Seq<u64>) -> bool {
    forall|i: int, j: int| 0 <= i < j < ids.len() ==> ids[i] < ids[j]
}

/// The ascending listing of a finite set of users.
pub open spec fn listing(users: Set<u64>) -> Seq<u64> {
    choose|ids: Seq<u64>| ascending(ids) && #[trigger] ids.to_set() == users
}

/// A set of users that always holds its owner.
#[derive(Debug)]
pub struct Roster {
    owner: u64,
    ids: Vec<u64>,
}

impl View for Roster {
    type V = Set<u64>;

    closed spec fn view(&self) -> Set<u64> {
        self.ids@.to_set()
    }
}

#[verifier::spinoff_prover]
fn insert_ascending(ids: &mut Vec<u64>, id: u64)
    requires
        ascending(old(ids)@),
    ensures
        ascending(final(ids)@),
        forall|x: u64| #[trigger] final(ids)@.contains(x) <==> old(ids)@.contains(x) || x == id,
{
    let mut position: usize = 0;
    while position < ids.len() && ids[position] < id
        invariant
            position <= ids@.len(),
            ids@ == old(ids)@,
            ascending(ids@),
            forall|i: int| 0 <= i < position ==> ids@[i] < id,
        decreases ids@.len() - position,
    {
        position = position + 1;
    }
    if position < ids.len() && ids[position] == id {
        assert(ids@.contains(id)) by {
            assert(ids@[position as int] == id);
        }
        return;
    }
    let ghost before = ids@;
    ids.insert(position, id);
    proof {
        let p = position as int;
        assert(before == old(ids)@);
        assert(ids@ =~= before.insert(p, id));
        assert(p < before.len() ==> id < before[p]);
        assert forall|x: u64| #[trigger]
            ids@.contains(x) <==> before.contains(x) || x == id by {
            if ids@.contains(x) {
                let k = choose|k: int| 0 <= k < ids@.len() && ids@[k] == x;
                if k < p {
                    assert(before[k] == x);
                } else if k > p {
                    assert(before[k - 1] == x);
                }
            }
            if before.contains(x) {
                let k = choose|k: int| 0 <= k < before.len() && before[k] == x;
                if k < p {
                    assert(ids@[k] == x);
                } else {
                    assert(ids@[k + 1] == x);
                }
            }
            if x == id {
                assert(ids@[p] == x);
            }
        }
        assert forall|i: int, j: int| 0 <= i < j < ids@.len() implies ids@[i] < ids@[j] by {
            if j > p {
                assert(ids@[j] == before[j - 1]);
            }
            if i > p {
                assert(ids@[i] == before[i - 1]);
            }
        }
    }
}

impl Roster {
    #[verifier::type_invariant]
    spec fn well_formed(self) -> bool {
        &&& ascending(self.ids@)
        &&& self.ids@.contains(self.owner)
    }

    /// The user that can never leave the roster.
    pub closed spec fn owned_by(self) -> u64 {
        self.owner
    }

    /// Creates the roster that holds its owner alone.
    pub fn new(owner: u64) -> (roster: Self)
        ensures
            roster.owned_by() == owner,
            roster@ == set![owner],
    {
        let mut ids: Vec<u64> = Vec::new();
        ids.push(owner);
        assert(ids@.contains(owner)) by {
            assert(ids@[0] == owner);
        }
        assert(ids@.to_set() =~= set![owner]);
        Roster { owner, ids }
    }

    /// Creates the roster that holds these users and its owner.
    pub fn with_users(owner: u64, users: &[u64]) -> (roster: Self)
        ensures
            roster.owned_by() == owner,
            roster@ == users@.to_set().insert(owner),
    {
        let mut ids: Vec<u64> = Vec::new();
        ids.push(owner);
        assert(ids@.contains(owner)) by {
            assert(ids@[0] == owner);
        }
        let mut index: usize = 0;
        while index < users.len()
            invariant
                index <= users@.len(),
                ascending(ids@),
                forall|x: u64|
                    ids@.contains(x) <==> x == owner || users@.take(index as int).contains(x),
            decreases users@.len() - index,
        {
            let ghost earlier = users@.take(index as int);
            let ghost held = ids@;
            let user: u64 = users[index];
            insert_ascending(&mut ids, user);
            index = index + 1;
            proof {
                let now = users@.take(index as int);
                assert(now =~= earlier.push(user));
                assert forall|x: u64| now.contains(x) <==> earlier.contains(x) || x == user by {
                    if earlier.contains(x) {
                        let k = choose|k: int| 0 <= k < earlier.len() && earlier[k] == x;
                        assert(now[k] == x);
                    }
                    if x == user {
                        assert(now[earlier.len() as int] == x);
                    }
                }
            }
        }
        assert(users@.take(index as int) =~= users@);
        assert(ids@.contains(owner));
        assert(ids@.to_set() =~= users@.to_set().insert(owner));
        Roster { owner, ids }
    }

    /// Removes a user, unless it is the owner.
    pub fn disconnect(&mut self, user: u64)
        ensures
            final(self).owned_by() == old(self).owned_by(),
            final(self)@ == (if user == old(self).owned_by() {
                old(self)@
            } else {
                old(self)@.remove(user)
            }),
    {
        proof {
            use_type_invariant(&*self);
        }
        if user == self.owner {
            return;
        }
        let mut kept: Vec<u64> = Vec::new();
        let mut index: usize = 0;
        while index < self.ids.len()
            invariant
                index <= self.ids@.len(),
                ascending(self.ids@),
                ascending(kept@),
                forall|x: u64|
                    kept@.contains(x) <==> x != user && self.ids@.take(index as int).contains(x),
                forall|i: int, j: int|
                    0 <= i < kept@.len() && index <= j < self.ids@.len() ==> kept@[i]
                        < self.ids@[j],
            decreases self.ids@.len() - index,
        {
            let ghost earlier = self.ids@.take(index as int);
            let ghost held = kept@;
            let id: u64 = self.ids[index];
            if id != user {
                kept.push(id);
            }
            index = index + 1;
            proof {
                let now = self.ids@.take(index as int);
                assert(now =~= earlier.push(id));
                assert forall|x: u64| now.contains(x) <==> earlier.contains(x) || x == id by {
                    if earlier.contains(x) {
                        let k = choose|k: int| 0 <= k < earlier.len() && earlier[k] == x;
                        assert(now[k] == x);
                    }
                    if x == id {
                        assert(now[earlier.len() as int] == x);
                    }
                }
                if id != user {
                    assert forall|x: u64| kept@.contains(x) <==> held.contains(x) || x == id by {
                        if held.contains(x) {
                            let k = choose|k: int| 0 <= k < held.len() && held[k] == x;
                            assert(kept@[k] == x);
                        }
                        if x == id {
                            assert(kept@[held.len() as int] == x);
                        }
                    }
                } else {
                    assert(kept@ == held);
                }
                assert forall|x: u64|
                    kept@.contains(x) <==> x != user && self.ids@.take(index as int).contains(x) by {
                    assert(held.contains(x) <==> x != user && earlier.contains(x));
                    assert(now.contains(x) <==> earlier.contains(x) || x == id);
                }
            }
        }
        assert(self.ids@.take(index as int) =~= self.ids@);
        assert(kept@.contains(self.owner));
        assert(kept@.to_set() =~= self.ids@.to_set().remove(user));
        let owner: u64 = self.owner;
        *self = Roster { owner, ids: kept };
    }

    /// Returns the users in ascending order.
    pub fn ids(&self) -> (ids: &Vec<u64>)
        ensures
            ids@ == listing(self@),
            ascending(ids@),
            ids@.to_set() == self@,
            self@.contains(self.owned_by()),
    {
        proof {
            use_type_invariant(self);
            assert(ascending(self.ids@) && self.ids@.to_set() == self@);
            let chosen = listing(self@);
            assert(ascending(chosen) && chosen.to_set() == self@);
            ascending_listing_is_unique(chosen, self.ids@);
        }
        &self.ids
    }
}

/// A set has one ascending listing, so the order in which a roster lists its users
/// says nothing but who they are.
pub proof fn ascending_listing_is_unique(left: Seq<u64>, right: Seq<u64>)
    requires
        ascending(left),
        ascending(right),
        left.to_set() == right.to_set(),
    ensures
        left == right,
    decreases left.len(),
{
    if left.len() == 0 {
        if right.len() > 0 {
            assert(right.to_set().contains(right[0]));
            assert(left.to_set().contains(right[0]));
        }
    } else if right.len() == 0 {
        assert(left.to_set().contains(left[0]));
        assert(right.to_set().contains(left[0]));
    } else {
        let a = left.last();
        let b = right.last();
        assert(left.to_set().contains(a));
        assert(right.contains(a));
        let i = choose|i: int| 0 <= i < right.len() && right[i] == a;
        assert(a <= b);
        assert(right.to_set().contains(b));
        assert(left.contains(b));
        let j = choose|j: int| 0 <= j < left.len() && left[j] == b;
        assert(b <= a);
        let l = left.drop_last();
        let r = right.drop_last();
        assert forall|x: u64| l.to_set().contains(x) <==> r.to_set().contains(x) by {
            if l.contains(x) {
                let k = choose|k: int| 0 <= k < l.len() && l[k] == x;
                assert(left[k] == x);
                assert(left.to_set().contains(x));
                assert(right.contains(x));
                let m = choose|m: int| 0 <= m < right.len() && right[m] == x;
                assert(m < right.len() - 1);
                assert(r[m] == x);
            }
            if r.contains(x) {
                let k = choose|k: int| 0 <= k < r.len() && r[k] == x;
                assert(right[k] == x);
                assert(right.to_set().contains(x));
                assert(left.contains(x));
                let m = choose|m: int| 0 <= m < left.len() && left[m] == x;
                assert(m < left.len() - 1);
                assert(l[m] == x);
            }
        }
        assert(l.to_set() =~= r.to_set());
        ascending_listing_is_unique(l, r);
        assert(left =~= l.push(a));
        assert(right =~= r.push(b));
    }
}

/// Copies a row of users.
pub fn copy_users(users: &Vec<u64>) -> (copied: Vec<u64>)
    ensures
        copied@ == users@,
{
    let mut copied: Vec<u64> = Vec::new();
    let mut index: usize = 0;
    while index < users.len()
        invariant
            index <= users.len(),
            copied@ == users@.take(index as int),
        decreases users.len() - index,
    {
        copied.push(users[index]);
        index = index + 1;
        assert(users@.take(index as int) =~= users@.take(index - 1).push(users@[index - 1]));
    }
    assert(users@.take(index as int) =~= users@);
    copied
}

/// Copies a row of users without those of one number.
pub fn without_user(users: &Vec<u64>, user: u64) -> (kept: Vec<u64>)
    ensures
        kept@ == users@.filter(|member: u64| member != user),
{
    let mut kept: Vec<u64> = Vec::new();
    let ghost stays = |member: u64| member != user;
    let mut index: usize = 0;
    while index < users.len()
        invariant
            index <= users.len(),
            stays == (|member: u64| member != user),
            kept@ == users@.take(index as int).filter(stays),
        decreases users.len() - index,
    {
        proof {
            reveal(Seq::filter);
            assert(users@.take(index + 1).drop_last() =~= users@.take(index as int));
        }
        if users[index] != user {
            kept.push(users[index]);
        }
        index = index + 1;
    }
    assert(users@.take(index as int) =~= users@);
    kept
}

} // verus!
