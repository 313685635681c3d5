use vstd::prelude::*;
use crate::capacity::list_record_size;
use crate::error::SoarError;
use crate::key::Key;

verus! {

/// A player account taking part in a merge, and whether its user approved.
#[derive(Clone, Copy, Debug)]
pub struct MergeApproval {
    /// The player account.
    pub key: Key,
    /// Whether the account's user has approved the merge.
    pub approved: bool,
}

impl MergeApproval {
    /// Size of a serialized approval: the key and the flag.
    pub const SIZE: usize = 33;

    /// An approval still awaited from `key`.
    pub fn new(key: Key) -> (r: MergeApproval)
        ensures
            r.key == key,
            !r.approved,
    {
        MergeApproval { key, approved: false }
    }
}

/// The keys of `s`, each once, in order of first occurrence, without `x`.
pub open spec fn distinct_without(s: Seq<Key>, x: Key) -> Seq<Key>
    decreases s.len(),
{
    if s.len() == 0 {
        Seq::empty()
    } else {
        let rest = distinct_without(s.drop_last(), x);
        if s.last() == x || rest.contains(s.last()) {
            rest
        } else {
            rest.push(s.last())
        }
    }
}

/// The keys of a list of approvals, in order.
pub open spec fn keys_of(a: Seq<MergeApproval>) -> Seq<Key> {
    a.map_values(|m: MergeApproval| m.key)
}

/// Whether every approval in `a` has been given.
pub open spec fn all_approved(a: Seq<MergeApproval>) -> bool {
    forall|i: int| 0 <= i < a.len() ==> (#[trigger] a[i]).approved
}

/// Removing duplicates and `x` from a list of keys leaves each key of the
/// list other than `x` exactly once, and nothing else.
pub proof fn lemma_distinct_without(s: Seq<Key>, x: Key)
    ensures
        distinct_without(s, x).no_duplicates(),
        !distinct_without(s, x).contains(x),
        forall|k: Key| #[trigger]
            distinct_without(s, x).contains(k) <==> (s.contains(k) && k != x),
    decreases s.len(),
{
    if s.len() > 0 {
        let init = s.drop_last();
        lemma_distinct_without(init, x);
        let rest = distinct_without(init, x);
        assert forall|k: Key| s.contains(k) <==> (init.contains(k) || k == s.last()) by {
            if s.contains(k) {
                let i = choose|i: int| 0 <= i < s.len() && s[i] == k;
                if i < s.len() - 1 {
                    assert(init[i] == k);
                }
            }
            if init.contains(k) {
                let i = choose|i: int| 0 <= i < init.len() && init[i] == k;
                assert(s[i] == k);
            }
            if k == s.last() {
                assert(s[s.len() - 1] == k);
            }
        }
        if !(s.last() == x || rest.contains(s.last())) {
            let r = rest.push(s.last());
            assert forall|k: Key| r.contains(k) <==> (rest.contains(k) || k == s.last()) by {
                if r.contains(k) {
                    let i = choose|i: int| 0 <= i < r.len() && r[i] == k;
                    if i < rest.len() {
                        assert(rest[i] == k);
                    }
                }
                if rest.contains(k) {
                    let i = choose|i: int| 0 <= i < rest.len() && rest[i] == k;
                    assert(r[i] == k);
                }
                if k == s.last() {
                    assert(r[r.len() - 1] == k);
                }
            }
            assert forall|i: int, j: int| 0 <= i < r.len() && 0 <= j < r.len() && i != j implies r[i]
                != r[j] by {
                if i < rest.len() && j < rest.len() {
                    assert(r[i] == rest[i] && r[j] == rest[j]);
                } else if i < rest.len() {
                    assert(r[i] == rest[i]);
                } else if j < rest.len() {
                    assert(r[j] == rest[j]);
                }
            }
        }
    }
}

/// A merge of several player accounts into one user, awaiting the approval
/// of every account involved.
#[derive(Clone, Debug)]
pub struct Merged {
    /// The user that initiated the merge.
    pub initiator: Key,
    /// The player accounts to merge, each with its approval status.
    pub approvals: Vec<MergeApproval>,
    /// Whether every account has approved the merge.
    pub merge_complete: bool,
}

/// Whether `k` occurs in `v`.
fn contains_key(v: &Vec<Key>, k: &Key) -> (r: bool)
    ensures
        r == v@.contains(*k),
{
    let mut i: usize = 0;
    while i < v.len()
        invariant
            i <= v@.len(),
            forall|j: int| 0 <= j < i ==> v@[j] != *k,
        decreases v@.len() - i,
    {
        if v[i] == *k {
            return true;
        }
        i = i + 1;
    }
    false
}

/// The keys of `input`, each once and in order of first occurrence, without
/// `initiator_player_account`; and the storage size of a merge over them.
pub fn dedup_input(initiator_player_account: &Key, input: Vec<Key>) -> (r: (Vec<Key>, usize))
    requires
        Merged::size_for(input@.len()) <= usize::MAX,
    ensures
        r.0@ == distinct_without(input@, *initiator_player_account),
        r.1 == Merged::size_for(r.0@.len()),
{
    let x = *initiator_player_account;
    let mut keys: Vec<Key> = Vec::new();
    let mut i: usize = 0;
    while i < input.len()
        invariant
            i <= input@.len(),
            keys@ == distinct_without(input@.subrange(0, i as int), x),
            keys@.len() <= i,
        decreases input@.len() - i,
    {
        let k = input[i];
        proof {
            let s = input@.subrange(0, i as int + 1);
            assert(s.drop_last() =~= input@.subrange(0, i as int));
            assert(s.last() == k);
        }
        if !(k == x) && !contains_key(&keys, &k) {
            keys.push(k);
        }
        i = i + 1;
    }
    assert(input@.subrange(0, input@.len() as int) =~= input@);
    let size = Merged::size(keys.len());
    (keys, size)
}

impl Merged {
    /// The merge is complete exactly when every account has approved, and
    /// no account appears twice.
    pub open spec fn wf(&self) -> bool {
        &&& self.merge_complete == all_approved(self.approvals@)
        &&& keys_of(self.approvals@).no_duplicates()
    }

    /// Whether no account appears twice and the completion flag tells
    /// exactly whether every account has approved.
    pub fn is_well_formed(&self) -> (r: bool)
        ensures
            r == self.wf(),
    {
        let ghost a = self.approvals@;
        let n = self.approvals.len();
        let mut all = true;
        let mut i: usize = 0;
        while i < n
            invariant
                n == a.len(),
                a == self.approvals@,
                i <= n,
                all == forall|t: int| 0 <= t < i ==> (#[trigger] a[t]).approved,
                forall|x: int, y: int| 0 <= x < i && 0 <= y < n && x != y ==> a[x].key != a[y].key,
            decreases n - i,
        {
            if !self.approvals[i].approved {
                all = false;
            }
            let mut j: usize = 0;
            while j < n
                invariant
                    n == a.len(),
                    a == self.approvals@,
                    i < n,
                    j <= n,
                    forall|y: int| 0 <= y < j && y != i ==> a[i as int].key != a[y].key,
                decreases n - j,
            {
                if j != i && self.approvals[i].key == self.approvals[j].key {
                    proof {
                        assert(!keys_of(a).no_duplicates()) by {
                            assert(keys_of(a)[i as int] == keys_of(a)[j as int]);
                        }
                    }
                    return false;
                }
                j = j + 1;
            }
            i = i + 1;
        }
        proof {
            assert forall|x: int, y: int| 0 <= x < keys_of(a).len() && 0 <= y < keys_of(a).len() && x
                != y implies keys_of(a)[x] != keys_of(a)[y] by {
                assert(keys_of(a)[x] == a[x].key && keys_of(a)[y] == a[y].key);
            }
        }
        all == self.merge_complete
    }

    /// Storage size of a merge over `count` accounts.
    pub open spec fn size_for(count: nat) -> nat {
        (41 + 4 + count * MergeApproval::SIZE) as nat
    }

    /// Storage size of a merge over `count` accounts: discriminator,
    /// initiator, completion flag and the list of approvals.
    pub fn size(count: usize) -> (r: usize)
        requires
            Self::size_for(count as nat) <= usize::MAX,
        ensures
            r == Self::size_for(count as nat),
    {
        list_record_size(41, count, MergeApproval::SIZE)
    }

    /// Starts a merge by `initiator`, whose own player account is
    /// `player_account`, over the accounts `keys`: duplicates and
    /// `player_account` itself are dropped and every remaining account
    /// awaits approval. A merge over no account is complete at once.
    pub fn initiate(initiator: Key, player_account: Key, keys: Vec<Key>) -> (r: Merged)
        requires
            Self::size_for(keys@.len()) <= usize::MAX,
        ensures
            r.wf(),
            r.initiator == initiator,
            keys_of(r.approvals@) == distinct_without(keys@, player_account),
            forall|i: int| 0 <= i < r.approvals@.len() ==> !(#[trigger] r.approvals@[i]).approved,
            r.merge_complete == (r.approvals@.len() == 0),
    {
        let (unique, _) = dedup_input(&player_account, keys);
        proof {
            lemma_distinct_without(keys@, player_account);
        }
        let mut approvals: Vec<MergeApproval> = Vec::with_capacity(unique.len());
        let mut i: usize = 0;
        while i < unique.len()
            invariant
                i <= unique@.len(),
                approvals@.len() == i,
                forall|j: int|
                    0 <= j < i ==> (#[trigger] approvals@[j]).key == unique@[j] && !approvals@[j].approved,
            decreases unique@.len() - i,
        {
            approvals.push(MergeApproval::new(unique[i]));
            i = i + 1;
        }
        assert(keys_of(approvals@) =~= unique@);
        let merge_complete = approvals.len() == 0;
        proof {
            if approvals@.len() > 0 {
                assert(!approvals@[0].approved);
            }
        }
        Merged { initiator, approvals, merge_complete }
    }

    /// Whether `player` is one of the accounts of the merge.
    pub fn includes(&self, player: &Key) -> (r: Option<usize>)
        ensures
            r matches Some(i) ==> i < self.approvals@.len() && self.approvals@[i as int].key == *player,
            r is None ==> !keys_of(self.approvals@).contains(*player),
    {
        let mut i: usize = 0;
        while i < self.approvals.len()
            invariant
                i <= self.approvals@.len(),
                forall|j: int| 0 <= j < i ==> (#[trigger] self.approvals@[j]).key != *player,
            decreases self.approvals@.len() - i,
        {
            if self.approvals[i].key == *player {
                return Some(i);
            }
            i = i + 1;
        }
        proof {
            if keys_of(self.approvals@).contains(*player) {
                let j = choose|j: int|
                    0 <= j < keys_of(self.approvals@).len() && keys_of(self.approvals@)[j] == *player;
                assert(self.approvals@[j].key == *player);
            }
        }
        None
    }

    /// Records the approval of `player`. Approving twice is accepted and
    /// changes nothing more. Fails, changing nothing, when `player` is not
    /// one of the accounts of the merge.
    pub fn approve(&mut self, player: Key) -> (r: Result<(), SoarError>)
        requires
            old(self).wf(),
        ensures
            final(self).wf(),
            !keys_of(old(self).approvals@).contains(player) ==> r == Err::<(), SoarError>(
                SoarError::AccountNotPartOfMerge,
            ) && *final(self) == *old(self),
            keys_of(old(self).approvals@).contains(player) ==> r is Ok,
            r is Ok ==> {
                &&& final(self).initiator == old(self).initiator
                &&& final(self).approvals@.len() == old(self).approvals@.len()
                &&& forall|i: int|
                    0 <= i < old(self).approvals@.len() ==> {
                        &&& (#[trigger] final(self).approvals@[i]).key == old(self).approvals@[i].key
                        &&& final(self).approvals@[i].approved == (old(self).approvals@[i].approved
                            || old(self).approvals@[i].key == player)
                    }
            },
    {
        let ghost a = self.approvals@;
        let found = self.includes(&player);
        let i = match found {
            None => {
                return Err(SoarError::AccountNotPartOfMerge);
            },
            Some(i) => i,
        };
        let mut updated = self.approvals[i];
        updated.approved = true;
        self.approvals.set(i, updated);
        proof {
            assert(keys_of(a)[i as int] == player);
            assert forall|j: int| 0 <= j < a.len() && j != i implies a[j].key != player by {
                assert(keys_of(a)[j] == a[j].key && keys_of(a)[i as int] == a[i as int].key);
            }
            assert(keys_of(self.approvals@) =~= keys_of(a));
        }
        let mut all = true;
        let mut j: usize = 0;
        while j < self.approvals.len()
            invariant
                j <= self.approvals@.len(),
                all == forall|t: int| 0 <= t < j ==> (#[trigger] self.approvals@[t]).approved,
            decreases self.approvals@.len() - j,
        {
            if !self.approvals[j].approved {
                all = false;
            }
            j = j + 1;
        }
        if all {
            self.merge_complete = true;
        }
        proof {
            if !all && old(self).merge_complete {
                assert(all_approved(a));
                assert(all_approved(self.approvals@));
            }
        }
        Ok(())
    }
}

} // verus!
