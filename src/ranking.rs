use vstd::prelude::*;
use crate::capacity::list_record_size;
use crate::key::Key;
use crate::score::ScoreEntry;

verus! {

/// A player's score held in one slot of a ranking.
#[derive(Clone, Copy, Debug)]
pub struct LeaderBoardScore {
    /// The player holding the slot.
    pub player: Key,
    /// The player's score entry.
    pub entry: ScoreEntry,
}

impl LeaderBoardScore {
    /// Size of a serialized slot: the player key and the score entry.
    pub const SIZE: usize = 48;

    /// Creates a slot value.
    pub fn new(player: Key, entry: ScoreEntry) -> (r: LeaderBoardScore)
        ensures
            r.player == player,
            r.entry == entry,
    {
        LeaderBoardScore { player, entry }
    }
}

/// Whether score `a` ranks strictly better than score `b`: lower scores rank
/// better in ascending order, higher ones in descending order.
pub open spec fn ranks_above(is_ascending: bool, a: u64, b: u64) -> bool {
    if is_ascending {
        a < b
    } else {
        a > b
    }
}

/// No slot ranks strictly better than a slot before it.
pub open spec fn is_ranked(is_ascending: bool, s: Seq<LeaderBoardScore>) -> bool {
    forall|i: int, j: int|
        0 <= i < j < s.len() ==> !ranks_above(
            is_ascending,
            #[trigger] s[j].entry.score,
            #[trigger] s[i].entry.score,
        )
}

/// The first position at or after `i` whose score `score` ranks strictly
/// better than, or the length of `s` when there is none.
pub open spec fn rank_slot_from(is_ascending: bool, s: Seq<LeaderBoardScore>, score: u64, i: int) -> int
    decreases s.len() - i,
{
    if i >= s.len() {
        s.len() as int
    } else if ranks_above(is_ascending, score, s[i].entry.score) {
        i
    } else {
        rank_slot_from(is_ascending, s, score, i + 1)
    }
}

/// `s` with `e` placed right after every slot that ranks at least as well
/// as it: among equal scores, the earlier entry keeps the better place.
pub open spec fn insert_ranked(is_ascending: bool, s: Seq<LeaderBoardScore>, e: LeaderBoardScore) -> Seq<
    LeaderBoardScore,
> {
    s.insert(rank_slot_from(is_ascending, s, e.entry.score, 0), e)
}

/// The first position at or after `i` held by `player`, if any.
pub open spec fn slot_of_from(s: Seq<LeaderBoardScore>, player: Key, i: int) -> Option<int>
    decreases s.len() - i,
{
    if i < 0 || i >= s.len() {
        None
    } else if s[i].player == player {
        Some(i)
    } else {
        slot_of_from(s, player, i + 1)
    }
}

/// The first position held by `player`, if any.
pub open spec fn slot_of(s: Seq<LeaderBoardScore>, player: Key) -> Option<int> {
    slot_of_from(s, player, 0)
}

/// The slot a new score of `player` competes for: the player's own slot
/// when a player may hold only one and already holds one, else the last.
pub open spec fn contested_slot(s: Seq<LeaderBoardScore>, player: Key, allow_multiple: bool) -> int {
    if !allow_multiple && slot_of(s, player) is Some {
        slot_of(s, player)->0
    } else {
        s.len() - 1
    }
}

/// The slots after `cand` is considered for the ranking `s`, or `None` when
/// the ranking stays as it is: the candidate must rank strictly better than
/// the last slot and than the slot it competes for, which it then replaces.
pub open spec fn consider_outcome(
    is_ascending: bool,
    s: Seq<LeaderBoardScore>,
    cand: LeaderBoardScore,
    allow_multiple: bool,
) -> Option<Seq<LeaderBoardScore>> {
    let slot = contested_slot(s, cand.player, allow_multiple);
    if ranks_above(is_ascending, cand.entry.score, s[s.len() - 1].entry.score) && ranks_above(
        is_ascending,
        cand.entry.score,
        s[slot].entry.score,
    ) {
        Some(insert_ranked(is_ascending, s.remove(slot), cand))
    } else {
        None
    }
}

proof fn lemma_rank_slot_from(is_ascending: bool, s: Seq<LeaderBoardScore>, score: u64, i: int)
    requires
        0 <= i <= s.len(),
    ensures
        i <= rank_slot_from(is_ascending, s, score, i) <= s.len(),
        forall|j: int|
            i <= j < rank_slot_from(is_ascending, s, score, i) ==> !ranks_above(
                is_ascending,
                score,
                #[trigger] s[j].entry.score,
            ),
        rank_slot_from(is_ascending, s, score, i) < s.len() ==> ranks_above(
            is_ascending,
            score,
            s[rank_slot_from(is_ascending, s, score, i)].entry.score,
        ),
    decreases s.len() - i,
{
    if i < s.len() && !ranks_above(is_ascending, score, s[i].entry.score) {
        lemma_rank_slot_from(is_ascending, s, score, i + 1);
    }
}

proof fn lemma_slot_of_from(s: Seq<LeaderBoardScore>, player: Key, i: int)
    requires
        0 <= i <= s.len(),
    ensures
        slot_of_from(s, player, i) is Some ==> {
            let k = slot_of_from(s, player, i)->0;
            &&& i <= k < s.len()
            &&& s[k].player == player
        },
        slot_of_from(s, player, i) is None ==> forall|j: int|
            i <= j < s.len() ==> #[trigger] s[j].player != player,
    decreases s.len() - i,
{
    if i < s.len() && s[i].player != player {
        lemma_slot_of_from(s, player, i + 1);
    }
}

/// Removing a slot from a ranked sequence leaves it ranked.
pub proof fn lemma_remove_keeps_order(is_ascending: bool, s: Seq<LeaderBoardScore>, k: int)
    requires
        is_ranked(is_ascending, s),
        0 <= k < s.len(),
    ensures
        is_ranked(is_ascending, s.remove(k)),
{
    let t = s.remove(k);
    assert forall|i: int, j: int| 0 <= i < j < t.len() implies !ranks_above(
        is_ascending,
        #[trigger] t[j].entry.score,
        #[trigger] t[i].entry.score,
    ) by {
        let si = if i < k { i } else { i + 1 };
        let sj = if j < k { j } else { j + 1 };
        assert(t[i] == s[si]);
        assert(t[j] == s[sj]);
        assert(!ranks_above(is_ascending, s[sj].entry.score, s[si].entry.score));
    }
}

/// Placing a slot by rank into a ranked sequence leaves it ranked, one
/// slot longer.
pub proof fn lemma_insert_ranked_keeps_order(
    is_ascending: bool,
    s: Seq<LeaderBoardScore>,
    e: LeaderBoardScore,
)
    requires
        is_ranked(is_ascending, s),
    ensures
        is_ranked(is_ascending, insert_ranked(is_ascending, s, e)),
        insert_ranked(is_ascending, s, e).len() == s.len() + 1,
{
    let k = rank_slot_from(is_ascending, s, e.entry.score, 0);
    lemma_rank_slot_from(is_ascending, s, e.entry.score, 0);
    let t = s.insert(k, e);
    assert forall|i: int, j: int| 0 <= i < j < t.len() implies !ranks_above(
        is_ascending,
        #[trigger] t[j].entry.score,
        #[trigger] t[i].entry.score,
    ) by {
        if j < k {
            assert(t[i] == s[i] && t[j] == s[j]);
        } else if j == k {
            assert(t[i] == s[i] && t[j] == e);
        } else if i < k {
            assert(t[i] == s[i] && t[j] == s[j - 1]);
            assert(!ranks_above(is_ascending, s[j - 1].entry.score, s[i].entry.score));
        } else if i == k {
            assert(t[i] == e && t[j] == s[j - 1]);
            assert(ranks_above(is_ascending, e.entry.score, s[k].entry.score));
            if j - 1 > k {
                assert(!ranks_above(is_ascending, s[j - 1].entry.score, s[k].entry.score));
            }
        } else {
            assert(t[i] == s[i - 1] && t[j] == s[j - 1]);
            assert(!ranks_above(is_ascending, s[j - 1].entry.score, s[i - 1].entry.score));
        }
    }
}

/// Considering a candidate for a ranking never changes its number of slots
/// and leaves the slots ranked.
pub proof fn lemma_consider_keeps_shape(
    is_ascending: bool,
    s: Seq<LeaderBoardScore>,
    cand: LeaderBoardScore,
    allow_multiple: bool,
)
    requires
        s.len() > 0,
        is_ranked(is_ascending, s),
    ensures
        consider_outcome(is_ascending, s, cand, allow_multiple) is Some ==> {
            let t = consider_outcome(is_ascending, s, cand, allow_multiple)->0;
            &&& t.len() == s.len()
            &&& is_ranked(is_ascending, t)
        },
{
    let slot = contested_slot(s, cand.player, allow_multiple);
    lemma_slot_of_from(s, cand.player, 0);
    assert(0 <= slot < s.len());
    lemma_remove_keeps_order(is_ascending, s, slot);
    lemma_insert_ranked_keeps_order(is_ascending, s.remove(slot), cand);
}

/// Whether `a` ranks strictly better than `b` under the given order.
pub fn outranks(is_ascending: bool, a: u64, b: u64) -> (r: bool)
    ensures
        r == ranks_above(is_ascending, a, b),
{
    if is_ascending {
        a < b
    } else {
        a > b
    }
}

/// A leaderboard's top scores, kept ranked in a fixed number of slots.
#[derive(Clone, Debug)]
pub struct LeaderTopEntries {
    /// Ranking order: `true` when lower scores rank better.
    pub is_ascending: bool,
    /// The slots, best first.
    pub top_scores: Vec<LeaderBoardScore>,
}

impl LeaderTopEntries {
    /// The ranking has at least one slot and its slots are ranked.
    pub open spec fn wf(&self) -> bool {
        &&& self.top_scores@.len() > 0
        &&& is_ranked(self.is_ascending, self.top_scores@)
    }

    /// The score held by an unfilled slot: the largest allowed score in
    /// ascending order, zero in descending order.
    pub open spec fn sentinel_score(is_ascending: bool, max_score: u64) -> u64 {
        if is_ascending {
            max_score
        } else {
            0
        }
    }

    /// Whether the ranking has at least one slot and its slots are ranked.
    pub fn is_well_formed(&self) -> (r: bool)
        ensures
            r == self.wf(),
    {
        let n = self.top_scores.len();
        if n == 0 {
            return false;
        }
        let asc = self.is_ascending;
        let ghost s = self.top_scores@;
        let mut i: usize = 1;
        while i < n
            invariant
                n == s.len(),
                s == self.top_scores@,
                asc == self.is_ascending,
                1 <= i <= n,
                is_ranked(asc, s.subrange(0, i as int)),
            decreases n - i,
        {
            if outranks(asc, self.top_scores[i].entry.score, self.top_scores[i - 1].entry.score) {
                proof {
                    assert(!is_ranked(asc, s)) by {
                        assert(ranks_above(asc, s[i as int].entry.score, s[i - 1].entry.score));
                    }
                }
                return false;
            }
            proof {
                let p = s.subrange(0, i as int);
                let q = s.subrange(0, i as int + 1);
                assert forall|a: int, b: int| 0 <= a < b < q.len() implies !ranks_above(
                    asc,
                    #[trigger] q[b].entry.score,
                    #[trigger] q[a].entry.score,
                ) by {
                    if b < i {
                        assert(q[a] == p[a] && q[b] == p[b]);
                    } else if a < i - 1 {
                        assert(q[a] == p[a] && q[i - 1] == p[i - 1]);
                        assert(!ranks_above(asc, p[i - 1].entry.score, p[a].entry.score));
                    }
                }
            }
            i = i + 1;
        }
        proof {
            assert(s.subrange(0, n as int) =~= s);
        }
        true
    }

    /// Storage size of a ranking with `scores_to_retain` slots:
    /// discriminator, order flag and the list of slots.
    pub fn size(scores_to_retain: usize) -> (r: usize)
        requires
            9 + 4 + scores_to_retain * LeaderBoardScore::SIZE <= usize::MAX,
        ensures
            r == 9 + 4 + scores_to_retain * LeaderBoardScore::SIZE,
    {
        list_record_size(9, scores_to_retain, LeaderBoardScore::SIZE)
    }

    /// A ranking of `retain_count` unfilled slots for a leaderboard whose
    /// largest allowed score is `max_score`.
    pub fn new(retain_count: usize, is_ascending: bool, max_score: u64) -> (r: LeaderTopEntries)
        requires
            retain_count > 0,
        ensures
            r.wf(),
            r.is_ascending == is_ascending,
            r.top_scores@.len() == retain_count,
            forall|i: int|
                0 <= i < retain_count ==> {
                    &&& (#[trigger] r.top_scores@[i]).player.is_zero()
                    &&& r.top_scores@[i].entry == ScoreEntry {
                        score: Self::sentinel_score(is_ascending, max_score),
                        timestamp: 0,
                    }
                },
    {
        let score = if is_ascending {
            max_score
        } else {
            0
        };
        let slot = LeaderBoardScore::new(Key::zero(), ScoreEntry::new(score, 0));
        let mut top_scores: Vec<LeaderBoardScore> = Vec::with_capacity(retain_count);
        let mut i: usize = 0;
        while i < retain_count
            invariant
                i <= retain_count,
                top_scores@.len() == i,
                slot.player.is_zero(),
                slot.entry.score == score,
                slot.entry.timestamp == 0,
                forall|j: int| 0 <= j < i ==> #[trigger] top_scores@[j] == slot,
            decreases retain_count - i,
        {
            top_scores.push(slot);
            i = i + 1;
        }
        LeaderTopEntries { is_ascending, top_scores }
    }

    /// Sets the ranking order. When it changes, the slots are reversed so
    /// that they stay ranked under the new order.
    pub fn set_ordering(&mut self, is_ascending: bool)
        requires
            old(self).wf(),
        ensures
            final(self).wf(),
            final(self).is_ascending == is_ascending,
            final(self).top_scores@.len() == old(self).top_scores@.len(),
            is_ascending == old(self).is_ascending ==> final(self).top_scores@ == old(self).top_scores@,
            is_ascending != old(self).is_ascending ==> final(self).top_scores@
                == old(self).top_scores@.reverse(),
    {
        if is_ascending == self.is_ascending {
            return;
        }
        let ghost s = self.top_scores@;
        let n = self.top_scores.len();
        let mut reversed: Vec<LeaderBoardScore> = Vec::with_capacity(n);
        let mut i: usize = 0;
        while i < n
            invariant
                n == s.len(),
                s == self.top_scores@,
                i <= n,
                reversed@.len() == i,
                forall|j: int| 0 <= j < i ==> #[trigger] reversed@[j] == s[n - 1 - j],
            decreases n - i,
        {
            reversed.push(self.top_scores[n - 1 - i]);
            i = i + 1;
        }
        proof {
            assert(reversed@ =~= s.reverse());
            assert forall|a: int, b: int| 0 <= a < b < reversed@.len() implies !ranks_above(
                is_ascending,
                #[trigger] reversed@[b].entry.score,
                #[trigger] reversed@[a].entry.score,
            ) by {
                assert(reversed@[a] == s[n - 1 - a] && reversed@[b] == s[n - 1 - b]);
                assert(!ranks_above(!is_ascending, s[n - 1 - a].entry.score, s[n - 1 - b].entry.score));
            }
        }
        self.top_scores = reversed;
        self.is_ascending = is_ascending;
    }

    /// The first slot held by `player`, if any.
    pub fn position_of(&self, player: &Key) -> (r: Option<usize>)
        ensures
            r matches Some(i) ==> slot_of(self.top_scores@, *player) == Some(i as int),
            r is None ==> slot_of(self.top_scores@, *player) is None,
    {
        let mut i: usize = 0;
        while i < self.top_scores.len()
            invariant
                i <= self.top_scores@.len(),
                slot_of(self.top_scores@, *player) == slot_of_from(self.top_scores@, *player, i as int),
            decreases self.top_scores@.len() - i,
        {
            if self.top_scores[i].player == *player {
                return Some(i);
            }
            i = i + 1;
        }
        None
    }

    /// Whether `player` holds a slot.
    pub fn contains_player(&self, player: &Key) -> (r: bool)
        ensures
            r == exists|i: int| 0 <= i < self.top_scores@.len() && #[trigger] self.top_scores@[i].player == *player,
    {
        let p = self.position_of(player);
        proof {
            lemma_slot_of_from(self.top_scores@, *player, 0);
        }
        p.is_some()
    }

    /// The position at which a slot with `score` is placed by rank.
    fn rank_slot(&self, score: u64) -> (r: usize)
        ensures
            r == rank_slot_from(self.is_ascending, self.top_scores@, score, 0),
    {
        let mut i: usize = 0;
        while i < self.top_scores.len()
            invariant
                i <= self.top_scores@.len(),
                rank_slot_from(self.is_ascending, self.top_scores@, score, 0) == rank_slot_from(
                    self.is_ascending,
                    self.top_scores@,
                    score,
                    i as int,
                ),
            decreases self.top_scores@.len() - i,
        {
            if outranks(self.is_ascending, score, self.top_scores[i].entry.score) {
                return i;
            }
            i = i + 1;
        }
        i
    }

    /// Considers `entry`, just submitted by `player`, for the ranking.
    ///
    /// The candidate competes for the last slot or, when a player may hold
    /// only one slot and `player` already holds one, for that slot. It
    /// replaces that slot when it ranks strictly better than both it and the
    /// last slot, and is then placed by rank, after every slot with an equal
    /// score. Returns whether the ranking changed.
    pub fn consider(&mut self, player: Key, entry: ScoreEntry, allow_multiple: bool) -> (r: bool)
        requires
            old(self).wf(),
        ensures
            final(self).wf(),
            final(self).is_ascending == old(self).is_ascending,
            final(self).top_scores@.len() == old(self).top_scores@.len(),
            r == consider_outcome(
                old(self).is_ascending,
                old(self).top_scores@,
                LeaderBoardScore { player, entry },
                allow_multiple,
            ) is Some,
            r ==> final(self).top_scores@ == consider_outcome(
                old(self).is_ascending,
                old(self).top_scores@,
                LeaderBoardScore { player, entry },
                allow_multiple,
            )->0,
            !r ==> final(self).top_scores@ == old(self).top_scores@,
    {
        let ghost s = self.top_scores@;
        let cand = LeaderBoardScore::new(player, entry);
        proof {
            lemma_consider_keeps_shape(self.is_ascending, s, cand, allow_multiple);
            lemma_slot_of_from(s, player, 0);
        }
        let last = self.top_scores.len() - 1;
        if !outranks(self.is_ascending, entry.score, self.top_scores[last].entry.score) {
            return false;
        }
        let mut slot = last;
        if !allow_multiple {
            if let Some(i) = self.position_of(&player) {
                slot = i;
            }
        }
        assert(slot == contested_slot(s, player, allow_multiple));
        if !outranks(self.is_ascending, entry.score, self.top_scores[slot].entry.score) {
            return false;
        }
        self.top_scores.remove(slot);
        let k = self.rank_slot(entry.score);
        proof {
            lemma_rank_slot_from(self.is_ascending, self.top_scores@, entry.score, 0);
        }
        self.top_scores.insert(k, cand);
        assert(self.top_scores@ == insert_ranked(self.is_ascending, s.remove(slot as int), cand));
        true
    }
}

} // verus!
