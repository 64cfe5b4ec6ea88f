use crate::text::same;
use std::collections::VecDeque;
use vstd::hash_set::StringHashSet;
use vstd::prelude::*;

verus! {

/// How many event identifiers are remembered.
pub const DASHBOARD_RECENT_EVENT_IDS: usize = 16_384;

/// The identifiers of the events that were mirrored last, oldest first.
pub struct RecentDashboardEventIds {
    pub ids: StringHashSet,
    pub order: VecDeque<String>,
}

pub open spec fn id_views(order: Seq<String>) -> Seq<Seq<char>> {
    order.map_values(|id: String| id@)
}

impl RecentDashboardEventIds {
    /// The remembered identifiers, oldest first.
    pub open spec fn view(&self) -> Seq<Seq<char>> {
        id_views(self.order@)
    }

    /// No identifier is remembered twice, the set and the queue hold the same ones, and there are
    /// no more of them than the limit.
    pub open spec fn wf(&self) -> bool {
        &&& self@.no_duplicates()
        &&& self.ids@ == self@.to_set()
        &&& self@.len() <= DASHBOARD_RECENT_EVENT_IDS
    }

    /// Remembers an identifier and forgets the oldest one where there is no room. The answer is
    /// whether it was new.
    pub fn insert(&mut self, event_id: &str) -> (r: bool)
        requires
            old(self).wf(),
        ensures
            final(self).wf(),
            r == !old(self)@.contains(event_id@),
            final(self)@ == remembered(old(self)@, event_id@),
    {
        if self.ids.contains(event_id) {
            return false;
        }
        let ghost before = self@;
        self.ids.insert(event_id.to_owned());
        let id = event_id.to_owned();
        self.order.push_back(id);
        proof {
            assert(self@ =~= before.push(event_id@));
            lemma_push_set(before, event_id@);
        }
        if self.order.len() > DASHBOARD_RECENT_EVENT_IDS {
            let ghost full = self@;
            if let Some(expired) = self.order.pop_front() {
                self.ids.remove(expired.as_str());
                proof {
                    assert(self@ =~= full.drop_first());
                    assert(expired@ == full[0]);
                    lemma_pop_set(full);
                }
            }
        }
        true
    }

    /// Forgets an identifier, so that the same event can be mirrored again.
    pub fn remove(&mut self, event_id: &str)
        requires
            old(self).wf(),
        ensures
            final(self).wf(),
            final(self)@ == forgotten(old(self)@, event_id@),
    {
        let ghost before = self@;
        let ghost set_before = self.ids@;
        self.ids.remove(event_id);
        let mut kept: VecDeque<String> = VecDeque::new();
        let mut i: usize = 0;
        proof {
            assert(before.subrange(0, 0) =~= Seq::<Seq<char>>::empty());
            assert(id_views(kept@) =~= forgotten(before.subrange(0, 0), event_id@));
        }
        while i < self.order.len()
            invariant
                0 <= i <= self.order.len(),
                self@ == before,
                self.ids@ == set_before.remove(event_id@),
                id_views(kept@) == forgotten(before.subrange(0, i as int), event_id@),
            decreases self.order.len() - i,
        {
            let candidate = self.order[i].clone();
            proof {
                assert(before.subrange(0, i + 1).drop_last() =~= before.subrange(0, i as int));
                assert(before.subrange(0, i + 1).last() == candidate@);
                reveal(Seq::filter);
            }
            let ghost kept_before = id_views(kept@);
            if !same(candidate.as_str(), event_id) {
                kept.push_back(candidate);
                proof {
                    assert(id_views(kept@) =~= kept_before.push(candidate@));
                }
            }
            i = i + 1;
        }
        proof {
            assert(before.subrange(0, before.len() as int) =~= before);
            lemma_forget(before, event_id@);
        }
        self.order = kept;
        proof {
            assert(self.ids@ =~= self@.to_set());
        }
    }
}

/// What is remembered once an identifier came in.
pub open spec fn remembered(ids: Seq<Seq<char>>, id: Seq<char>) -> Seq<Seq<char>> {
    if ids.contains(id) {
        ids
    } else if ids.len() >= DASHBOARD_RECENT_EVENT_IDS {
        ids.push(id).drop_first()
    } else {
        ids.push(id)
    }
}

/// What is remembered once an identifier was forgotten.
pub open spec fn forgotten(ids: Seq<Seq<char>>, id: Seq<char>) -> Seq<Seq<char>> {
    ids.filter(|other: Seq<char>| other != id)
}

impl Default for RecentDashboardEventIds {
    fn default() -> (r: RecentDashboardEventIds)
        ensures
            r.wf(),
            r@ == Seq::<Seq<char>>::empty(),
    {
        let r = RecentDashboardEventIds { ids: StringHashSet::new(), order: VecDeque::new() };
        proof {
            assert(r@ =~= Seq::<Seq<char>>::empty());
            assert(r.ids@ =~= r@.to_set());
        }
        r
    }
}

proof fn lemma_push_set(ids: Seq<Seq<char>>, id: Seq<char>)
    requires
        ids.no_duplicates(),
        !ids.contains(id),
    ensures
        ids.push(id).no_duplicates(),
        ids.push(id).to_set() == ids.to_set().insert(id),
{
    broadcast use vstd::seq_lib::group_seq_properties;

    assert(ids.push(id).to_set() =~= ids.to_set().insert(id)) by {
        assert forall|x: Seq<char>| ids.push(id).to_set().contains(x) == ids.to_set().insert(
            id,
        ).contains(x) by {
            if ids.contains(x) {
                let k = choose|k: int| 0 <= k < ids.len() && ids[k] == x;
                assert(ids.push(id)[k] == x);
            }
            if x == id {
                assert(ids.push(id)[ids.len() as int] == x);
            }
        }
    }
}

proof fn lemma_pop_set(ids: Seq<Seq<char>>)
    requires
        ids.no_duplicates(),
        ids.len() > 0,
    ensures
        ids.drop_first().no_duplicates(),
        ids.drop_first().to_set() == ids.to_set().remove(ids[0]),
{
    let rest = ids.drop_first();
    assert(rest.to_set() =~= ids.to_set().remove(ids[0])) by {
        assert forall|x: Seq<char>| rest.to_set().contains(x) == ids.to_set().remove(
            ids[0],
        ).contains(x) by {
            if rest.contains(x) {
                let k = choose|k: int| 0 <= k < rest.len() && rest[k] == x;
                assert(ids[k + 1] == x);
            }
            if ids.contains(x) && x != ids[0] {
                let k = choose|k: int| 0 <= k < ids.len() && ids[k] == x;
                assert(rest[k - 1] == x);
            }
        }
    }
}

proof fn lemma_forget(ids: Seq<Seq<char>>, id: Seq<char>)
    requires
        ids.no_duplicates(),
    ensures
        forgotten(ids, id).no_duplicates(),
        forgotten(ids, id).to_set() == ids.to_set().remove(id),
        forgotten(ids, id).len() <= ids.len(),
        !forgotten(ids, id).contains(id),
    decreases ids.len(),
{
    reveal(Seq::filter);
    if ids.len() > 0 {
        let front = ids.drop_last();
        let last = ids.last();
        lemma_forget(front, id);
        assert(ids =~= front.push(last));
        assert(!front.contains(last)) by {
            if front.contains(last) {
                let k = choose|k: int| 0 <= k < front.len() && front[k] == last;
                assert(ids[k] == ids[ids.len() - 1]);
            }
        }
        lemma_push_set(front, last);
        if last != id {
            assert(!forgotten(front, id).to_set().contains(last));
            assert(!forgotten(front, id).contains(last));
            lemma_push_set(forgotten(front, id), last);
            assert(forgotten(ids, id) =~= forgotten(front, id).push(last));
            assert(front.to_set().remove(id).insert(last) =~= ids.to_set().remove(id));
            assert(!forgotten(ids, id).to_set().contains(id));
        } else {
            assert(forgotten(ids, id) =~= forgotten(front, id));
            assert(front.to_set().remove(id) =~= ids.to_set().remove(id));
        }
    } else {
        assert(forgotten(ids, id) =~= ids);
        assert(ids.to_set() =~= ids.to_set().remove(id));
    }
}

/// An identifier that was remembered counts as a duplicate until it is forgotten, and after that
/// it is new again.
pub proof fn law_deduplication_is_retryable(ids: Seq<Seq<char>>, id: Seq<char>)
    requires
        ids.no_duplicates(),
        ids.len() <= DASHBOARD_RECENT_EVENT_IDS,
    ensures
        remembered(ids, id).contains(id),
        !forgotten(remembered(ids, id), id).contains(id),
        remembered(forgotten(remembered(ids, id), id), id).contains(id),
{
    law_memory_is_bounded(ids, id);
    lemma_contains_new(ids, id);
    lemma_forget(remembered(ids, id), id);
    lemma_contains_new(forgotten(remembered(ids, id), id), id);
}

proof fn lemma_contains_new(ids: Seq<Seq<char>>, id: Seq<char>)
    ensures
        remembered(ids, id).contains(id),
{
    if !ids.contains(id) {
        let all = ids.push(id);
        assert(all[ids.len() as int] == id);
        if ids.len() >= DASHBOARD_RECENT_EVENT_IDS {
            assert(all.drop_first()[ids.len() - 1] == id);
        }
    }
}

/// However many identifiers come in, no more than the limit are remembered, none of them twice.
pub proof fn law_memory_is_bounded(ids: Seq<Seq<char>>, id: Seq<char>)
    requires
        ids.no_duplicates(),
        ids.len() <= DASHBOARD_RECENT_EVENT_IDS,
    ensures
        remembered(ids, id).len() <= DASHBOARD_RECENT_EVENT_IDS,
        remembered(ids, id).no_duplicates(),
{
    if !ids.contains(id) {
        lemma_push_set(ids, id);
        lemma_pop_set(ids.push(id));
    }
}

/// Remembering an identifier forgets nothing but the oldest one, and that only where the memory is
/// full; a known identifier changes nothing.
pub proof fn law_remembering_forgets_the_oldest_only(ids: Seq<Seq<char>>, id: Seq<char>)
    requires
        ids.no_duplicates(),
        ids.len() <= 16_384,
    ensures
        ids.contains(id) ==> remembered(ids, id) == ids,
        !ids.contains(id) && ids.len() < 16_384 ==> remembered(ids, id) == ids + seq![id],
        !ids.contains(id) && ids.len() == 16_384 ==> remembered(ids, id) == ids.subrange(
            1,
            ids.len() as int,
        ) + seq![id],
{
    assert(ids.push(id) =~= ids + seq![id]);
    if ids.len() == 16_384 {
        assert(ids.push(id).drop_first() =~= ids.subrange(1, ids.len() as int) + seq![id]);
    }
}

/// Forgetting an identifier forgets that one and no other.
pub proof fn law_forgetting_forgets_one_only(
    ids: Seq<Seq<char>>,
    id: Seq<char>,
    other: Seq<char>,
)
    ensures
        !forgotten(ids, id).contains(id),
        other != id ==> (forgotten(ids, id).contains(other) <==> ids.contains(other)),
        !ids.contains(id) ==> forgotten(ids, id) == ids,
    decreases ids.len(),
{
    reveal(Seq::filter);
    if ids.len() > 0 {
        let front = ids.drop_last();
        law_forgetting_forgets_one_only(front, id, other);
        let before = forgotten(front, id);
        assert(ids =~= front.push(ids.last()));
        if ids.last() != id {
            assert(forgotten(ids, id) == before.push(ids.last()));
            if before.contains(other) {
                let k = choose|k: int| 0 <= k < before.len() && before[k] == other;
                assert(before.push(ids.last())[k] == other);
            }
            assert(before.push(ids.last())[before.len() as int] == ids.last());
        } else {
            assert(forgotten(ids, id) == before);
        }
        if front.contains(other) {
            let k = choose|k: int| 0 <= k < front.len() && front[k] == other;
            assert(ids[k] == other);
        }
        if ids.contains(other) && ids.last() != other {
            let k = choose|k: int| 0 <= k < ids.len() && ids[k] == other;
            assert(front[k] == other);
        }
        if !ids.contains(id) {
            assert(ids[ids.len() - 1] != id);
            assert forall|k: int| 0 <= k < front.len() implies front[k] != id by {
                assert(ids[k] != id);
            }
            assert(!front.contains(id));
        }
    } else {
        assert(forgotten(ids, id) =~= ids);
    }
}

} // verus!
