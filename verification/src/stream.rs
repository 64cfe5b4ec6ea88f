use crate::event::Event;
use crate::json;
use crate::json::{get, get_at, get_text, get_text_or_empty, get_u64_or_zero, Json};
use crate::session_io;
use crate::session_io::{cursor, event_wire, EventRecord, ReceiveFormat, Subscription, WireEvent};
use crate::text::same;
use vstd::hash_map::StringHashMap;
use vstd::hash_set::StringHashSet;
use vstd::prelude::*;

verus! {

/// One open stream of a session's events and drafts.
pub struct IoStream {
    pub session: String,
    /// The position behind the last durable event that was sent.
    pub after: u64,
    /// Whether the snapshots of open drafts were not sent yet.
    pub first: bool,
    /// How far each draft was sent.
    pub seen: StringHashMap<u64>,
    /// The turns that came to their end.
    pub terminal_roots: StringHashSet,
}

/// What is done with the snapshot of a draft.
#[derive(PartialEq, Eq, Structural, Clone, Copy, Debug)]
pub enum SnapshotStep {
    Skip,
    /// It is sent; where the client holds an older part of the draft, a reset goes first.
    Send { reset: bool },
}

/// What is done with an update of a draft.
#[derive(PartialEq, Eq, Structural, Clone, Copy, Debug)]
pub enum UpdateStep {
    Skip,
    Forward,
    /// A part is missing: a reset is sent, and then the draft's snapshot where there is one.
    Resync,
}

pub open spec fn is_terminal_event(event: Event) -> bool {
    ||| event.topic@ == "chat/reply"@
    ||| event.topic@ == "chat/no_reply"@
    ||| event.topic@ == "chat/cancelled"@
    ||| event.topic@ == "session/io_state"@
    ||| json::member(event.payload@, "terminal_kind"@) is Some
}

/// The ended turns once a durable event was read.
pub open spec fn roots_after(roots: Set<Seq<char>>, event: Event) -> Set<Seq<char>> {
    match json::text_member(event.payload@, "root_turn_id"@) {
        Some(root) if is_terminal_event(event) => roots.insert(root),
        _ => roots,
    }
}

/// The position once a durable event was read. It never goes back.
pub open spec fn position_after(after: u64, event: Event) -> u64 {
    match event.sequence {
        Some(sequence) if sequence > after => sequence,
        _ => after,
    }
}

/// What is done with a snapshot, and how far its draft was then sent.
pub open spec fn snapshot_step(
    seen: Map<Seq<char>, u64>,
    roots: Set<Seq<char>>,
    snapshot: Json,
) -> (SnapshotStep, Map<Seq<char>, u64>) {
    let id = json::text_or_empty(snapshot, "output_id"@);
    let seq = json::u64_or_zero(snapshot, "delta_seq"@);
    if roots.contains(json::text_or_empty(snapshot, "root_turn_id"@)) {
        (SnapshotStep::Skip, seen)
    } else if seen.contains_key(id) && seen[id] >= seq {
        (SnapshotStep::Skip, seen)
    } else {
        (SnapshotStep::Send { reset: seen.contains_key(id) }, seen.insert(id, seq))
    }
}

/// The number that the next part of a draft has.
pub open spec fn next_delta(seen: Map<Seq<char>, u64>, id: Seq<char>) -> int {
    if seen.contains_key(id) {
        seen[id] + 1
    } else {
        1
    }
}

/// What is done with an update, and how far its draft was then sent.
pub open spec fn update_step(
    seen: Map<Seq<char>, u64>,
    roots: Set<Seq<char>>,
    update: Json,
) -> (UpdateStep, Map<Seq<char>, u64>) {
    let id = json::text_or_empty(update, "output_id"@);
    let seq = json::u64_or_zero(update, "delta_seq"@);
    let is_delta = json::text_or_empty(update, "type"@) == "output.delta"@;
    if roots.contains(json::text_or_empty(update, "root_turn_id"@)) {
        (UpdateStep::Skip, seen)
    } else if is_delta && seen.contains_key(id) && seq <= seen[id] {
        (UpdateStep::Skip, seen)
    } else if is_delta && seq != next_delta(seen, id) {
        (UpdateStep::Resync, seen)
    } else {
        (UpdateStep::Forward, seen.insert(id, seq))
    }
}

/// The first snapshot of a draft.
pub open spec fn snapshot_of(snapshots: Seq<Json>, id: Seq<char>) -> Option<int>
    decreases snapshots.len(),
{
    if snapshots.len() == 0 {
        None
    } else {
        match snapshot_of(snapshots.drop_last(), id) {
            Some(i) => Some(i),
            None => if json::text_at(snapshots.last(), "output_id"@) == Some(id) {
                Some(snapshots.len() - 1)
            } else {
                None
            },
        }
    }
}

/// Whether a client follows drafts of chat output.
pub open spec fn follows_drafts(preferences: Subscription) -> bool {
    ||| session_io::inspects_unknown(preferences)
    ||| match preferences.receive_formats {
        Some(formats) => exists|i: int|
            0 <= i < formats@.len() && #[trigger] is_chat_format(formats@[i]),
        None => false,
    }
}

pub open spec fn is_chat_format(format: ReceiveFormat) -> bool {
    format.id@ == "morphz.chat"@ && format.version@ == "1"@
}

pub fn can_inspect_chat(preferences: &Subscription) -> (r: bool)
    ensures
        r == follows_drafts(*preferences),
{
    if same(preferences.receive_unknown.as_str(), "inspect") {
        return true;
    }
    match &preferences.receive_formats {
        Some(formats) => {
            let mut i: usize = 0;
            while i < formats.len()
                invariant
                    preferences.receive_formats == Some(*formats),
                    0 <= i <= formats.len(),
                    forall|j: int| 0 <= j < i ==> !#[trigger] is_chat_format(formats@[j]),
                decreases formats.len() - i,
            {
                if same(formats[i].id.as_str(), "morphz.chat") && same(
                    formats[i].version.as_str(),
                    "1",
                ) {
                    proof {
                        let list = preferences.receive_formats->0;
                        assert(is_chat_format(list@[i as int]));
                    }
                    return true;
                }
                i = i + 1;
            }
            false
        },
        None => false,
    }
}

impl IoStream {
    pub fn open(session: String, after: u64) -> (r: IoStream)
        ensures
            r.session == session,
            r.after == after,
            r.first,
            r.seen@ == Map::<Seq<char>, u64>::empty(),
            r.terminal_roots@ == Set::<Seq<char>>::empty(),
    {
        IoStream {
            session,
            after,
            first: true,
            seen: StringHashMap::new(),
            terminal_roots: StringHashSet::new(),
        }
    }

    /// The cursor that a client resumes from.
    pub fn cursor(&self) -> (r: String)
        ensures
            r@ == session_io::cursor_text(self.session@, self.after),
    {
        cursor(self.session.as_str(), self.after)
    }

    /// Whether the connection remembers so much that it is reset.
    pub fn history_is_full(&self) -> (r: bool)
        ensures
            r == (self.seen@.len() > session_io::IO_HISTORY_LIMIT || self.terminal_roots@.len()
                > session_io::IO_HISTORY_LIMIT),
    {
        self.seen.len() > session_io::IO_HISTORY_LIMIT || self.terminal_roots.len()
            > session_io::IO_HISTORY_LIMIT
    }

    /// A durable event: the stream moves behind it, and it is sent where clients see it.
    pub fn on_record<'a>(
        &mut self,
        record: &'a EventRecord,
        preferences: &Subscription,
    ) -> (r: Option<WireEvent<'a>>)
        ensures
            final(self).session == old(self).session,
            final(self).first == old(self).first,
            final(self).seen@ == old(self).seen@,
            final(self).after == position_after(old(self).after, record.event),
            final(self).terminal_roots@ == roots_after(old(self).terminal_roots@, record.event),
            match session_io::wire_class(*record) {
                Some((kind, message)) => r matches Some(shown) && shown.shows(
                    *record,
                    *preferences,
                    kind,
                    message,
                ),
                None => r is None,
            },
    {
        match record.event.sequence {
            Some(sequence) => {
                if sequence > self.after {
                    self.after = sequence;
                }
            },
            None => {},
        }
        let topic = record.event.topic.as_str();
        let terminal: bool = same(topic, "chat/reply") || same(topic, "chat/no_reply") || same(
            topic,
            "chat/cancelled",
        ) || same(topic, "session/io_state") || get(
            &record.event.payload,
            "terminal_kind",
        ).is_some();
        if terminal {
            match get_text(&record.event.payload, "root_turn_id") {
                Some(root) => {
                    self.terminal_roots.insert(root.clone());
                },
                None => {},
            }
        }
        event_wire(record, preferences)
    }

    /// Whether the durable gap is drained after a batch of this size.
    pub fn is_drained(count: usize) -> (r: bool)
        ensures
            r == (count < session_io::IO_BATCH_SIZE),
    {
        count < session_io::IO_BATCH_SIZE
    }

    /// Whether the snapshots of open drafts are due: at first, and at every tick.
    pub fn wants_snapshots(&self, ticked: bool) -> (r: bool)
        ensures
            r == (self.first || ticked),
    {
        self.first || ticked
    }

    /// The snapshot of an open draft. It replaces what the client holds of the draft and is never
    /// sent as new text.
    pub fn on_snapshot(&mut self, snapshot: &Json) -> (r: SnapshotStep)
        ensures
            (r, final(self).seen@) == snapshot_step(
                old(self).seen@,
                old(self).terminal_roots@,
                *snapshot,
            ),
            final(self).session == old(self).session,
            final(self).after == old(self).after,
            final(self).first == old(self).first,
            final(self).terminal_roots@ == old(self).terminal_roots@,
    {
        if self.terminal_roots.contains(get_text_or_empty(snapshot, "root_turn_id")) {
            return SnapshotStep::Skip;
        }
        let id = get_text_or_empty(snapshot, "output_id");
        let seq: u64 = get_u64_or_zero(snapshot, "delta_seq");
        let reset: bool = match self.seen.get(id) {
            Some(previous) => {
                if *previous >= seq {
                    return SnapshotStep::Skip;
                }
                true
            },
            None => false,
        };
        self.seen.insert(id.to_owned(), seq);
        SnapshotStep::Send { reset }
    }

    pub fn snapshots_done(&mut self)
        ensures
            *final(self) == (IoStream { first: false, ..*old(self) }),
    {
        self.first = false;
    }

    /// An update of a draft. The parts of a draft are sent without a gap, and none after its turn
    /// ended.
    pub fn on_update(&mut self, update: &Json) -> (r: UpdateStep)
        ensures
            (r, final(self).seen@) == update_step(
                old(self).seen@,
                old(self).terminal_roots@,
                *update,
            ),
            final(self).session == old(self).session,
            final(self).after == old(self).after,
            final(self).first == old(self).first,
            final(self).terminal_roots@ == old(self).terminal_roots@,
    {
        if self.terminal_roots.contains(get_text_or_empty(update, "root_turn_id")) {
            return UpdateStep::Skip;
        }
        let id = get_text_or_empty(update, "output_id");
        let seq: u64 = get_u64_or_zero(update, "delta_seq");
        let is_delta: bool = same(get_text_or_empty(update, "type"), "output.delta");
        if is_delta {
            match self.seen.get(id) {
                Some(previous) => {
                    if seq <= *previous {
                        return UpdateStep::Skip;
                    }
                    if seq - 1 != *previous {
                        return UpdateStep::Resync;
                    }
                },
                None => {
                    if seq != 1 {
                        return UpdateStep::Resync;
                    }
                },
            }
        }
        self.seen.insert(id.to_owned(), seq);
        UpdateStep::Forward
    }

    /// After a gap: the position of the draft's snapshot, where there is one. The draft goes on
    /// from there.
    pub fn on_resync(&mut self, update: &Json, snapshots: &Vec<Json>) -> (r: Option<usize>)
        ensures
            ({
                let id = json::text_or_empty(*update, "output_id"@);
                match snapshot_of(snapshots@, id) {
                    Some(i) => r matches Some(k) && k == i && k < snapshots@.len()
                        && final(self).seen@ == old(self).seen@.insert(
                        id,
                        json::u64_or_zero(snapshots@[i], "delta_seq"@),
                    ),
                    None => r is None && final(self).seen@ == old(self).seen@,
                }
            }),
            final(self).session == old(self).session,
            final(self).after == old(self).after,
            final(self).first == old(self).first,
            final(self).terminal_roots@ == old(self).terminal_roots@,
    {
        let id = get_text_or_empty(update, "output_id");
        let mut i: usize = 0;
        proof {
            assert(snapshots@.subrange(0, 0) =~= Seq::<Json>::empty());
        }
        while i < snapshots.len()
            invariant
                0 <= i <= snapshots.len(),
                id@ == json::text_or_empty(*update, "output_id"@),
                *self == *old(self),
                snapshot_of(snapshots@.subrange(0, i as int), id@) is None,
            decreases snapshots.len() - i,
        {
            proof {
                assert(snapshots@.subrange(0, i + 1).drop_last() =~= snapshots@.subrange(
                    0,
                    i as int,
                ));
            }
            let found: bool = match get_at(&snapshots[i], "output_id") {
                Some(Json::Text(text)) => same(text.as_str(), id),
                _ => false,
            };
            if found {
                proof {
                    lemma_snapshot_prefix(snapshots@, id@, i + 1);
                }
                self.seen.insert(id.to_owned(), get_u64_or_zero(&snapshots[i], "delta_seq"));
                return Some(i);
            }
            i = i + 1;
        }
        proof {
            assert(snapshots@.subrange(0, snapshots@.len() as int) =~= snapshots@);
        }
        None
    }
}

proof fn lemma_snapshot_prefix(snapshots: Seq<Json>, id: Seq<char>, n: int)
    requires
        0 <= n <= snapshots.len(),
        snapshot_of(snapshots.subrange(0, n), id) is Some,
    ensures
        snapshot_of(snapshots, id) == snapshot_of(snapshots.subrange(0, n), id),
    decreases snapshots.len() - n,
{
    if n == snapshots.len() {
        assert(snapshots.subrange(0, n) =~= snapshots);
    } else {
        assert(snapshots.subrange(0, n + 1).drop_last() =~= snapshots.subrange(0, n));
        lemma_snapshot_prefix(snapshots, id, n + 1);
    }
}

/// Every forwarded part of a draft is the one that follows what was sent of it.
pub proof fn law_drafts_are_sent_without_gaps(
    seen: Map<Seq<char>, u64>,
    roots: Set<Seq<char>>,
    update: Json,
)
    requires
        update_step(seen, roots, update).0 == UpdateStep::Forward,
        json::text_or_empty(update, "type"@) == "output.delta"@,
    ensures
        ({
            let id = json::text_or_empty(update, "output_id"@);
            &&& json::u64_or_zero(update, "delta_seq"@) == next_delta(seen, id)
            &&& update_step(seen, roots, update).1[id] == next_delta(seen, id)
        }),
{
}

/// After a turn ended, nothing of its drafts is sent.
pub proof fn law_no_draft_after_the_end_of_its_turn(
    seen: Map<Seq<char>, u64>,
    roots: Set<Seq<char>>,
    event: Event,
    draft: Json,
)
    requires
        is_terminal_event(event),
        json::text_member(event.payload@, "root_turn_id"@) == Some(
            json::text_or_empty(draft, "root_turn_id"@),
        ),
    ensures
        update_step(seen, roots_after(roots, event), draft).0 == UpdateStep::Skip,
        snapshot_step(seen, roots_after(roots, event), draft).0 == SnapshotStep::Skip,
{
}

/// A stream's position never goes back, and an ended turn stays ended.
pub proof fn law_stream_only_moves_forward(after: u64, roots: Set<Seq<char>>, event: Event)
    ensures
        position_after(after, event) >= after,
        event.sequence matches Some(sequence) ==> position_after(after, event) >= sequence,
        roots.subset_of(roots_after(roots, event)),
{
}

/// What was sent of a draft never shrinks by a snapshot or a forwarded part.
pub proof fn law_draft_progress_never_shrinks(
    seen: Map<Seq<char>, u64>,
    roots: Set<Seq<char>>,
    draft: Json,
    id: Seq<char>,
)
    requires
        seen.contains_key(id),
        json::text_or_empty(draft, "type"@) == "output.delta"@,
    ensures
        snapshot_step(seen, roots, draft).1[id] >= seen[id],
        update_step(seen, roots, draft).1[id] >= seen[id],
{
}

/// Every update of a draft whose turn has not ended is dealt with by what was sent of the draft, 0
/// where nothing was sent. The part that follows is forwarded and noted, so that the one after it
/// follows in turn; a later part asks for a resync and notes nothing; only a part that was sent
/// already is passed over; and what is no part is always forwarded.
pub proof fn law_every_update_is_dealt_with(
    seen: Map<Seq<char>, u64>,
    roots: Set<Seq<char>>,
    update: Json,
)
    requires
        !roots.contains(json::text_or_empty(update, "root_turn_id"@)),
    ensures
        ({
            let id = json::text_or_empty(update, "output_id"@);
            let seq = json::u64_or_zero(update, "delta_seq"@);
            let sent: int = if seen.contains_key(id) {
                seen[id] as int
            } else {
                0
            };
            let step = update_step(seen, roots, update);
            if json::text_or_empty(update, "type"@) == "output.delta"@ {
                &&& seq == sent + 1 ==> step.0 == UpdateStep::Forward && step.1[id] == seq
                    && step.1.dom() == seen.dom().insert(id)
                &&& seq > sent + 1 ==> step.0 == UpdateStep::Resync && step.1 == seen
                &&& seen.contains_key(id) && seq <= sent ==> step.0 == UpdateStep::Skip && step.1
                    == seen
                &&& !seen.contains_key(id) ==> step.0 != UpdateStep::Skip
            } else {
                step.0 == UpdateStep::Forward && step.1[id] == seq && step.1.dom()
                    == seen.dom().insert(id)
            }
        }),
        forall|other: Seq<char>|
            other != json::text_or_empty(update, "output_id"@) && seen.contains_key(other)
                ==> #[trigger] update_step(seen, roots, update).1[other] == seen[other],
{
}

/// A draft that begins after the client connected arrives whole: its first part is forwarded, and
/// after a part was forwarded the next one is.
pub proof fn law_new_drafts_arrive_from_their_first_part(
    seen: Map<Seq<char>, u64>,
    roots: Set<Seq<char>>,
    first: Json,
    next: Json,
)
    requires
        json::text_or_empty(first, "type"@) == "output.delta"@,
        json::text_or_empty(next, "type"@) == "output.delta"@,
        !roots.contains(json::text_or_empty(first, "root_turn_id"@)),
        !roots.contains(json::text_or_empty(next, "root_turn_id"@)),
        json::text_or_empty(first, "output_id"@) == json::text_or_empty(next, "output_id"@),
        json::u64_or_zero(next, "delta_seq"@) == json::u64_or_zero(first, "delta_seq"@) + 1,
    ensures
        !seen.contains_key(json::text_or_empty(first, "output_id"@)) && json::u64_or_zero(
            first,
            "delta_seq"@,
        ) == 1 ==> update_step(seen, roots, first).0 == UpdateStep::Forward,
        update_step(seen, roots, first).0 == UpdateStep::Forward ==> update_step(
            update_step(seen, roots, first).1,
            roots,
            next,
        ).0 == UpdateStep::Forward,
        update_step(seen, roots, first).0 == UpdateStep::Forward ==> update_step(
            update_step(seen, roots, first).1,
            roots,
            first,
        ).0 == UpdateStep::Skip,
{
}

/// The snapshot of a draft whose turn has not ended is sent where it tells more than was sent, as a
/// replacement where something was sent, and is then noted; else nothing happens.
pub proof fn law_every_snapshot_is_dealt_with(
    seen: Map<Seq<char>, u64>,
    roots: Set<Seq<char>>,
    snapshot: Json,
)
    ensures
        ({
            let id = json::text_or_empty(snapshot, "output_id"@);
            let seq = json::u64_or_zero(snapshot, "delta_seq"@);
            let step = snapshot_step(seen, roots, snapshot);
            let ended = roots.contains(json::text_or_empty(snapshot, "root_turn_id"@));
            &&& ended ==> step.0 == SnapshotStep::Skip && step.1 == seen
            &&& !ended && !seen.contains_key(id) ==> step.0 == (SnapshotStep::Send {
                reset: false,
            }) && step.1 == seen.insert(id, seq)
            &&& !ended && seen.contains_key(id) && seq > seen[id] ==> step.0 == (
            SnapshotStep::Send { reset: true }) && step.1 == seen.insert(id, seq)
            &&& seen.contains_key(id) && seq <= seen[id] ==> step.0 == SnapshotStep::Skip && step.1
                == seen
        }),
{
}

/// After a snapshot was sent, the parts that it holds are passed over and the part after it is
/// forwarded.
pub proof fn law_parts_go_on_behind_a_snapshot(
    seen: Map<Seq<char>, u64>,
    roots: Set<Seq<char>>,
    snapshot: Json,
    part: Json,
)
    requires
        snapshot_step(seen, roots, snapshot).0 is Send,
        json::text_or_empty(part, "type"@) == "output.delta"@,
        json::text_or_empty(part, "output_id"@) == json::text_or_empty(snapshot, "output_id"@),
        !roots.contains(json::text_or_empty(part, "root_turn_id"@)),
    ensures
        ({
            let noted = snapshot_step(seen, roots, snapshot).1;
            let held = json::u64_or_zero(snapshot, "delta_seq"@);
            let seq = json::u64_or_zero(part, "delta_seq"@);
            &&& seq <= held ==> update_step(noted, roots, part).0 == UpdateStep::Skip
            &&& seq == held + 1 ==> update_step(noted, roots, part).0 == UpdateStep::Forward
            &&& seq > held + 1 ==> update_step(noted, roots, part).0 == UpdateStep::Resync
        }),
{
}

/// A resync goes on from the first snapshot of that very draft, and from none where there is none.
pub proof fn law_resync_takes_the_snapshot_of_its_draft(snapshots: Seq<Json>, id: Seq<char>)
    ensures
        match snapshot_of(snapshots, id) {
            Some(i) => {
                &&& 0 <= i < snapshots.len()
                &&& json::at(snapshots[i], "output_id"@) matches Some(Json::Text(text)) && text@
                    == id
                &&& forall|j: int|
                    0 <= j < i ==> !(json::at(#[trigger] snapshots[j], "output_id"@) matches Some(
                        Json::Text(text),
                    ) && text@ == id)
            },
            None => forall|j: int|
                0 <= j < snapshots.len() ==> !(json::at(
                    #[trigger] snapshots[j],
                    "output_id"@,
                ) matches Some(Json::Text(text)) && text@ == id),
        },
    decreases snapshots.len(),
{
    if snapshots.len() > 0 {
        let front = snapshots.drop_last();
        law_resync_takes_the_snapshot_of_its_draft(front, id);
        assert forall|j: int| 0 <= j < front.len() implies #[trigger] snapshots[j] == front[j] by {}
    }
}

/// A turn ends with a reply, with the word that there is none, with a cancellation, with a state of
/// the channel, or with any event that is marked as its end; and with no other event.
pub proof fn law_turns_end_with_their_last_event(roots: Set<Seq<char>>, event: Event, root: String)
    requires
        json::member(event.payload@, "root_turn_id"@) == Some(Json::Text(root)),
    ensures
        event.topic@ == "chat/reply"@ || event.topic@ == "chat/no_reply"@ || event.topic@
            == "chat/cancelled"@ || event.topic@ == "session/io_state"@ || json::member(
            event.payload@,
            "terminal_kind"@,
        ) is Some ==> roots_after(roots, event) == roots.insert(root@),
        event.topic@ != "chat/reply"@ && event.topic@ != "chat/no_reply"@ && event.topic@
            != "chat/cancelled"@ && event.topic@ != "session/io_state"@ && json::member(
            event.payload@,
            "terminal_kind"@,
        ) is None ==> roots_after(roots, event) == roots,
{
}

/// A durable event moves the stream exactly behind itself, and never back.
pub proof fn law_stream_stands_behind_the_latest_event(after: u64, event: Event)
    ensures
        event.sequence is None ==> position_after(after, event) == after,
        event.sequence matches Some(sequence) ==> position_after(after, event) == if sequence
            >= after {
            sequence
        } else {
            after
        },
{
}

/// Drafts are for clients that inspect what they do not know, and for those that show chat messages
/// in version 1; for no others.
pub proof fn law_drafts_are_for_clients_that_show_chat(preferences: Subscription, i: int)
    ensures
        preferences.receive_unknown@ == "inspect"@ ==> follows_drafts(preferences),
        preferences.receive_formats matches Some(formats) && 0 <= i < formats@.len()
            && formats@[i].id@ == "morphz.chat"@ && formats@[i].version@ == "1"@ ==> follows_drafts(
            preferences,
        ),
        preferences.receive_unknown@ != "inspect"@ && preferences.receive_formats is None
            ==> !follows_drafts(preferences),
        follows_drafts(preferences) && preferences.receive_unknown@ != "inspect"@ ==> (
        preferences.receive_formats matches Some(formats) && exists|j: int|
            0 <= j < formats@.len() && (#[trigger] formats@[j]).id@ == "morphz.chat"@
                && formats@[j].version@ == "1"@),
{
    if preferences.receive_formats is Some {
        let formats = preferences.receive_formats->0;
        if 0 <= i < formats@.len() && formats@[i].id@ == "morphz.chat"@ && formats@[i].version@
            == "1"@ {
            assert(is_chat_format(formats@[i]));
        }
        if follows_drafts(preferences) && preferences.receive_unknown@ != "inspect"@ {
            let j = choose|j: int| 0 <= j < formats@.len() && #[trigger] is_chat_format(formats@[j]);
            assert(formats@[j].id@ == "morphz.chat"@);
        }
    }
}

} // verus!
