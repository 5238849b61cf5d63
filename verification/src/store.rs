//! An in-memory store of conversations and their messages: the state the
//! orchestrator reads and writes.  It keeps the invariants the service
//! relies on: conversation and message identities are unique, every
//! message belongs to an existing conversation, and within a conversation
//! the creation timestamps strictly increase in persistence order, because
//! the store assigns them at persistence time.

use vstd::prelude::*;
use vstd::string::*;

verus! {

use crate::errors::AppError;
use crate::models::Conversation;
use crate::models::Message;

/// No two conversations share an identity.
pub open spec fn unique_conv_ids(cs: Seq<Conversation>) -> bool {
    forall|i: int, j: int| 0 <= i < j < cs.len() ==> cs[i].id@ != cs[j].id@
}

/// No two messages share an identity.
pub open spec fn unique_msg_ids(ms: Seq<Message>) -> bool {
    forall|i: int, j: int| 0 <= i < j < ms.len() ==> ms[i].id@ != ms[j].id@
}

/// Some conversation has the identity `id`.
pub open spec fn has_conv(cs: Seq<Conversation>, id: Seq<char>) -> bool {
    exists|i: int| 0 <= i < cs.len() && cs[i].id@ == id
}

/// The first conversation with identity `id`, if any.
pub open spec fn find_conv(cs: Seq<Conversation>, id: Seq<char>) -> Option<Conversation>
    decreases cs.len(),
{
    if cs.len() == 0 {
        None::<Conversation>
    } else if cs[0].id@ == id {
        Some(cs[0])
    } else {
        find_conv(cs.drop_first(), id)
    }
}

/// Some message has the identity `id`.
pub open spec fn has_msg_id(ms: Seq<Message>, id: Seq<char>) -> bool {
    exists|i: int| 0 <= i < ms.len() && ms[i].id@ == id
}

/// The messages of conversation `cid`, in store order.
pub open spec fn msgs_of(ms: Seq<Message>, cid: Seq<char>) -> Seq<Message>
    decreases ms.len(),
{
    if ms.len() == 0 {
        Seq::<Message>::empty()
    } else if ms.last().conversation_id@ == cid {
        msgs_of(ms.drop_last(), cid).push(ms.last())
    } else {
        msgs_of(ms.drop_last(), cid)
    }
}

/// The messages whose identity differs from `id`, in store order.
pub open spec fn without_id(ms: Seq<Message>, id: Seq<char>) -> Seq<Message>
    decreases ms.len(),
{
    if ms.len() == 0 {
        Seq::<Message>::empty()
    } else if ms.last().id@ == id {
        without_id(ms.drop_last(), id)
    } else {
        without_id(ms.drop_last(), id).push(ms.last())
    }
}

/// The largest creation timestamp among `cid`'s messages, or a value
/// below every timestamp when the conversation has none.
pub open spec fn max_ts(ms: Seq<Message>, cid: Seq<char>) -> int
    decreases ms.len(),
{
    if ms.len() == 0 {
        i64::MIN - 1
    } else {
        let rest = max_ts(ms.drop_last(), cid);
        if ms.last().conversation_id@ == cid && ms.last().created_at > rest {
            ms.last().created_at as int
        } else {
            rest
        }
    }
}

/// The creation timestamp the store assigns when a message is persisted
/// under `cid` while the clock reads `now`: `now` itself when it already
/// lies after every message of the conversation, and one past the latest
/// message otherwise, so that creation order matches persistence order.
pub open spec fn assigned_ts(ms: Seq<Message>, cid: Seq<char>, now: i64) -> int {
    if now > max_ts(ms, cid) {
        now as int
    } else {
        max_ts(ms, cid) + 1
    }
}

/// One more timestamp can still be assigned for `cid`.
pub open spec fn ts_room(ms: Seq<Message>, cid: Seq<char>) -> bool {
    max_ts(ms, cid) < i64::MAX
}

/// Persisting a message with identity `mid` under `cid` is refused:
/// the identity is taken, or the timestamp range is exhausted.
pub open spec fn save_blocked(ms: Seq<Message>, cid: Seq<char>, mid: Seq<char>) -> bool {
    has_msg_id(ms, mid) || !ts_room(ms, cid)
}

/// `c`, with its recency brought up to `now` when it is the conversation
/// being touched and lies behind.
pub open spec fn bumped(c: Conversation, id: Seq<char>, now: i64) -> Conversation {
    if c.id@ == id && c.updated_at < now {
        Conversation { updated_at: now, ..c }
    } else {
        c
    }
}

/// The conversations after the recency of `id` is bumped to at least `now`.
pub open spec fn touch_conv(cs: Seq<Conversation>, id: Seq<char>, now: i64) -> Seq<Conversation> {
    Seq::new(cs.len(), |i: int| bumped(cs[i], id, now))
}

/// Within each conversation, creation timestamps strictly increase in
/// store order.
pub open spec fn msgs_ordered(ms: Seq<Message>) -> bool {
    forall|i: int, j: int|
        0 <= i < j < ms.len() && ms[i].conversation_id@ == ms[j].conversation_id@
            ==> ms[i].created_at < ms[j].created_at
}

/// A message of conversation `cid` never lies after `max_ts`.
pub proof fn lemma_max_ts_ge(ms: Seq<Message>, cid: Seq<char>, i: int)
    requires
        0 <= i < ms.len(),
        ms[i].conversation_id@ == cid,
    ensures
        ms[i].created_at <= max_ts(ms, cid),
    decreases ms.len(),
{
    if i == ms.len() - 1 {
    } else {
        lemma_max_ts_ge(ms.drop_last(), cid, i);
    }
}

/// `find_conv` succeeds exactly when the identity is present.
pub proof fn lemma_find_conv_has(cs: Seq<Conversation>, id: Seq<char>)
    ensures
        (find_conv(cs, id) is Some) <==> has_conv(cs, id),
        find_conv(cs, id) matches Some(c) ==> exists|i: int|
            0 <= i < cs.len() && cs[i] == c && c.id@ == id,
    decreases cs.len(),
{
    if cs.len() > 0 && cs[0].id@ != id {
        lemma_find_conv_has(cs.drop_first(), id);
        assert forall|i: int| 0 <= i < cs.len() && cs[i].id@ == id implies has_conv(
            cs.drop_first(),
            id,
        ) by {
            assert(cs.drop_first()[i - 1] == cs[i]);
        }
        match find_conv(cs, id) {
            Some(c) => {
                let i = choose|i: int|
                    0 <= i < cs.drop_first().len() && cs.drop_first()[i] == c && c.id@ == id;
                assert(cs[i + 1] == c);
            },
            None => {},
        }
    }
}

/// Every message selected for a conversation comes from the store and
/// carries that conversation's identity.
pub proof fn lemma_msgs_of_membership(ms: Seq<Message>, cid: Seq<char>)
    ensures
        forall|k: int|
            0 <= k < msgs_of(ms, cid).len() ==> ms.contains(#[trigger] msgs_of(ms, cid)[k])
                && msgs_of(ms, cid)[k].conversation_id@ == cid,
    decreases ms.len(),
{
    if ms.len() > 0 {
        lemma_msgs_of_membership(ms.drop_last(), cid);
        assert forall|k: int| 0 <= k < msgs_of(ms, cid).len() implies ms.contains(
            #[trigger] msgs_of(ms, cid)[k],
        ) && msgs_of(ms, cid)[k].conversation_id@ == cid by {
            if k < msgs_of(ms.drop_last(), cid).len() {
                assert(ms.drop_last().contains(msgs_of(ms.drop_last(), cid)[k]));
                let i = choose|i: int|
                    0 <= i < ms.drop_last().len() && ms.drop_last()[i] == msgs_of(
                        ms.drop_last(),
                        cid,
                    )[k];
                assert(ms[i] == msgs_of(ms, cid)[k]);
            } else {
                assert(ms[ms.len() - 1] == msgs_of(ms, cid)[k]);
            }
        }
    }
}

/// Filtering an identity that occurs nowhere changes nothing.
pub proof fn lemma_without_id_absent(ms: Seq<Message>, id: Seq<char>)
    requires
        forall|i: int| 0 <= i < ms.len() ==> ms[i].id@ != id,
    ensures
        without_id(ms, id) == ms,
    decreases ms.len(),
{
    if ms.len() > 0 {
        assert(ms[ms.len() - 1].id@ != id);
        lemma_without_id_absent(ms.drop_last(), id);
        assert(without_id(ms, id) =~= ms);
    }
}

/// Appending a message extends its own conversation's selection and
/// leaves every other selection as it was.
pub proof fn lemma_msgs_of_push(ms: Seq<Message>, m: Message, cid: Seq<char>)
    ensures
        m.conversation_id@ == cid ==> msgs_of(ms.push(m), cid) == msgs_of(ms, cid).push(m),
        m.conversation_id@ != cid ==> msgs_of(ms.push(m), cid) == msgs_of(ms, cid),
{
    assert(ms.push(m).drop_last() =~= ms);
    assert(ms.push(m).last() == m);
}

/// Appending a message with a given identity and then filtering that
/// identity out returns the store's prior selection, provided the
/// identity was fresh.
pub proof fn lemma_history_after_save(ms: Seq<Message>, m: Message)
    requires
        !has_msg_id(ms, m.id@),
    ensures
        without_id(msgs_of(ms.push(m), m.conversation_id@), m.id@) == msgs_of(
            ms,
            m.conversation_id@,
        ),
{
    let cid = m.conversation_id@;
    lemma_msgs_of_push(ms, m, cid);
    let prior = msgs_of(ms, cid);
    assert(prior.push(m).drop_last() =~= prior);
    assert(without_id(prior.push(m), m.id@) == without_id(prior, m.id@));
    lemma_msgs_of_membership(ms, cid);
    assert forall|k: int| 0 <= k < prior.len() implies prior[k].id@ != m.id@ by {
        assert(ms.contains(prior[k]));
        let i = choose|i: int| 0 <= i < ms.len() && ms[i] == prior[k];
        assert(ms[i].id@ != m.id@);
    }
    lemma_without_id_absent(prior, m.id@);
}

/// Round trip: a message persisted with the timestamp the store assigns
/// appears at the end of its conversation's re-read list, unchanged, and
/// its creation timestamp places it after every message previously saved
/// in that conversation.
pub proof fn lemma_save_round_trip(ms: Seq<Message>, m: Message, now: i64)
    requires
        m.created_at == assigned_ts(ms, m.conversation_id@, now),
    ensures
        msgs_of(ms.push(m), m.conversation_id@) == msgs_of(ms, m.conversation_id@).push(m),
        forall|k: int|
            0 <= k < msgs_of(ms, m.conversation_id@).len() ==> (#[trigger] msgs_of(
                ms,
                m.conversation_id@,
            )[k]).created_at < m.created_at,
{
    let cid = m.conversation_id@;
    lemma_msgs_of_push(ms, m, cid);
    lemma_msgs_of_membership(ms, cid);
    assert(m.created_at > max_ts(ms, cid));
    assert forall|k: int| 0 <= k < msgs_of(ms, cid).len() implies (#[trigger] msgs_of(
        ms,
        cid,
    )[k]).created_at < m.created_at by {
        assert(ms.contains(msgs_of(ms, cid)[k]));
        let i = choose|i: int| 0 <= i < ms.len() && ms[i] == msgs_of(ms, cid)[k];
        lemma_max_ts_ge(ms, cid, i);
    }
}

/// How appending one message moves the latest timestamp of a conversation.
pub proof fn lemma_max_ts_push(ms: Seq<Message>, m: Message, cid: Seq<char>)
    ensures
        m.conversation_id@ == cid && m.created_at > max_ts(ms, cid) ==> max_ts(ms.push(m), cid)
            == m.created_at,
        m.conversation_id@ == cid && m.created_at <= max_ts(ms, cid) ==> max_ts(ms.push(m), cid)
            == max_ts(ms, cid),
        m.conversation_id@ != cid ==> max_ts(ms.push(m), cid) == max_ts(ms, cid),
{
    assert(ms.push(m).drop_last() =~= ms);
    assert(ms.push(m).last() == m);
}

/// An identity is present after a push exactly when it was present
/// before or belongs to the pushed message.
pub proof fn lemma_has_msg_id_push(ms: Seq<Message>, m: Message, id: Seq<char>)
    ensures
        has_msg_id(ms.push(m), id) <==> (has_msg_id(ms, id) || m.id@ == id),
{
    let ps = ms.push(m);
    if has_msg_id(ms, id) {
        let i = choose|i: int| 0 <= i < ms.len() && ms[i].id@ == id;
        assert(ps[i].id@ == id);
    }
    if m.id@ == id {
        assert(ps[ms.len() as int].id@ == id);
    }
    if has_msg_id(ps, id) && m.id@ != id {
        let i = choose|i: int| 0 <= i < ps.len() && ps[i].id@ == id;
        if i < ms.len() {
            assert(ms[i].id@ == id);
        }
    }
}

/// The store itself: conversation records and the append-only message log.
pub struct ChatStore {
    conversations: Vec<Conversation>,
    messages: Vec<Message>,
}

impl ChatStore {
    /// The conversation records, in creation order.
    pub closed spec fn convs(&self) -> Seq<Conversation> {
        self.conversations@
    }

    /// The message log, in persistence order.
    pub closed spec fn msgs(&self) -> Seq<Message> {
        self.messages@
    }

    /// The store's invariant: unique identities, no message without its
    /// conversation, and per-conversation timestamps strictly increasing
    /// in persistence order.
    pub open spec fn wf(&self) -> bool {
        &&& unique_conv_ids(self.convs())
        &&& unique_msg_ids(self.msgs())
        &&& forall|i: int|
            0 <= i < self.msgs().len() ==> has_conv(
                self.convs(),
                #[trigger] self.msgs()[i].conversation_id@,
            )
        &&& msgs_ordered(self.msgs())
    }

    /// An empty store.
    pub fn new() -> (s: ChatStore)
        ensures
            s.wf(),
            s.convs().len() == 0,
            s.msgs().len() == 0,
    {
        ChatStore { conversations: Vec::new(), messages: Vec::new() }
    }

    /// How many conversations the store holds.
    pub fn conversation_count(&self) -> (n: usize)
        ensures
            n == self.convs().len(),
    {
        self.conversations.len()
    }

    /// How many messages the store holds, over all conversations.
    pub fn message_count(&self) -> (n: usize)
        ensures
            n == self.msgs().len(),
    {
        self.messages.len()
    }

    /// The conversation with identity `id`, if present.
    pub fn find_by_id(&self, id: &str) -> (r: Option<Conversation>)
        ensures
            r == find_conv(self.convs(), id@),
    {
        let id_o = id.to_owned();
        let n = self.conversations.len();
        proof {
            assert(self.convs().subrange(0, n as int) =~= self.convs());
        }
        let mut i: usize = 0;
        while i < n
            invariant
                id_o@ == id@,
                n == self.convs().len(),
                0 <= i <= n,
                find_conv(self.convs(), id@) == find_conv(
                    self.convs().subrange(i as int, n as int),
                    id@,
                ),
            decreases n - i,
        {
            proof {
                assert(self.convs().subrange(i as int, n as int)[0] == self.convs()[i as int]);
            }
            if self.conversations[i].id == id_o {
                return Some(self.conversations[i].clone());
            }
            proof {
                assert(self.convs().subrange(i as int, n as int).drop_first() =~= self.convs()
                    .subrange(i + 1, n as int));
            }
            i = i + 1;
        }
        proof {
            assert(self.convs().subrange(n as int, n as int).len() == 0);
        }
        None
    }

    /// Whether some message already carries identity `id`.
    fn contains_message_id(&self, id: &str) -> (r: bool)
        ensures
            r == has_msg_id(self.msgs(), id@),
    {
        let id_o = id.to_owned();
        let n = self.messages.len();
        let mut i: usize = 0;
        while i < n
            invariant
                id_o@ == id@,
                n == self.msgs().len(),
                0 <= i <= n,
                forall|k: int| 0 <= k < i ==> self.msgs()[k].id@ != id@,
            decreases n - i,
        {
            if self.messages[i].id == id_o {
                return true;
            }
            i = i + 1;
        }
        false
    }

    /// The largest creation timestamp among `cid`'s messages; the flag is
    /// false when the conversation has none.
    fn max_created(&self, cid: &str) -> (r: (bool, i64))
        ensures
            !r.0 ==> max_ts(self.msgs(), cid@) == i64::MIN - 1,
            r.0 ==> r.1 as int == max_ts(self.msgs(), cid@),
    {
        let cid_o = cid.to_owned();
        let n = self.messages.len();
        let mut found = false;
        let mut cur: i64 = 0;
        let mut i: usize = 0;
        while i < n
            invariant
                cid_o@ == cid@,
                n == self.msgs().len(),
                0 <= i <= n,
                !found ==> max_ts(self.msgs().subrange(0, i as int), cid@) == i64::MIN - 1,
                found ==> cur as int == max_ts(self.msgs().subrange(0, i as int), cid@),
            decreases n - i,
        {
            proof {
                assert(self.msgs().subrange(0, i + 1).drop_last() =~= self.msgs().subrange(
                    0,
                    i as int,
                ));
                assert(self.msgs().subrange(0, i + 1).last() == self.msgs()[i as int]);
            }
            if self.messages[i].conversation_id == cid_o {
                if !found || self.messages[i].created_at > cur {
                    cur = self.messages[i].created_at;
                }
                found = true;
            }
            i = i + 1;
        }
        proof {
            assert(self.msgs().subrange(0, n as int) =~= self.msgs());
        }
        (found, cur)
    }

    /// The messages of conversation `cid`, ordered as they were persisted.
    pub fn find_by_conversation_id(&self, conversation_id: &str) -> (r: Vec<Message>)
        ensures
            r@ == msgs_of(self.msgs(), conversation_id@),
    {
        let cid_o = conversation_id.to_owned();
        let n = self.messages.len();
        let mut out: Vec<Message> = Vec::new();
        let mut i: usize = 0;
        while i < n
            invariant
                cid_o@ == conversation_id@,
                n == self.msgs().len(),
                0 <= i <= n,
                out@ == msgs_of(self.msgs().subrange(0, i as int), conversation_id@),
            decreases n - i,
        {
            proof {
                assert(self.msgs().subrange(0, i + 1).drop_last() =~= self.msgs().subrange(
                    0,
                    i as int,
                ));
                assert(self.msgs().subrange(0, i + 1).last() == self.msgs()[i as int]);
            }
            if self.messages[i].conversation_id == cid_o {
                out.push(self.messages[i].clone());
            }
            i = i + 1;
        }
        proof {
            assert(self.msgs().subrange(0, n as int) =~= self.msgs());
        }
        out
    }

    /// All conversations, most recently active first.
    pub fn find_all(&self) -> (r: Vec<Conversation>)
        ensures
            r@.to_multiset() == self.convs().to_multiset(),
            forall|i: int, j: int|
                0 <= i < j < r@.len() ==> r@[i].updated_at >= r@[j].updated_at,
    {
        broadcast use vstd::seq_lib::group_to_multiset_ensures;
        broadcast use vstd::multiset::group_multiset_axioms;

        let n = self.conversations.len();
        let mut work: Vec<Conversation> = Vec::new();
        let mut i: usize = 0;
        while i < n
            invariant
                n == self.convs().len(),
                0 <= i <= n,
                work@ == self.convs().subrange(0, i as int),
            decreases n - i,
        {
            work.push(self.conversations[i].clone());
            proof {
                assert(work@ =~= self.convs().subrange(0, i + 1));
            }
            i = i + 1;
        }
        proof {
            assert(self.convs().subrange(0, n as int) =~= self.convs());
        }
        let mut out: Vec<Conversation> = Vec::new();
        while work.len() > 0
            invariant
                out@.to_multiset().add(work@.to_multiset()) =~= self.convs().to_multiset(),
                forall|i: int, j: int|
                    0 <= i < j < out@.len() ==> out@[i].updated_at >= out@[j].updated_at,
                forall|i: int, k: int|
                    0 <= i < out@.len() && 0 <= k < work@.len() ==> out@[i].updated_at
                        >= work@[k].updated_at,
            decreases work.len(),
        {
            let mut mx: usize = 0;
            let mut t: usize = 1;
            while t < work.len()
                invariant
                    work@.len() > 0,
                    0 <= mx < work@.len(),
                    1 <= t <= work@.len(),
                    forall|k: int| 0 <= k < t ==> work@[k].updated_at <= work@[mx as int].updated_at,
                decreases work@.len() - t,
            {
                if work[t].updated_at > work[mx].updated_at {
                    mx = t;
                }
                t = t + 1;
            }
            let ghost prev = work@;
            let ghost prev_out = out@;
            let c = work.remove(mx);
            out.push(c);
            proof {
                broadcast use vstd::seq_lib::group_to_multiset_ensures;
                broadcast use vstd::multiset::group_multiset_axioms;

                assert(prev.contains(prev[mx as int]));
                vstd::seq_lib::to_multiset_contains(prev, prev[mx as int]);
                vstd::seq_lib::to_multiset_remove(prev, mx as int);
                vstd::seq_lib::to_multiset_build(prev_out, prev[mx as int]);
                assert(work@.to_multiset() =~= prev.to_multiset().remove(prev[mx as int]));
                assert(out@.to_multiset() =~= prev_out.to_multiset().insert(prev[mx as int]));
                assert(prev.to_multiset().count(prev[mx as int]) > 0);
                assert forall|x: Conversation|
                    out@.to_multiset().add(work@.to_multiset()).count(x) == self.convs()
                        .to_multiset().count(x) by {
                    assert(prev_out.to_multiset().add(prev.to_multiset()).count(x) == self.convs()
                        .to_multiset().count(x));
                }
                assert(out@.to_multiset().add(work@.to_multiset()) =~= self.convs()
                    .to_multiset());
                assert forall|k: int| 0 <= k < work@.len() implies work@[k].updated_at <= out@[
                    out@.len() - 1
                ].updated_at by {
                    if k < mx {
                        assert(work@[k] == prev[k]);
                    } else {
                        assert(work@[k] == prev[k + 1]);
                    }
                }
            }
        }
        proof {
            broadcast use vstd::multiset::group_multiset_axioms;

            assert(out@.to_multiset().add(work@.to_multiset()) =~= out@.to_multiset());
        }
        out
    }

    /// Persists a new conversation record. Refused when the identity is
    /// already taken, as the backing store's key constraint would refuse
    /// the insert.
    pub fn save_conversation(&mut self, conversation: &Conversation) -> (r: Result<
        Conversation,
        AppError,
    >)
        requires
            old(self).wf(),
        ensures
            final(self).wf(),
            final(self).msgs() == old(self).msgs(),
            has_conv(old(self).convs(), conversation.id@) ==> *final(self) == *old(self) && (
            r matches Err(e) && (e matches AppError::DatabaseQueryFailed { message } && message@
                == "Failed to save conversation"@)),
            !has_conv(old(self).convs(), conversation.id@) ==> final(self).convs() == old(
                self,
            ).convs().push(*conversation) && r == Ok::<Conversation, AppError>(*conversation),
            r is Ok ==> !has_conv(old(self).convs(), conversation.id@),
    {
        proof {
            lemma_find_conv_has(self.convs(), conversation.id@);
        }
        if self.find_by_id(conversation.id.as_str()).is_some() {
            return Err(AppError::db_query(String::from_str("Failed to save conversation")));
        }
        self.conversations.push(conversation.clone());
        proof {
            let cs = self.convs();
            let prev = old(self).convs();
            assert forall|i: int|
                0 <= i < self.msgs().len() implies has_conv(
                cs,
                #[trigger] self.msgs()[i].conversation_id@,
            ) by {
                assert(has_conv(prev, self.msgs()[i].conversation_id@));
                let k = choose|k: int|
                    0 <= k < prev.len() && prev[k].id@ == self.msgs()[i].conversation_id@;
                assert(cs[k].id@ == self.msgs()[i].conversation_id@);
            }
        }
        Ok(conversation.clone())
    }

    /// Bumps the recency of conversation `id` to at least `now`. A missing
    /// conversation is left alone, as an update matching no row would be.
    pub fn update_timestamp(&mut self, id: &str, now: i64)
        requires
            old(self).wf(),
        ensures
            final(self).wf(),
            final(self).msgs() == old(self).msgs(),
            final(self).convs() == touch_conv(old(self).convs(), id@, now),
    {
        let id_o = id.to_owned();
        let n = self.conversations.len();
        let mut out: Vec<Conversation> = Vec::new();
        let mut i: usize = 0;
        while i < n
            invariant
                id_o@ == id@,
                n == self.convs().len(),
                0 <= i <= n,
                out@.len() == i,
                forall|k: int| 0 <= k < i ==> out@[k] == bumped(self.convs()[k], id@, now),
            decreases n - i,
        {
            let c = &self.conversations[i];
            if c.id == id_o && c.updated_at < now {
                out.push(
                    Conversation {
                        id: c.id.clone(),
                        title: c.title.clone(),
                        created_at: c.created_at,
                        updated_at: now,
                    },
                );
            } else {
                out.push(c.clone());
            }
            i = i + 1;
        }
        proof {
            assert(out@ =~= touch_conv(self.convs(), id@, now));
        }
        self.conversations = out;
        proof {
            let prev = old(self).convs();
            let cs = self.convs();
            assert forall|i: int|
                0 <= i < self.msgs().len() implies has_conv(
                cs,
                #[trigger] self.msgs()[i].conversation_id@,
            ) by {
                assert(has_conv(prev, self.msgs()[i].conversation_id@));
                let k = choose|k: int|
                    0 <= k < prev.len() && prev[k].id@ == self.msgs()[i].conversation_id@;
                assert(cs[k].id@ == self.msgs()[i].conversation_id@);
            }
        }
    }

    /// Persists a message. The store assigns the creation timestamp:
    /// the message's own timestamp when it already lies after everything
    /// in the conversation, and one past the conversation's latest
    /// message otherwise. Refused when the owning conversation is absent,
    /// when the identity is taken, or when the timestamp range for the
    /// conversation is exhausted.
    pub fn save_message(&mut self, message: &Message) -> (r: Result<Message, AppError>)
        requires
            old(self).wf(),
        ensures
            final(self).wf(),
            final(self).convs() == old(self).convs(),
            !has_conv(old(self).convs(), message.conversation_id@) ==> *final(self) == *old(self)
                && (r matches Err(e) && (e matches AppError::DatabaseQueryFailed { message: t }
                && t@ == "Failed to save message"@)),
            has_conv(old(self).convs(), message.conversation_id@) && has_msg_id(
                old(self).msgs(),
                message.id@,
            ) ==> *final(self) == *old(self) && (r matches Err(e) && (
            e matches AppError::DatabaseQueryFailed { message: t } && t@
                == "Failed to save message"@)),
            has_conv(old(self).convs(), message.conversation_id@) && !has_msg_id(
                old(self).msgs(),
                message.id@,
            ) && !ts_room(old(self).msgs(), message.conversation_id@) ==> *final(self) == *old(self)
                && (r matches Err(e) && (e matches AppError::Unexpected(t) && t@
                == "timestamp range exhausted"@)),
            has_conv(old(self).convs(), message.conversation_id@) && !save_blocked(
                old(self).msgs(),
                message.conversation_id@,
                message.id@,
            ) ==> (r matches Ok(saved) && saved.id == message.id && saved.conversation_id
                == message.conversation_id && saved.role == message.role && saved.content
                == message.content && saved.created_at == assigned_ts(
                old(self).msgs(),
                message.conversation_id@,
                message.created_at,
            ) && final(self).msgs() == old(self).msgs().push(saved)),
            r is Ok ==> has_conv(old(self).convs(), message.conversation_id@) && !save_blocked(
                old(self).msgs(),
                message.conversation_id@,
                message.id@,
            ),
    {
        proof {
            lemma_find_conv_has(self.convs(), message.conversation_id@);
        }
        if self.find_by_id(message.conversation_id.as_str()).is_none() {
            return Err(AppError::db_query(String::from_str("Failed to save message")));
        }
        if self.contains_message_id(message.id.as_str()) {
            return Err(AppError::db_query(String::from_str("Failed to save message")));
        }
        let (found, latest) = self.max_created(message.conversation_id.as_str());
        if found && latest == i64::MAX {
            return Err(
                AppError::Unexpected(String::from_str("timestamp range exhausted")),
            );
        }
        let ts = if !found || message.created_at > latest {
            message.created_at
        } else {
            latest + 1
        };
        let saved = Message::with_parts(
            message.id.clone(),
            message.conversation_id.clone(),
            message.role,
            message.content.clone(),
            ts,
        );
        self.messages.push(saved.clone());
        proof {
            let prev = old(self).msgs();
            let ms = self.msgs();
            assert(ms == prev.push(saved));
            assert forall|i: int, j: int|
                0 <= i < j < ms.len() && ms[i].conversation_id@ == ms[j].conversation_id@ implies
                ms[i].created_at < ms[j].created_at by {
                if j == ms.len() - 1 {
                    assert(ms[i] == prev[i]);
                    if prev[i].conversation_id@ == message.conversation_id@ {
                        lemma_max_ts_ge(prev, message.conversation_id@, i);
                    }
                }
            }
        }
        Ok(saved)
    }
}

} // verus!
