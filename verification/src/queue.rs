//! The message queue of a session: which queued messages go out when the
//! agent becomes free, and which stay queued.
use vstd::prelude::*;

verus! {

broadcast use vstd::seq_lib::group_to_multiset_ensures;

/// How a queued message was queued.
#[derive(PartialEq, Eq, Structural, Clone, Copy, Debug)]
pub enum QueuedMessageMode {
    /// Sent after the current turn.
    FollowUp,
    /// Meant to steer the running turn; goes first.
    Steer,
}

/// How many queued messages go out at once.
#[derive(PartialEq, Eq, Structural, Clone, Copy, Debug)]
pub enum QueueMode {
    OneAtATime,
    All,
}

/// Whether the messages that go out together form one prompt or are sent
/// one by one.
#[derive(PartialEq, Eq, Structural, Clone, Copy, Debug)]
pub enum QueueDelivery {
    Concat,
    Separate,
}

/// A message waiting for the agent.
pub struct QueuedMessage {
    pub id: u128,
    pub mode: QueuedMessageMode,
    pub text: String,
    pub images: Vec<String>,
    /// When it was queued, in milliseconds since the Unix epoch.
    pub created_at_ms: i64,
}

pub open spec fn is_steer(m: QueuedMessage) -> bool {
    m.mode == QueuedMessageMode::Steer
}

/// The index of the first steering message.
pub open spec fn first_steer(q: Seq<QueuedMessage>) -> Option<nat>
    decreases q.len(),
{
    if q.len() == 0 {
        None
    } else if is_steer(q[0]) {
        Some(0)
    } else {
        match first_steer(q.drop_first()) {
            Some(i) => Some(i + 1),
            None => None,
        }
    }
}

/// The steering messages, in queue order.
pub open spec fn steers(q: Seq<QueuedMessage>) -> Seq<QueuedMessage>
    decreases q.len(),
{
    if q.len() == 0 {
        Seq::empty()
    } else if is_steer(q.last()) {
        steers(q.drop_last()).push(q.last())
    } else {
        steers(q.drop_last())
    }
}

/// The follow-up messages, in queue order.
pub open spec fn follow_ups(q: Seq<QueuedMessage>) -> Seq<QueuedMessage>
    decreases q.len(),
{
    if q.len() == 0 {
        Seq::empty()
    } else if !is_steer(q.last()) {
        follow_ups(q.drop_last()).push(q.last())
    } else {
        follow_ups(q.drop_last())
    }
}

/// What goes out and what stays when the agent becomes free. One at a time:
/// the first steering message, else the oldest message. All: every steering
/// message, then every follow-up. With separate delivery only the first of
/// several goes out now and the rest lead the queue.
pub open spec fn drained(q: Seq<QueuedMessage>, mode: QueueMode, delivery: QueueDelivery) -> (Seq<QueuedMessage>, Seq<QueuedMessage>) {
    if q.len() == 0 {
        (Seq::empty(), Seq::empty())
    } else {
        let (send, keep) = match mode {
            QueueMode::OneAtATime => {
                let i: int = match first_steer(q) {
                    Some(i) => i as int,
                    None => 0,
                };
                (seq![q[i]], q.remove(i))
            },
            QueueMode::All => (steers(q) + follow_ups(q), Seq::<QueuedMessage>::empty()),
        };
        if delivery == QueueDelivery::Separate && send.len() > 1 {
            (send.take(1), send.skip(1) + keep)
        } else {
            (send, keep)
        }
    }
}

proof fn lemma_first_steer_bound(q: Seq<QueuedMessage>)
    ensures
        first_steer(q) matches Some(i) ==> i < q.len() && is_steer(q[i as int]),
        first_steer(q) is None ==> forall|k: int| 0 <= k < q.len() ==> !is_steer(#[trigger] q[k]),
    decreases q.len(),
{
    if q.len() > 0 && !is_steer(q[0]) {
        lemma_first_steer_bound(q.drop_first());
        assert forall|k: int| 0 <= k < q.len() && first_steer(q) is None implies !is_steer(#[trigger] q[k]) by {
            if k > 0 {
                assert(q[k] == q.drop_first()[k - 1]);
            }
        }
    }
}

proof fn lemma_partition_multiset(q: Seq<QueuedMessage>)
    ensures
        (steers(q) + follow_ups(q)).to_multiset() == q.to_multiset(),
        steers(q).len() + follow_ups(q).len() == q.len(),
    decreases q.len(),
{
    broadcast use vstd::seq_lib::lemma_multiset_commutative;
    if q.len() > 0 {
        let p = q.drop_last();
        lemma_partition_multiset(p);
        assert(q =~= p.push(q.last()));
        vstd::seq_lib::to_multiset_build(p, q.last());
        if is_steer(q.last()) {
            vstd::seq_lib::to_multiset_build(steers(p), q.last());
        } else {
            vstd::seq_lib::to_multiset_build(follow_ups(p), q.last());
        }
    }
}

/// Nothing is lost or duplicated: what goes out and what stays are the
/// queue's messages; something goes out whenever the queue is not empty; and
/// with separate delivery at most one message goes out at a time.
pub proof fn lemma_drain_keeps_messages(q: Seq<QueuedMessage>, mode: QueueMode, delivery: QueueDelivery)
    ensures
        ({
            let (send, keep) = drained(q, mode, delivery);
            &&& (send + keep).to_multiset() == q.to_multiset()
            &&& (q.len() > 0 ==> send.len() >= 1)
            &&& (delivery == QueueDelivery::Separate ==> send.len() <= 1)
            &&& (mode == QueueMode::OneAtATime ==> send.len() <= 1)
            &&& (q.len() > 0 && (exists|k: int| 0 <= k < q.len() && is_steer(#[trigger] q[k])) ==> is_steer(send[0]))
        }),
{
    broadcast use vstd::seq_lib::lemma_multiset_commutative;
    if q.len() > 0 {
        lemma_first_steer_bound(q);
        lemma_partition_multiset(q);
        match mode {
            QueueMode::OneAtATime => {
                let i: int = match first_steer(q) {
                    Some(i) => i as int,
                    None => 0,
                };
                vstd::seq_lib::to_multiset_remove(q, i);
                assert(seq![q[i]] + q.remove(i) =~= q.remove(i).insert(0, q[i]));
                vstd::seq_lib::to_multiset_insert(q.remove(i), 0, q[i]);
                assert(q.remove(i).to_multiset().insert(q[i]) =~= q.to_multiset());
            },
            QueueMode::All => {
                let send = steers(q) + follow_ups(q);
                assert(send + Seq::<QueuedMessage>::empty() =~= send);
                if delivery == QueueDelivery::Separate && send.len() > 1 {
                    assert(send.take(1) + (send.skip(1) + Seq::<QueuedMessage>::empty()) =~= send);
                }
                if exists|k: int| 0 <= k < q.len() && is_steer(#[trigger] q[k]) {
                    let k = choose|k: int| 0 <= k < q.len() && is_steer(#[trigger] q[k]);
                    lemma_steers_nonempty(q, k);
                    lemma_steers_all_steer(q);
                    assert(send[0] == steers(q)[0]);
                }
            },
        }
    }
}

proof fn lemma_steers_nonempty(q: Seq<QueuedMessage>, k: int)
    requires
        0 <= k < q.len(),
        is_steer(q[k]),
    ensures
        steers(q).len() > 0,
    decreases q.len(),
{
    if k < q.len() - 1 {
        assert(q.drop_last()[k] == q[k]);
        lemma_steers_nonempty(q.drop_last(), k);
    }
}

proof fn lemma_steers_all_steer(q: Seq<QueuedMessage>)
    ensures
        forall|i: int| 0 <= i < steers(q).len() ==> is_steer(#[trigger] steers(q)[i]),
    decreases q.len(),
{
    if q.len() > 0 {
        lemma_steers_all_steer(q.drop_last());
        let p = steers(q.drop_last());
        assert forall|i: int| 0 <= i < steers(q).len() implies is_steer(#[trigger] steers(q)[i]) by {
            if i < p.len() {
                assert(steers(q)[i] == p[i]);
            }
        }
    }
}

/// The position of the first message with the given id.
pub open spec fn position_of(q: Seq<QueuedMessage>, id: u128) -> Option<nat>
    decreases q.len(),
{
    if q.len() == 0 {
        None
    } else if q[0].id == id {
        Some(0)
    } else {
        match position_of(q.drop_first(), id) {
            Some(i) => Some(i + 1),
            None => None,
        }
    }
}

proof fn lemma_position_bound(q: Seq<QueuedMessage>, id: u128)
    ensures
        position_of(q, id) matches Some(i) ==> i < q.len() && q[i as int].id == id,
    decreases q.len(),
{
    if q.len() > 0 && q[0].id != id {
        lemma_position_bound(q.drop_first(), id);
    }
}

/// Takes the message with the given id out of the queue (the steering
/// message the user chose to send at once); the others keep their order.
pub fn take_queued(queue: &mut Vec<QueuedMessage>, id: u128) -> (r: Option<QueuedMessage>)
    ensures
        match position_of(old(queue)@, id) {
            Some(i) => r == Some(old(queue)@[i as int]) && final(queue)@ == old(queue)@.remove(i as int),
            None => r is None && final(queue)@ == old(queue)@,
        },
{
    let ghost q = queue@;
    proof {
        lemma_position_bound(q, id);
    }
    let mut i: usize = 0;
    assert(q.skip(0) =~= q);
    while i < queue.len()
        invariant
            i <= queue.len(),
            queue@ == q,
            q == old(queue)@,
            position_of(q, id) == (match position_of(q.skip(i as int), id) {
                Some(j) => Some((j + i) as nat),
                None => None::<nat>,
            }),
        decreases queue.len() - i,
    {
        proof {
            assert(q.skip(i as int)[0] == q[i as int]);
            assert(q.skip(i as int).drop_first() =~= q.skip(i + 1));
        }
        if queue[i].id == id {
            assert(position_of(q.skip(i as int), id) == Some(0nat));
            assert(position_of(q, id) == Some(i as nat));
            let m = queue.remove(i);
            return Some(m);
        }
        i = i + 1;
    }
    proof {
        assert(q.skip(i as int) =~= Seq::<QueuedMessage>::empty());
    }
    None
}

/// Opening the queue editor: nothing to edit without queued messages;
/// otherwise the selection is kept, or starts at the newest message.
pub fn queue_editor_selection(queue_len: usize, selection: Option<usize>) -> (r: Option<usize>)
    ensures
        queue_len == 0 ==> r is None,
        queue_len > 0 ==> r == Some(match selection {
            Some(i) => i,
            None => (queue_len - 1) as usize,
        }),
{
    if queue_len == 0 {
        return None;
    }
    match selection {
        Some(i) => Some(i),
        None => Some(queue_len - 1),
    }
}

/// Takes the messages that go out from a session's queue; returns them and
/// the queue that remains.
pub fn drain_queue(queue: Vec<QueuedMessage>, mode: QueueMode, delivery: QueueDelivery) -> (r: (Vec<QueuedMessage>, Vec<QueuedMessage>))
    ensures
        (r.0@, r.1@) == drained(queue@, mode, delivery),
{
    if queue.len() == 0 {
        return (Vec::new(), Vec::new());
    }
    let ghost q = queue@;
    let mut queue = queue;
    let (mut send, keep): (Vec<QueuedMessage>, Vec<QueuedMessage>) = match mode {
        QueueMode::OneAtATime => {
            let mut idx: usize = 0;
            let mut found = false;
            let mut k: usize = 0;
            assert(q.skip(0) =~= q);
            while k < queue.len()
                invariant_except_break
                    !found,
                    idx == 0,
                invariant
                    k <= queue.len(),
                    queue@ == q,
                    q.len() > 0,
                    first_steer(q) == (match first_steer(q.skip(k as int)) {
                        Some(j) => Some((j + k) as nat),
                        None => None::<nat>,
                    }),
                ensures
                    found ==> idx < q.len() && first_steer(q) == Some(idx as nat),
                    !found ==> idx == 0 && k == queue.len() && first_steer(q) == (match first_steer(q.skip(k as int)) {
                        Some(j) => Some((j + k) as nat),
                        None => None::<nat>,
                    }),
                decreases queue.len() - k,
            {
                assert(q.skip(k as int)[0] == q[k as int]);
                if queue[k].mode == QueuedMessageMode::Steer {
                    idx = k;
                    found = true;
                    break;
                }
                assert(q.skip(k as int).drop_first() =~= q.skip(k + 1));
                k = k + 1;
            }
            proof {
                if !found {
                    assert(q.skip(k as int).len() == 0);
                }
            }
            let picked = queue.remove(idx);
            let mut one: Vec<QueuedMessage> = Vec::new();
            one.push(picked);
            assert(one@ =~= seq![q[idx as int]]);
            (one, queue)
        },
        QueueMode::All => {
            let mut st: Vec<QueuedMessage> = Vec::new();
            let mut fu: Vec<QueuedMessage> = Vec::new();
            let ghost n: int = 0;
            assert(q.skip(0) =~= q);
            assert(q.take(0) =~= Seq::<QueuedMessage>::empty());
            while queue.len() > 0
                invariant
                    0 <= n <= q.len(),
                    queue@ == q.skip(n),
                    st@ == steers(q.take(n)),
                    fu@ == follow_ups(q.take(n)),
                decreases queue.len(),
            {
                let m = queue.remove(0);
                proof {
                    assert(m == q[n]);
                    assert(q.take(n + 1) =~= q.take(n).push(q[n]));
                    assert(q.take(n + 1).drop_last() =~= q.take(n));
                    assert(queue@ =~= q.skip(n + 1));
                    n = n + 1;
                }
                if m.mode == QueuedMessageMode::Steer {
                    st.push(m);
                } else {
                    fu.push(m);
                }
            }
            proof {
                assert(q.skip(n).len() == 0);
                assert(q.take(n) =~= q);
            }
            st.append(&mut fu);
            (st, Vec::new())
        },
    };
    if delivery == QueueDelivery::Separate && send.len() > 1 {
        let tail = send.split_off(1);
        let mut requeue = tail;
        let mut keep = keep;
        requeue.append(&mut keep);
        (send, requeue)
    } else {
        (send, keep)
    }
}

} // verus!
