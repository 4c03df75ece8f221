//! The channels between the episode tasks and the dispatcher: why one slot per task is enough for
//! the requests, and one slot for the replies to each task.

use vstd::prelude::*;

use crate::task::{TaskEvent, TaskModel, TaskStage};

verus! {

/// All episode tasks, and the messages to and from them that are on the way.
pub struct ChannelModel {
    pub tasks: Seq<TaskModel>,
    /// Which tasks have sent their end mark.
    pub ended: Seq<bool>,
    /// For each message that waits for the dispatcher, in order, the task that sent it.
    pub queue: Seq<int>,
    /// The task whose request the dispatcher is making.
    pub pending: Option<int>,
    /// For which tasks a reply waits.
    pub replies: Seq<bool>,
}

impl ChannelModel {
    /// A task has at most one thing on the way, a message, a request that is being made or a reply,
    /// and then waits for a reply; only the message of a task that has ended is awaited by nobody.
    pub open spec fn consistent(self) -> bool {
        &&& self.ended.len() == self.tasks.len()
        &&& self.replies.len() == self.tasks.len()
        &&& self.queue.no_duplicates()
        &&& forall|i: int|
            0 <= i < self.queue.len() ==> {
                &&& 0 <= #[trigger] self.queue[i] < self.tasks.len()
                &&& crate::task::awaits_reply(self.tasks[self.queue[i]].stage)
                    || self.ended[self.queue[i]]
            }
        &&& self.pending matches Some(t) ==> {
            &&& 0 <= t < self.tasks.len()
            &&& crate::task::awaits_reply(self.tasks[t].stage)
            &&& !self.queue.contains(t)
            &&& !self.replies[t]
        }
        &&& forall|t: int|
            0 <= t < self.tasks.len() && #[trigger] self.replies[t] ==> {
                &&& crate::task::awaits_reply(self.tasks[t].stage)
                &&& !self.queue.contains(t)
            }
        &&& forall|t: int|
            0 <= t < self.tasks.len() && #[trigger] self.ended[t] ==> self.tasks[t].stage
                == TaskStage::Finished
    }

    /// Whether a task can be told something now: while it waits for a reply, only a reply that has
    /// come.
    pub open spec fn can_be_told(self, t: int, event: TaskEvent) -> bool {
        &&& 0 <= t < self.tasks.len()
        &&& self.tasks[t].well_formed()
        &&& self.tasks[t].accepts(event)
        &&& crate::task::awaits_reply(self.tasks[t].stage) ==> event is Reply && self.replies[t]
    }

    /// A task is told something, and sends the request that it then asks for.
    pub open spec fn told(self, t: int, event: TaskEvent) -> ChannelModel {
        let (task, action) = self.tasks[t].step(event);
        ChannelModel {
            tasks: self.tasks.update(t, task),
            queue: if action is Send {
                self.queue.push(t)
            } else {
                self.queue
            },
            replies: self.replies.update(t, false),
            ..self
        }
    }

    /// A task sends its end mark.
    pub open spec fn marked(self, t: int) -> ChannelModel {
        ChannelModel { ended: self.ended.update(t, true), queue: self.queue.push(t), ..self }
    }

    /// The dispatcher takes the first message, and makes the request unless it is an end mark.
    pub open spec fn taken(self) -> ChannelModel {
        let t = self.queue[0];
        ChannelModel {
            queue: self.queue.drop_first(),
            pending: if self.ended[t] {
                None
            } else {
                Some(t)
            },
            ..self
        }
    }

    /// The dispatcher hands on the reply to the request that it made.
    pub open spec fn answered(self) -> ChannelModel {
        ChannelModel { pending: None, replies: self.replies.update(self.pending->0, true), ..self }
    }
}

/// A task that has no message on the way finds a free slot among one slot per task.
proof fn a_slot_is_free(channel: ChannelModel, t: int)
    requires
        channel.consistent(),
        0 <= t < channel.tasks.len(),
        !channel.queue.contains(t),
    ensures
        channel.queue.len() < channel.tasks.len(),
{
    let queue = channel.queue.push(t);
    let n = channel.tasks.len() as int;
    assert(queue.no_duplicates());
    assert forall|x: int| queue.to_set().contains(x) implies vstd::set_lib::set_int_range(
        0,
        n,
    ).contains(x) by {
        let i = choose|i: int| 0 <= i < queue.len() && queue[i] == x;
        if i < channel.queue.len() {
            assert(channel.queue[i] == x);
        }
    }
    queue.unique_seq_to_set();
    vstd::set_lib::lemma_int_range(0, n);
    vstd::set_lib::lemma_len_subset(queue.to_set(), vstd::set_lib::set_int_range(0, n));
}

proof fn no_message_on_the_way(channel: ChannelModel, t: int)
    requires
        channel.consistent(),
        0 <= t < channel.tasks.len(),
        !channel.ended[t],
        !crate::task::awaits_reply(channel.tasks[t].stage) || channel.replies[t],
    ensures
        !channel.queue.contains(t),
        channel.pending != Some(t),
{
    if channel.queue.contains(t) {
        let i = choose|i: int| 0 <= i < channel.queue.len() && channel.queue[i] == t;
        assert(channel.queue[i] == t);
    }
}

proof fn pushed_contains(queue: Seq<int>, t: int, x: int)
    ensures
        queue.push(t).contains(x) <==> queue.contains(x) || x == t,
{
    let pushed = queue.push(t);
    if queue.contains(x) {
        let i = choose|i: int| 0 <= i < queue.len() && queue[i] == x;
        assert(pushed[i] == x);
    }
    assert(pushed[queue.len() as int] == t);
    if pushed.contains(x) {
        let i = choose|i: int| 0 <= i < pushed.len() && pushed[i] == x;
        if i < queue.len() {
            assert(queue[i] == x);
        }
    }
}

/// A channel with one slot per task has room whenever a task sends a request.
pub proof fn there_is_room_for_requests(channel: ChannelModel, t: int, event: TaskEvent)
    requires
        channel.consistent(),
        channel.can_be_told(t, event),
    ensures
        channel.told(t, event).consistent(),
        channel.tasks[t].step(event).1 is Send ==> channel.queue.len() < channel.tasks.len(),
{
    assert(!channel.ended[t]);
    no_message_on_the_way(channel, t);
    a_slot_is_free(channel, t);
    let next = channel.told(t, event);
    assert forall|i: int| 0 <= i < next.queue.len() implies {
        &&& 0 <= #[trigger] next.queue[i] < next.tasks.len()
        &&& crate::task::awaits_reply(next.tasks[next.queue[i]].stage) || next.ended[next.queue[i]]
    } by {
        if i < channel.queue.len() {
            assert(next.queue[i] == channel.queue[i]);
            assert(channel.queue.contains(channel.queue[i]));
        }
    }
    assert forall|u: int| 0 <= u < next.tasks.len() && #[trigger] next.replies[u] implies {
        &&& crate::task::awaits_reply(next.tasks[u].stage)
        &&& !next.queue.contains(u)
    } by {
        assert(u != t && channel.replies[u]);
        pushed_contains(channel.queue, t, u);
    }
    if channel.pending is Some {
        pushed_contains(channel.queue, t, channel.pending->0);
    }
}

/// A channel with one slot per task has room when a task that has ended sends its end mark.
pub proof fn there_is_room_for_end_marks(channel: ChannelModel, t: int)
    requires
        channel.consistent(),
        0 <= t < channel.tasks.len(),
        channel.tasks[t].stage == TaskStage::Finished,
        !channel.ended[t],
    ensures
        channel.marked(t).consistent(),
        channel.queue.len() < channel.tasks.len(),
{
    no_message_on_the_way(channel, t);
    a_slot_is_free(channel, t);
    let next = channel.marked(t);
    assert forall|i: int| 0 <= i < next.queue.len() implies {
        &&& 0 <= #[trigger] next.queue[i] < next.tasks.len()
        &&& crate::task::awaits_reply(next.tasks[next.queue[i]].stage) || next.ended[next.queue[i]]
    } by {
        if i < channel.queue.len() {
            assert(next.queue[i] == channel.queue[i]);
        }
    }
    assert forall|u: int| 0 <= u < next.tasks.len() && #[trigger] next.replies[u] implies {
        &&& crate::task::awaits_reply(next.tasks[u].stage)
        &&& !next.queue.contains(u)
    } by {
        pushed_contains(channel.queue, t, u);
    }
    if channel.pending is Some {
        pushed_contains(channel.queue, t, channel.pending->0);
    }
}

/// Taking the first message keeps the channels consistent, and the task that sent it has no other
/// message on the way.
pub proof fn one_message_is_taken(channel: ChannelModel)
    requires
        channel.consistent(),
        channel.queue.len() > 0,
        channel.pending is None,
    ensures
        channel.taken().consistent(),
        !channel.taken().queue.contains(channel.queue[0]),
{
    let next = channel.taken();
    let t = channel.queue[0];
    assert forall|i: int| 0 <= i < next.queue.len() implies #[trigger] next.queue[i]
        == channel.queue[i + 1] by {}
    assert(channel.queue.contains(t));
    assert forall|u: int| next.queue.contains(u) implies channel.queue.contains(u) by {
        let i = choose|i: int| 0 <= i < next.queue.len() && next.queue[i] == u;
        assert(channel.queue[i + 1] == u);
    }
}

/// The one slot for the replies to a task is free whenever the dispatcher hands on a reply.
pub proof fn there_is_room_for_replies(channel: ChannelModel)
    requires
        channel.consistent(),
        channel.pending is Some,
    ensures
        !channel.replies[channel.pending->0],
        channel.answered().consistent(),
{
}

} // verus!
