//! The history store: a bounded, ordered record of the conversation.

use std::collections::VecDeque;
use vstd::prelude::*;

verus! {

/// The number of messages that [`store_message`] keeps.
pub const MAX_HISTORICAL_MESSAGES: usize = 20;

/// The author of a message.
#[derive(Clone, Copy, Debug, PartialEq, Eq, Structural)]
pub enum Role {
    User,
    Assistant,
}

/// One turn of the conversation.
#[derive(Debug, PartialEq, Eq)]
pub struct Message {
    pub role: Role,
    pub content: String,
    pub name: Option<String>,
}

impl Clone for Message {
    fn clone(&self) -> (copy: Self)
        ensures
            copy == *self,
    {
        Message {
            role: self.role,
            content: self.content.clone(),
            name: match &self.name {
                Some(name) => Some(name.clone()),
                None => None,
            },
        }
    }
}

/// The last `n` items of `items`, or all of them where there are fewer.
pub open spec fn last_n<T>(items: Seq<T>, n: nat) -> Seq<T> {
    if items.len() <= n {
        items
    } else {
        items.subrange(items.len() - n, items.len() as int)
    }
}

/// What a store of the given capacity holds after `item` is appended to
/// `items`: the oldest items leave until there is room for one more, then
/// `item` goes to the tail.
pub open spec fn bounded_push<T>(items: Seq<T>, capacity: nat, item: T) -> Seq<T>
    recommends
        capacity >= 1,
{
    last_n(items, (capacity - 1) as nat).push(item)
}

/// Appends `item` to `store`, first evicting from the head while the store
/// holds `capacity` items or more.
///
/// A capacity of zero leaves no room for the item and is not accepted.
pub fn push_bounded<T>(store: &mut VecDeque<T>, capacity: usize, item: T)
    requires
        capacity >= 1,
    ensures
        final(store)@ == bounded_push(old(store)@, capacity as nat, item),
{
    let ghost before = store@;
    while store.len() >= capacity
        invariant
            capacity >= 1,
            store@.len() <= before.len(),
            store@.len() == before.len() || store@.len() >= capacity - 1,
            store@ == before.subrange(before.len() - store@.len(), before.len() as int),
        decreases store@.len(),
    {
        store.pop_front();
    }
    store.push_back(item);
}

/// Records a message in `message_history`, which keeps the
/// [`MAX_HISTORICAL_MESSAGES`] most recent ones.
pub fn store_message(message_history: &mut VecDeque<Message>, content: String, role: Role)
    ensures
        final(message_history)@ == bounded_push(
            old(message_history)@,
            MAX_HISTORICAL_MESSAGES as nat,
            (Message { role, content, name: None }),
        ),
{
    push_bounded(message_history, MAX_HISTORICAL_MESSAGES, Message { role, content, name: None });
}

/// What a store of the given capacity holds after each item of `appended`
/// has been appended to `items`, in order.
pub open spec fn bounded_extend<T>(items: Seq<T>, capacity: nat, appended: Seq<T>) -> Seq<T>
    decreases appended.len(),
{
    if appended.len() == 0 {
        items
    } else {
        bounded_push(
            bounded_extend(items, capacity, appended.drop_last()),
            capacity,
            appended.last(),
        )
    }
}

/// A run of appends keeps the most recent items: the store ends up holding
/// the last `capacity` items of everything it has seen, oldest first. Once
/// as many items as the capacity have been appended, the store is full and
/// holds exactly the last `capacity` of the appended items, in the order in
/// which they came.
pub proof fn lemma_appends_keep_most_recent<T>(items: Seq<T>, capacity: nat, appended: Seq<T>)
    requires
        capacity >= 1,
    ensures
        items.len() <= capacity || appended.len() >= 1 ==> bounded_extend(
            items,
            capacity,
            appended,
        ) == last_n(items + appended, capacity),
        appended.len() >= capacity ==> bounded_extend(items, capacity, appended).len() == capacity,
        appended.len() >= capacity ==> bounded_extend(items, capacity, appended)
            == appended.subrange(appended.len() - capacity, appended.len() as int),
    decreases appended.len(),
{
    if appended.len() == 0 {
        assert(items + appended =~= items);
    } else {
        let earlier = appended.drop_last();
        let before = bounded_extend(items, capacity, earlier);
        lemma_appends_keep_most_recent(items, capacity, earlier);
        if earlier.len() == 0 {
            assert(before == items);
            assert(items + earlier =~= items);
        }
        assert((items + earlier).push(appended.last()) =~= items + appended);
        assert(bounded_push(before, capacity, appended.last()) =~= last_n(
            items + appended,
            capacity,
        ));
    }
}

/// With room for a single message, a store holds the latest one alone.
pub proof fn lemma_single_slot_keeps_latest<T>(items: Seq<T>, item: T)
    ensures
        bounded_push(items, 1, item) == seq![item],
{
    assert(last_n(items, 0) =~= Seq::empty());
}

/// A conversation history that never holds more than its capacity.
pub struct History {
    messages: VecDeque<Message>,
    capacity: usize,
}

impl View for History {
    type V = Seq<Message>;

    /// The messages held, oldest first.
    closed spec fn view(&self) -> Seq<Message> {
        self.messages@
    }
}

impl History {
    #[verifier::type_invariant]
    spec fn within_capacity(&self) -> bool {
        1 <= self.capacity && self.messages@.len() <= self.capacity
    }

    /// The most messages that the history holds at once.
    pub closed spec fn spec_capacity(&self) -> usize {
        self.capacity
    }

    /// An empty history with room for `capacity` messages.
    ///
    /// A capacity of zero leaves no room for any message and is not
    /// accepted.
    pub fn new(capacity: usize) -> (history: Self)
        requires
            capacity >= 1,
        ensures
            history@ == Seq::<Message>::empty(),
            history.capacity() == capacity,
    {
        History { messages: VecDeque::new(), capacity }
    }

    /// The most messages that the history holds at once.
    #[verifier::when_used_as_spec(spec_capacity)]
    pub fn capacity(&self) -> (capacity: usize)
        ensures
            capacity == self.spec_capacity(),
            capacity >= 1,
    {
        proof {
            use_type_invariant(self);
        }
        self.capacity
    }

    /// The number of messages held, which never exceeds the capacity.
    pub fn len(&self) -> (len: usize)
        ensures
            len == self@.len(),
            len <= self.capacity(),
    {
        proof {
            use_type_invariant(self);
        }
        self.messages.len()
    }

    /// Appends a message, evicting the oldest ones first where the history
    /// is full.
    pub fn append(&mut self, content: String, role: Role)
        ensures
            final(self).capacity() == old(self).capacity(),
            final(self)@ == bounded_push(
                old(self)@,
                old(self).capacity() as nat,
                (Message { role, content, name: None }),
            ),
    {
        proof {
            use_type_invariant(&*self);
        }
        // The messages leave the history while they change, so that the
        // history is whole at every step.
        let mut messages: VecDeque<Message> = VecDeque::new();
        core::mem::swap(&mut self.messages, &mut messages);
        push_bounded(&mut messages, self.capacity, Message { role, content, name: None });
        core::mem::swap(&mut self.messages, &mut messages);
    }

    /// An ordered copy of the messages held, oldest first.
    pub fn snapshot(&self) -> (copy: Vec<Message>)
        ensures
            copy@ == self@,
    {
        let mut copy: Vec<Message> = Vec::new();
        let mut i: usize = 0;
        while i < self.messages.len()
            invariant
                i <= self.messages@.len(),
                copy@ == self.messages@.subrange(0, i as int),
            decreases self.messages@.len() - i,
        {
            copy.push(self.messages[i].clone());
            i += 1;
        }
        copy
    }
}

/// Taking a snapshot leaves the history as it is: two snapshots of one
/// history, with no append between them, hold the same messages in the
/// same order.
pub proof fn lemma_snapshots_agree(history: History, first: Vec<Message>, second: Vec<Message>)
    requires
        first@ == history@,
        second@ == history@,
    ensures
        first@ == second@,
{
}

} // verus!
