//! A small fixed-capacity buffer of messages.

use vstd::prelude::*;

verus! {

/// Maximum number of messages a payload can contain.
pub const CAPACITY: usize = 16;

/// A small container of messages.
/// Messages should be small.
///
/// The number of messages never exceeds [`CAPACITY`]: `push` asks for room.
pub struct Payload<Message: Copy> {
    messages: [Option<Message>; CAPACITY],
    count: usize,
}

impl<Message: Copy> View for Payload<Message> {
    type V = Seq<Message>;

    /// The messages in the order in which they were added.
    closed spec fn view(&self) -> Seq<Message> {
        Seq::new(self.count as nat, |i: int| self.messages[i].unwrap())
    }
}

impl<Message: Copy> Payload<Message> {
    /// The count is within capacity and every counted place holds a message.
    pub closed spec fn wf(&self) -> bool {
        &&& self.count <= CAPACITY
        &&& forall|i: int| 0 <= i < self.count ==> (#[trigger] self.messages[i]).is_some()
    }

    /// A well-formed payload holds at most [`CAPACITY`] messages.
    pub proof fn lemma_len_within_capacity(&self)
        requires
            self.wf(),
        ensures
            self@.len() <= CAPACITY,
    {
    }

    /// An empty payload.
    pub fn new() -> (payload: Self)
        ensures
            payload.wf(),
            payload@ == Seq::<Message>::empty(),
    {
        let payload = Self { messages: [None;CAPACITY], count: 0 };
        assert(payload@ =~= Seq::<Message>::empty());
        payload
    }

    /// Reset the payload to empty.
    pub fn reset(&mut self)
        ensures
            final(self).wf(),
            final(self)@ == Seq::<Message>::empty(),
    {
        self.count = 0;
        assert(self@ =~= Seq::<Message>::empty());
    }

    /// Number of messages in the payload.
    pub fn len(&self) -> (len: usize)
        ensures
            len == self@.len(),
    {
        self.count
    }

    /// Append a message. The payload must have room for it.
    pub fn push(&mut self, message: Message)
        requires
            old(self).wf(),
            old(self)@.len() < CAPACITY,
        ensures
            final(self).wf(),
            final(self)@ == old(self)@.push(message),
    {
        self.messages[self.count] = Some(message);
        self.count += 1;
        assert(self@ =~= old(self)@.push(message));
    }

    /// Cursor over all messages in the payload, oldest first.
    pub fn iter(&self) -> (iter: PayloadIter<'_, Message>)
        requires
            self.wf(),
        ensures
            iter.wf(),
            iter.messages() == self@,
            iter.position() == 0,
    {
        PayloadIter { payload: self, index: 0 }
    }
}

impl<Message: Copy> Default for Payload<Message> {
    fn default() -> (payload: Self)
        ensures
            payload.wf(),
            payload@ == Seq::<Message>::empty(),
    {
        Payload::new()
    }
}

/// A cursor over the messages of a payload.
pub struct PayloadIter<'payload, Message: Copy> {
    payload: &'payload Payload<Message>,
    index: usize,
}

impl<'payload, Message: Copy> PayloadIter<'payload, Message> {
    /// All messages of the payload that the cursor walks.
    pub closed spec fn messages(&self) -> Seq<Message> {
        self.payload@
    }

    /// How many messages the cursor has produced.
    pub closed spec fn position(&self) -> int {
        self.index as int
    }

    /// The cursor walks a well-formed payload and has not run past its end.
    pub closed spec fn wf(&self) -> bool {
        &&& self.payload.wf()
        &&& self.index <= self.payload.count
    }

    /// The next message, or `None` once every message has been produced.
    pub fn next(&mut self) -> (item: Option<Message>)
        requires
            old(self).wf(),
        ensures
            final(self).wf(),
            final(self).messages() == old(self).messages(),
            old(self).position() < old(self).messages().len() ==> {
                &&& final(self).position() == old(self).position() + 1
                &&& item == Some(old(self).messages()[old(self).position()])
            },
            old(self).position() >= old(self).messages().len() ==> {
                &&& final(self).position() == old(self).position()
                &&& item.is_none()
            },
    {
        if self.index < self.payload.count {
            let message = self.payload.messages[self.index];
            self.index += 1;
            message
        } else {
            None
        }
    }
}

} // verus!
