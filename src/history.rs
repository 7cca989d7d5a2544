use vstd::prelude::*;
use std::collections::VecDeque;

verus! {

/// How many messages the in-memory conversation window keeps.
pub const HISTORY_BOUND: usize = 10;

/// Who wrote a message.
#[derive(Clone, Copy, Debug, PartialEq, Eq, Structural)]
pub enum Role {
    User,
    Assistant,
}

impl Role {
    /// The role's name on the wire and in storage.
    pub fn name(&self) -> (r: &'static str)
        ensures
            r@ == role_name(*self)@,
    {
        match self {
            Role::User => "user",
            Role::Assistant => "assistant",
        }
    }

    /// The role with the given name, if any.
    pub fn from_name(name: &str) -> (r: Option<Role>)
        ensures
            r == (if name@ == role_name(Role::User)@ {
                Some(Role::User)
            } else if name@ == role_name(Role::Assistant)@ {
                Some(Role::Assistant)
            } else {
                None
            }),
    {
        let given = String::from_str(name);
        if given == String::from_str("user") {
            Some(Role::User)
        } else if given == String::from_str("assistant") {
            Some(Role::Assistant)
        } else {
            None
        }
    }
}

pub open spec fn role_name(r: Role) -> &'static str {
    match r {
        Role::User => "user",
        Role::Assistant => "assistant",
    }
}

/// One message of a conversation; immutable once created.
#[derive(Clone, Debug)]
pub struct Message {
    pub role: Role,
    pub content: String,
}

/// The mathematical value of a message: its role and its text.
pub type MessageModel = (Role, Seq<char>);

impl View for Message {
    type V = MessageModel;

    open spec fn view(&self) -> MessageModel {
        (self.role, self.content@)
    }
}

impl Message {
    pub fn new(role: Role, content: &str) -> (r: Message)
        ensures
            r@ == (role, content@),
    {
        Message { role, content: content.to_owned() }
    }

    /// An independent copy of the message.
    pub fn duplicate(&self) -> (r: Message)
        ensures
            r@ == self@,
    {
        Message { role: self.role, content: self.content.clone() }
    }
}

/// The last `bound` elements of `s` (all of `s` when it is no longer).
pub open spec fn window<A>(s: Seq<A>, bound: nat) -> Seq<A> {
    if s.len() > bound {
        s.subrange(s.len() - bound, s.len() as int)
    } else {
        s
    }
}

/// The window left by pushing `ms` one by one, in order, onto an empty
/// history of capacity `bound`.
pub open spec fn replay(ms: Seq<MessageModel>, bound: nat) -> Seq<MessageModel>
    decreases ms.len(),
{
    if ms.len() == 0 {
        Seq::empty()
    } else {
        window(replay(ms.drop_last(), bound).push(ms.last()), bound)
    }
}

/// An ordered, capacity-bounded message window: pushing past the bound
/// evicts the oldest entries first.
pub struct ConversationHistory {
    messages: VecDeque<Message>,
    bound: usize,
}

impl View for ConversationHistory {
    type V = Seq<MessageModel>;

    closed spec fn view(&self) -> Seq<MessageModel> {
        self.messages@.map_values(|m: Message| m@)
    }
}

impl ConversationHistory {
    /// The capacity the window was made with.
    pub closed spec fn spec_bound(&self) -> nat {
        self.bound as nat
    }

    /// The window never holds more than its capacity.
    pub closed spec fn wf(&self) -> bool {
        self.messages@.len() <= self.bound
    }

    /// An empty window of capacity `bound`.
    pub fn new(bound: usize) -> (r: ConversationHistory)
        ensures
            r.wf(),
            r@ == Seq::<MessageModel>::empty(),
            r.spec_bound() == bound,
    {
        let r = ConversationHistory { messages: VecDeque::new(), bound };
        assert(r@ =~= Seq::<MessageModel>::empty());
        r
    }

    /// Appends `m`, then evicts from the front until the bound holds.
    pub fn push(&mut self, m: Message)
        requires
            old(self).wf(),
        ensures
            final(self).wf(),
            final(self).spec_bound() == old(self).spec_bound(),
            final(self)@ == window(old(self)@.push(m@), old(self).spec_bound()),
    {
        let ghost pushed = self@.push(m@);
        self.messages.push_back(m);
        let ghost raw = self.messages@;
        assert(raw.map_values(|m: Message| m@) =~= pushed);
        let ghost mut dropped: int = 0;
        while self.messages.len() > self.bound
            invariant
                0 <= dropped <= raw.len(),
                raw.len() == pushed.len(),
                self.messages@ == raw.subrange(dropped, raw.len() as int),
                raw.map_values(|m: Message| m@) == pushed,
                pushed.len() <= self.bound + 1,
                dropped > 0 ==> raw.len() - dropped >= self.bound,
                self.bound == old(self).bound,
            decreases self.messages@.len(),
        {
            self.messages.pop_front();
            proof {
                dropped = dropped + 1;
            }
            assert(self.messages@ =~= raw.subrange(dropped, raw.len() as int));
        }
        assert(self@ =~= pushed.subrange(dropped, pushed.len() as int));
        assert(self@ =~= window(pushed, self.bound as nat));
    }

    /// Empties the window; the capacity stays.
    pub fn clear(&mut self)
        ensures
            final(self).wf(),
            final(self).spec_bound() == old(self).spec_bound(),
            final(self)@ == Seq::<MessageModel>::empty(),
    {
        self.messages.clear();
        assert(self@ =~= Seq::<MessageModel>::empty());
    }

    /// How many messages the window holds.
    pub fn len(&self) -> (r: usize)
        ensures
            r == self@.len(),
    {
        self.messages.len()
    }

    /// The capacity the window was made with.
    pub fn bound(&self) -> (r: usize)
        ensures
            r == self.spec_bound(),
    {
        self.bound
    }

    /// An independent copy of the window, oldest first.
    pub fn snapshot(&self) -> (r: Vec<Message>)
        ensures
            r@.map_values(|m: Message| m@) == self@,
    {
        let mut out: Vec<Message> = Vec::new();
        let n = self.messages.len();
        let mut i: usize = 0;
        while i < n
            invariant
                n == self.messages@.len(),
                i <= n,
                out@.len() == i,
                forall|j: int| 0 <= j < i ==> (#[trigger] out@[j])@ == self.messages@[j]@,
            decreases n - i,
        {
            let m = self.messages[i].duplicate();
            out.push(m);
            i = i + 1;
        }
        assert(out@.map_values(|m: Message| m@) =~= self@);
        out
    }
}

/// History bound: after any sequence of pushes onto an empty window of
/// capacity `bound`, the window holds exactly the last `min(N, bound)` pushed
/// messages in order; in particular, when more than `bound` were pushed, its
/// oldest entry is the message pushed at (zero-based) position `N - bound`.
pub proof fn lemma_history_bound(ms: Seq<MessageModel>, bound: nat)
    ensures
        replay(ms, bound) == window(ms, bound),
        replay(ms, bound).len() == if ms.len() < bound { ms.len() } else { bound },
        ms.len() > bound && bound > 0 ==> replay(ms, bound)[0] == ms[ms.len() - bound],
    decreases ms.len(),
{
    if ms.len() > 0 {
        lemma_history_bound(ms.drop_last(), bound);
        let prev = ms.drop_last();
        assert(window(prev, bound).push(ms.last()) =~= if prev.len() > bound {
            ms.subrange(prev.len() - bound, ms.len() as int)
        } else {
            ms
        });
        assert(window(window(prev, bound).push(ms.last()), bound) =~= window(ms, bound));
    } else {
        assert(replay(ms, bound) =~= window(ms, bound));
    }
}

} // verus!
