//! Events of the event bus, their envelopes, and the registry of subscribers
//! that decides which handlers an event reaches.
use crate::clock::Timestamp;
use crate::entities::{Account, Contact, Conversation, Message};
use crate::ids::new_id;
use crate::text::str_eq;
use vstd::prelude::*;

verus! {

/// Something that happened in the core.
#[derive(Clone, Debug)]
pub enum Event {
    MessageReceived { message_id: u128, conversation_id: u128, sender_id: u128, connector_id: String },
    MessageSent { message_id: u128, conversation_id: u128, connector_id: String },
    MessageEdited { message_id: u128, conversation_id: u128 },
    MessageDeleted { message_id: u128, conversation_id: u128 },
    ConversationCreated { conversation_id: u128, user_id: u128 },
    ConversationUpdated { conversation_id: u128, user_id: u128 },
    ContactCreated { contact_id: u128, user_id: u128 },
    ContactMerged { source_contact_id: u128, target_contact_id: u128, user_id: u128 },
    AccountConnected { account_id: u128, user_id: u128, connector_name: String },
    AccountDisconnected { account_id: u128, user_id: u128, connector_name: String },
    SyncStarted { account_id: u128, user_id: u128 },
    SyncCompleted { account_id: u128, user_id: u128, messages_synced: u32 },
    SyncFailed { account_id: u128, user_id: u128, error: String },
}

/// The name of an event, under which handlers subscribe to it.
pub open spec fn event_name_text(e: Event) -> Seq<char> {
    match e {
        Event::MessageReceived { .. } => "MESSAGE_RECEIVED"@,
        Event::MessageSent { .. } => "MESSAGE_SENT"@,
        Event::MessageEdited { .. } => "MESSAGE_EDITED"@,
        Event::MessageDeleted { .. } => "MESSAGE_DELETED"@,
        Event::ConversationCreated { .. } => "CONVERSATION_CREATED"@,
        Event::ConversationUpdated { .. } => "CONVERSATION_UPDATED"@,
        Event::ContactCreated { .. } => "CONTACT_CREATED"@,
        Event::ContactMerged { .. } => "CONTACT_MERGED"@,
        Event::AccountConnected { .. } => "ACCOUNT_CONNECTED"@,
        Event::AccountDisconnected { .. } => "ACCOUNT_DISCONNECTED"@,
        Event::SyncStarted { .. } => "SYNC_STARTED"@,
        Event::SyncCompleted { .. } => "SYNC_COMPLETED"@,
        Event::SyncFailed { .. } => "SYNC_FAILED"@,
    }
}

impl Event {
    /// The event's name (what its `Display` writes).
    pub fn name(&self) -> (r: &'static str)
        ensures
            r@ == event_name_text(*self),
    {
        match self {
            Event::MessageReceived { .. } => "MESSAGE_RECEIVED",
            Event::MessageSent { .. } => "MESSAGE_SENT",
            Event::MessageEdited { .. } => "MESSAGE_EDITED",
            Event::MessageDeleted { .. } => "MESSAGE_DELETED",
            Event::ConversationCreated { .. } => "CONVERSATION_CREATED",
            Event::ConversationUpdated { .. } => "CONVERSATION_UPDATED",
            Event::ContactCreated { .. } => "CONTACT_CREATED",
            Event::ContactMerged { .. } => "CONTACT_MERGED",
            Event::AccountConnected { .. } => "ACCOUNT_CONNECTED",
            Event::AccountDisconnected { .. } => "ACCOUNT_DISCONNECTED",
            Event::SyncStarted { .. } => "SYNC_STARTED",
            Event::SyncCompleted { .. } => "SYNC_COMPLETED",
            Event::SyncFailed { .. } => "SYNC_FAILED",
        }
    }

    /// The event announcing that an account was connected.
    pub fn account_connected(account: &Account) -> (r: Event)
        ensures
            r == (Event::AccountConnected {
                account_id: account.id,
                user_id: account.user_id,
                connector_name: account.connector_name,
            }),
    {
        Event::AccountConnected {
            account_id: account.id,
            user_id: account.user_id,
            connector_name: account.connector_name.clone(),
        }
    }

    /// The event announcing that the account `account_id`, found as `account`,
    /// was disconnected.
    pub fn account_disconnected(account_id: u128, account: &Account) -> (r: Event)
        ensures
            r == (Event::AccountDisconnected {
                account_id,
                user_id: account.user_id,
                connector_name: account.connector_name,
            }),
    {
        Event::AccountDisconnected {
            account_id,
            user_id: account.user_id,
            connector_name: account.connector_name.clone(),
        }
    }

    /// The event announcing that a contact was created.
    pub fn contact_created(contact: &Contact) -> (r: Event)
        ensures
            r == (Event::ContactCreated { contact_id: contact.id, user_id: contact.user_id }),
    {
        Event::ContactCreated { contact_id: contact.id, user_id: contact.user_id }
    }

    /// The event announcing that a conversation was created.
    pub fn conversation_created(conversation: &Conversation) -> (r: Event)
        ensures
            r == (Event::ConversationCreated {
                conversation_id: conversation.id,
                user_id: conversation.user_id,
            }),
    {
        Event::ConversationCreated { conversation_id: conversation.id, user_id: conversation.user_id }
    }

    /// The event announcing that a message was sent.
    pub fn message_sent(message: &Message) -> (r: Event)
        ensures
            r == (Event::MessageSent {
                message_id: message.id,
                conversation_id: message.conversation_id,
                connector_id: message.connector_id,
            }),
    {
        Event::MessageSent {
            message_id: message.id,
            conversation_id: message.conversation_id,
            connector_id: message.connector_id.clone(),
        }
    }

    /// The event announcing that a message was received.
    pub fn message_received(message: &Message) -> (r: Event)
        ensures
            r == (Event::MessageReceived {
                message_id: message.id,
                conversation_id: message.conversation_id,
                sender_id: message.sender_id,
                connector_id: message.connector_id,
            }),
    {
        Event::MessageReceived {
            message_id: message.id,
            conversation_id: message.conversation_id,
            sender_id: message.sender_id,
            connector_id: message.connector_id.clone(),
        }
    }
}

/// An event as it travels on the bus: with a fresh identifier and the time it
/// was published.
#[derive(Clone, Debug)]
pub struct EventEnvelope {
    pub id: u128,
    pub event: Event,
    pub timestamp: Timestamp,
}

impl EventEnvelope {
    /// Wraps an event published at `timestamp`, with a random identifier.
    pub fn at(event: Event, timestamp: Timestamp) -> (r: EventEnvelope)
        ensures
            r.event == event,
            r.timestamp == timestamp,
    {
        EventEnvelope { id: new_id(), event, timestamp }
    }

    /// Wraps an event, with a random identifier, stamped with the current time;
    /// `None` when the system clock gives no time (before the Unix epoch).
    pub fn new(event: Event) -> (r: Option<EventEnvelope>)
        ensures
            r matches Some(e) ==> e.event == event && e.timestamp@.0 >= 0,
    {
        match Timestamp::now() {
            Some(t) => Some(EventEnvelope::at(event, t)),
            None => None,
        }
    }
}

/// A handler registered under an event name, with the identifier it can be
/// removed by.
pub struct Subscriber<H> {
    pub id: u128,
    pub handler: H,
}

/// The subscribers of one event name, in the order they subscribed.
pub struct Topic<H> {
    pub name: String,
    pub subscribers: Vec<Subscriber<H>>,
}

/// Some topic in `topics` has the name `n`.
pub open spec fn has_topic<H>(topics: Seq<Topic<H>>, n: Seq<char>) -> bool {
    exists|i: int| 0 <= i < topics.len() && #[trigger] topics[i].name@ == n
}

/// The subscribers of the topic named `n`.
pub open spec fn topic_subscribers<H>(topics: Seq<Topic<H>>, n: Seq<char>) -> Seq<Subscriber<H>> {
    topics[choose|i: int| 0 <= i < topics.len() && #[trigger] topics[i].name@ == n].subscribers@
}

/// No two topics share a name.
pub open spec fn distinct_names<H>(topics: Seq<Topic<H>>) -> bool {
    forall|i: int, j: int|
        0 <= i < topics.len() && 0 <= j < topics.len() && i != j ==> topics[i].name@
            != topics[j].name@
}

/// `subs` without the subscribers whose identifier is `id`, in order.
pub open spec fn without_id<H>(subs: Seq<Subscriber<H>>, id: u128) -> Seq<Subscriber<H>>
    decreases subs.len(),
{
    if subs.len() == 0 {
        subs
    } else {
        let rest = without_id(subs.drop_last(), id);
        if subs.last().id == id {
            rest
        } else {
            rest.push(subs.last())
        }
    }
}

/// Removing the subscribers with an identifier keeps every other subscriber, in
/// order: it is the list filtered by `id != subscriber_id`.
pub proof fn lemma_without_id_is_filter<H>(subs: Seq<Subscriber<H>>, id: u128)
    ensures
        without_id(subs, id) == subs.filter(|s: Subscriber<H>| s.id != id),
    decreases subs.len(),
{
    reveal_with_fuel(Seq::filter, 1);
    if subs.len() > 0 {
        lemma_without_id_is_filter(subs.drop_last(), id);
    }
}

/// Each event kind has its own name, the one its `Display` writes; distinct
/// kinds have distinct names, so an event reaches only the handlers of its kind.
pub proof fn lemma_event_names(e1: Event, e2: Event)
    ensures
        e1 is MessageReceived ==> event_name_text(e1) == "MESSAGE_RECEIVED"@,
        e1 is MessageSent ==> event_name_text(e1) == "MESSAGE_SENT"@,
        e1 is MessageEdited ==> event_name_text(e1) == "MESSAGE_EDITED"@,
        e1 is MessageDeleted ==> event_name_text(e1) == "MESSAGE_DELETED"@,
        e1 is ConversationCreated ==> event_name_text(e1) == "CONVERSATION_CREATED"@,
        e1 is ConversationUpdated ==> event_name_text(e1) == "CONVERSATION_UPDATED"@,
        e1 is ContactCreated ==> event_name_text(e1) == "CONTACT_CREATED"@,
        e1 is ContactMerged ==> event_name_text(e1) == "CONTACT_MERGED"@,
        e1 is AccountConnected ==> event_name_text(e1) == "ACCOUNT_CONNECTED"@,
        e1 is AccountDisconnected ==> event_name_text(e1) == "ACCOUNT_DISCONNECTED"@,
        e1 is SyncStarted ==> event_name_text(e1) == "SYNC_STARTED"@,
        e1 is SyncCompleted ==> event_name_text(e1) == "SYNC_COMPLETED"@,
        e1 is SyncFailed ==> event_name_text(e1) == "SYNC_FAILED"@,
        event_name_text(e1) == event_name_text(e2) ==> same_kind(e1, e2),
{
    reveal_strlit("MESSAGE_RECEIVED");
    reveal_strlit("MESSAGE_SENT");
    reveal_strlit("MESSAGE_EDITED");
    reveal_strlit("MESSAGE_DELETED");
    reveal_strlit("CONVERSATION_CREATED");
    reveal_strlit("CONVERSATION_UPDATED");
    reveal_strlit("CONTACT_CREATED");
    reveal_strlit("CONTACT_MERGED");
    reveal_strlit("ACCOUNT_CONNECTED");
    reveal_strlit("ACCOUNT_DISCONNECTED");
    reveal_strlit("SYNC_STARTED");
    reveal_strlit("SYNC_COMPLETED");
    reveal_strlit("SYNC_FAILED");
    let n1 = event_name_text(e1);
    let n2 = event_name_text(e2);
    if n1 == n2 {
        assert(n1.len() == n2.len());
        assert(n1[0] == n2[0]);
        assert(n1.len() == 20 ==> n1[13] == n2[13]);
    }
}

/// Two events are of the same kind (the same variant).
pub open spec fn same_kind(e1: Event, e2: Event) -> bool {
    &&& (e1 is MessageReceived <==> e2 is MessageReceived)
    &&& (e1 is MessageSent <==> e2 is MessageSent)
    &&& (e1 is MessageEdited <==> e2 is MessageEdited)
    &&& (e1 is MessageDeleted <==> e2 is MessageDeleted)
    &&& (e1 is ConversationCreated <==> e2 is ConversationCreated)
    &&& (e1 is ConversationUpdated <==> e2 is ConversationUpdated)
    &&& (e1 is ContactCreated <==> e2 is ContactCreated)
    &&& (e1 is ContactMerged <==> e2 is ContactMerged)
    &&& (e1 is AccountConnected <==> e2 is AccountConnected)
    &&& (e1 is AccountDisconnected <==> e2 is AccountDisconnected)
    &&& (e1 is SyncStarted <==> e2 is SyncStarted)
    &&& (e1 is SyncCompleted <==> e2 is SyncCompleted)
    &&& (e1 is SyncFailed <==> e2 is SyncFailed)
}

/// The topic found at `j` is the one `topic_subscribers` designates.
proof fn lemma_topic_at<H>(topics: Seq<Topic<H>>, n: Seq<char>, j: int)
    requires
        distinct_names(topics),
        0 <= j < topics.len(),
        topics[j].name@ == n,
    ensures
        has_topic(topics, n),
        topic_subscribers(topics, n) == topics[j].subscribers@,
{
}

/// `without_id` removes exactly the subscribers with that identifier: it is
/// shorter than the list exactly when one of them has it.
pub proof fn lemma_without_id_shorter<H>(subs: Seq<Subscriber<H>>, id: u128)
    ensures
        without_id(subs, id).len() <= subs.len(),
        (without_id(subs, id).len() < subs.len()) <==> (exists|k: int|
            0 <= k < subs.len() && #[trigger] subs[k].id == id),
        forall|k: int| 0 <= k < without_id(subs, id).len() ==> #[trigger] without_id(subs, id)[k].id
            != id,
    decreases subs.len(),
{
    if subs.len() > 0 {
        let init = subs.drop_last();
        lemma_without_id_shorter(init, id);
        if exists|k: int| 0 <= k < init.len() && #[trigger] init[k].id == id {
            let k = choose|k: int| 0 <= k < init.len() && #[trigger] init[k].id == id;
            assert(subs[k].id == id);
        }
        if exists|k: int| 0 <= k < subs.len() && #[trigger] subs[k].id == id {
            let k = choose|k: int| 0 <= k < subs.len() && #[trigger] subs[k].id == id;
            if k < subs.len() - 1 {
                assert(init[k].id == id);
            }
        }
    }
}

/// Handlers subscribed by event name. An event reaches the handlers subscribed
/// under its name, in the order they subscribed.
///
/// The topics are kept in a `Vec`, no two with the same name (the type's
/// invariant), rather than in a `HashMap<String, _>`: vstd specifies a std
/// `HashMap` only for keys whose hashing and equality it models, which `String`
/// keys are not, so lookups in such a map would prove nothing.
pub struct EventBus<H> {
    topics: Vec<Topic<H>>,
}

impl<H> View for EventBus<H> {
    type V = Map<Seq<char>, Seq<Subscriber<H>>>;

    closed spec fn view(&self) -> Map<Seq<char>, Seq<Subscriber<H>>> {
        Map::new(
            |n: Seq<char>| has_topic(self.topics@, n),
            |n: Seq<char>| topic_subscribers(self.topics@, n),
        )
    }
}

impl<H> EventBus<H> {
    #[verifier::type_invariant]
    spec fn inv(self) -> bool {
        distinct_names(self.topics@)
    }

    /// A bus without subscribers.
    pub fn new() -> (r: EventBus<H>)
        ensures
            r@ == Map::<Seq<char>, Seq<Subscriber<H>>>::empty(),
    {
        let r = EventBus { topics: Vec::new() };
        assert(r@ =~= Map::<Seq<char>, Seq<Subscriber<H>>>::empty());
        r
    }

    /// Position of the topic named `name`, if any.
    fn find_topic(topics: &Vec<Topic<H>>, name: &str) -> (r: Option<usize>)
        requires
            distinct_names(topics@),
        ensures
            r is None <==> !has_topic(topics@, name@),
            r matches Some(i) ==> i < topics@.len() && topics@[i as int].name@ == name@,
    {
        let mut i: usize = 0;
        while i < topics.len()
            invariant
                i <= topics@.len(),
                forall|j: int| 0 <= j < i ==> topics@[j].name@ != name@,
            decreases topics@.len() - i,
        {
            if str_eq(topics[i].name.as_str(), name) {
                return Some(i);
            }
            i = i + 1;
        }
        None
    }

    /// Registers `handler` under `event_name` and returns the fresh random
    /// identifier by which it can be removed. It comes after the handlers already
    /// registered under that name; nothing else changes.
    pub fn subscribe(&mut self, event_name: &str, handler: H) -> (r: u128)
        ensures
            final(self)@ == subscribed(old(self)@, event_name@, Subscriber { id: r, handler }),
    {
        proof {
            use_type_invariant(&*self);
        }
        let ghost before = self@;
        let id = new_id();
        let subscriber = Subscriber { id, handler };
        let mut topics: Vec<Topic<H>> = Vec::new();
        std::mem::swap(&mut topics, &mut self.topics);
        let ghost old_topics = topics@;
        assert(before =~= Map::new(
            |n: Seq<char>| has_topic(old_topics, n),
            |n: Seq<char>| topic_subscribers(old_topics, n),
        ));
        match EventBus::<H>::find_topic(&topics, event_name) {
            Some(i) => {
                let mut topic = topics.remove(i);
                proof {
                    lemma_topic_at(old_topics, event_name@, i as int);
                }
                topic.subscribers.push(subscriber);
                topics.insert(i, topic);
                assert(topics@ =~= old_topics.update(i as int, topics@[i as int]));
                assert(distinct_names(topics@)) by {
                    assert forall|a: int, b: int|
                        0 <= a < topics@.len() && 0 <= b < topics@.len() && a != b implies topics@[a].name@
                        != topics@[b].name@ by {
                        assert(topics@[a].name@ == old_topics[a].name@);
                        assert(topics@[b].name@ == old_topics[b].name@);
                    }
                }
                let ghost new_topics = topics@;
                self.topics = topics;
                assert(self@ =~= before.insert(
                    event_name@,
                    before[event_name@].push(Subscriber { id, handler }),
                )) by {
                    assert forall|n: Seq<char>| #[trigger] has_topic(new_topics, n) == (n == event_name@
                        || has_topic(old_topics, n)) by {
                        if has_topic(new_topics, n) {
                            let k = choose|k: int|
                                0 <= k < new_topics.len() && #[trigger] new_topics[k].name@ == n;
                            assert(old_topics[k].name@ == n);
                        }
                        if has_topic(old_topics, n) {
                            let k = choose|k: int|
                                0 <= k < old_topics.len() && #[trigger] old_topics[k].name@ == n;
                            assert(new_topics[k].name@ == n);
                        }
                    }
                    assert forall|n: Seq<char>| has_topic(new_topics, n) implies #[trigger] topic_subscribers(
                        new_topics,
                        n,
                    ) == (if n == event_name@ {
                        before[event_name@].push(Subscriber { id, handler })
                    } else {
                        topic_subscribers(old_topics, n)
                    }) by {
                        let k = choose|k: int|
                            0 <= k < new_topics.len() && #[trigger] new_topics[k].name@ == n;
                        lemma_topic_at(new_topics, n, k);
                        assert(old_topics[k].name@ == n);
                        lemma_topic_at(old_topics, n, k);
                    }
                }
            },
            None => {
                let mut subscribers = Vec::new();
                subscribers.push(subscriber);
                let topic = Topic { name: String::from_str(event_name), subscribers };
                topics.push(topic);
                assert(distinct_names(topics@)) by {
                    assert forall|a: int, b: int|
                        0 <= a < topics@.len() && 0 <= b < topics@.len() && a != b implies topics@[a].name@
                        != topics@[b].name@ by {
                        if a < old_topics.len() && b < old_topics.len() {
                            assert(topics@[a] == old_topics[a]);
                            assert(topics@[b] == old_topics[b]);
                        } else if a < old_topics.len() {
                            assert(topics@[a] == old_topics[a]);
                        } else {
                            assert(topics@[b] == old_topics[b]);
                        }
                    }
                }
                let ghost new_topics = topics@;
                self.topics = topics;
                assert(self@ =~= before.insert(
                    event_name@,
                    Seq::<Subscriber<H>>::empty().push(Subscriber { id, handler }),
                )) by {
                    let last = new_topics.len() - 1;
                    assert(new_topics[last].subscribers@ =~= Seq::<Subscriber<H>>::empty().push(
                        Subscriber { id, handler },
                    ));
                    assert forall|n: Seq<char>| #[trigger] has_topic(new_topics, n) == (n == event_name@
                        || has_topic(old_topics, n)) by {
                        if has_topic(new_topics, n) {
                            let k = choose|k: int|
                                0 <= k < new_topics.len() && #[trigger] new_topics[k].name@ == n;
                            if k < last {
                                assert(old_topics[k].name@ == n);
                            }
                        }
                        if has_topic(old_topics, n) {
                            let k = choose|k: int|
                                0 <= k < old_topics.len() && #[trigger] old_topics[k].name@ == n;
                            assert(new_topics[k].name@ == n);
                        }
                        if n == event_name@ {
                            assert(new_topics[last].name@ == n);
                        }
                    }
                    assert forall|n: Seq<char>| has_topic(new_topics, n) implies #[trigger] topic_subscribers(
                        new_topics,
                        n,
                    ) == (if n == event_name@ {
                        Seq::<Subscriber<H>>::empty().push(Subscriber { id, handler })
                    } else {
                        topic_subscribers(old_topics, n)
                    }) by {
                        let k = choose|k: int|
                            0 <= k < new_topics.len() && #[trigger] new_topics[k].name@ == n;
                        lemma_topic_at(new_topics, n, k);
                        if k < last {
                            assert(old_topics[k].name@ == n);
                            lemma_topic_at(old_topics, n, k);
                        }
                    }
                }
            },
        }
        id
    }

    /// The subscribers registered under `event_name`, if any ever subscribed.
    pub fn subscribers_of(&self, event_name: &str) -> (r: Option<&Vec<Subscriber<H>>>)
        ensures
            r is Some <==> self@.contains_key(event_name@),
            r matches Some(v) ==> v@ == self@[event_name@],
    {
        proof {
            use_type_invariant(self);
        }
        match EventBus::<H>::find_topic(&self.topics, event_name) {
            Some(i) => {
                proof {
                    lemma_topic_at(self.topics@, event_name@, i as int);
                }
                Some(&self.topics[i].subscribers)
            },
            None => None,
        }
    }

    /// The handlers an event reaches: those subscribed under its name.
    pub fn subscribers_for(&self, event: &Event) -> (r: Option<&Vec<Subscriber<H>>>)
        ensures
            r is Some <==> self@.contains_key(event_name_text(*event)),
            r matches Some(v) ==> v@ == self@[event_name_text(*event)],
    {
        self.subscribers_of(event.name())
    }

    /// Removes the subscribers with identifier `subscriber_id` from under
    /// `event_name`, keeping the others in order. Tells whether any was removed;
    /// an unknown name changes nothing.
    pub fn unsubscribe(&mut self, event_name: &str, subscriber_id: u128) -> (r: bool)
        ensures
            old(self)@.contains_key(event_name@) ==> {
                &&& final(self)@ == old(self)@.insert(
                    event_name@,
                    without_id(old(self)@[event_name@], subscriber_id),
                )
                &&& r == (without_id(old(self)@[event_name@], subscriber_id).len() < old(
                    self,
                )@[event_name@].len())
            },
            old(self)@.contains_key(event_name@) ==> final(self)@[event_name@] == old(
                self,
            )@[event_name@].filter(|s: Subscriber<H>| s.id != subscriber_id),
            !old(self)@.contains_key(event_name@) ==> final(self)@ == old(self)@ && !r,
    {
        proof {
            use_type_invariant(&*self);
        }
        let ghost before = self@;
        proof {
            if before.contains_key(event_name@) {
                lemma_without_id_is_filter(before[event_name@], subscriber_id);
            }
        }
        let mut topics: Vec<Topic<H>> = Vec::new();
        std::mem::swap(&mut topics, &mut self.topics);
        let ghost old_topics = topics@;
        assert(before =~= Map::new(
            |n: Seq<char>| has_topic(old_topics, n),
            |n: Seq<char>| topic_subscribers(old_topics, n),
        ));
        match EventBus::<H>::find_topic(&topics, event_name) {
            None => {
                self.topics = topics;
                assert(self@ =~= before);
                false
            },
            Some(i) => {
                let topic = topics.remove(i);
                proof {
                    lemma_topic_at(old_topics, event_name@, i as int);
                }
                let Topic { name, subscribers } = topic;
                let ghost orig = subscribers@;
                let initial_len = subscribers.len();
                let mut rest = subscribers;
                let mut kept: Vec<Subscriber<H>> = Vec::new();
                assert(orig.take(0) =~= Seq::<Subscriber<H>>::empty());
                assert(orig.skip(0) =~= orig);
                while rest.len() > 0
                    invariant
                        initial_len == orig.len(),
                        rest.len() <= orig.len(),
                        rest@ == orig.skip(orig.len() - rest.len()),
                        kept@ == without_id(orig.take(orig.len() - rest.len()), subscriber_id),
                    decreases rest.len(),
                {
                    let ghost consumed = orig.len() - rest.len();
                    let s = rest.remove(0);
                    assert(s == orig[consumed]);
                    assert(orig.take(consumed + 1).drop_last() =~= orig.take(consumed));
                    assert(orig.take(consumed + 1).last() == orig[consumed]);
                    assert(rest@ =~= orig.skip(consumed + 1));
                    if s.id != subscriber_id {
                        kept.push(s);
                    }
                }
                assert(orig.take(orig.len() as int) =~= orig);
                let removed = kept.len() < initial_len;
                topics.insert(i, Topic { name, subscribers: kept });
                assert(topics@ =~= old_topics.update(i as int, topics@[i as int]));
                assert(distinct_names(topics@)) by {
                    assert forall|a: int, b: int|
                        0 <= a < topics@.len() && 0 <= b < topics@.len() && a != b implies topics@[a].name@
                        != topics@[b].name@ by {
                        assert(topics@[a].name@ == old_topics[a].name@);
                        assert(topics@[b].name@ == old_topics[b].name@);
                    }
                }
                let ghost new_topics = topics@;
                self.topics = topics;
                assert(self@ =~= before.insert(
                    event_name@,
                    without_id(before[event_name@], subscriber_id),
                )) by {
                    assert forall|n: Seq<char>| #[trigger] has_topic(new_topics, n) == has_topic(
                        old_topics,
                        n,
                    ) by {
                        if has_topic(new_topics, n) {
                            let k = choose|k: int|
                                0 <= k < new_topics.len() && #[trigger] new_topics[k].name@ == n;
                            assert(old_topics[k].name@ == n);
                        }
                        if has_topic(old_topics, n) {
                            let k = choose|k: int|
                                0 <= k < old_topics.len() && #[trigger] old_topics[k].name@ == n;
                            assert(new_topics[k].name@ == n);
                        }
                    }
                    assert forall|n: Seq<char>| has_topic(new_topics, n) implies #[trigger] topic_subscribers(
                        new_topics,
                        n,
                    ) == (if n == event_name@ {
                        without_id(before[event_name@], subscriber_id)
                    } else {
                        topic_subscribers(old_topics, n)
                    }) by {
                        let k = choose|k: int|
                            0 <= k < new_topics.len() && #[trigger] new_topics[k].name@ == n;
                        lemma_topic_at(new_topics, n, k);
                        assert(old_topics[k].name@ == n);
                        lemma_topic_at(old_topics, n, k);
                    }
                }
                removed
            },
        }
    }
}

/// The registry after `subscribe(name, ..)` added `added` to `before`.
pub open spec fn subscribed<H>(
    before: Map<Seq<char>, Seq<Subscriber<H>>>,
    name: Seq<char>,
    added: Subscriber<H>,
) -> Map<Seq<char>, Seq<Subscriber<H>>> {
    before.insert(
        name,
        (if before.contains_key(name) {
            before[name]
        } else {
            Seq::empty()
        }).push(added),
    )
}

/// A handler that subscribed under a name can be removed under that name by the
/// identifier it was given: unsubscribing right after subscribing reports a
/// removal, and no subscriber with that identifier is left under the name.
pub proof fn lemma_unsubscribe_after_subscribe<H>(
    before: Map<Seq<char>, Seq<Subscriber<H>>>,
    name: Seq<char>,
    added: Subscriber<H>,
)
    ensures
        subscribed(before, name, added).contains_key(name),
        without_id(subscribed(before, name, added)[name], added.id).len() < subscribed(
            before,
            name,
            added,
        )[name].len(),
        forall|k: int|
            0 <= k < without_id(subscribed(before, name, added)[name], added.id).len()
                ==> #[trigger] without_id(subscribed(before, name, added)[name], added.id)[k].id
                != added.id,
{
    let subs = subscribed(before, name, added)[name];
    lemma_without_id_shorter(subs, added.id);
    assert(subs[subs.len() - 1].id == added.id);
}

/// Subscribing under a name leaves every other name as it was: the same
/// subscribers, in the same order. An identifier that no subscriber under
/// another name has (as a fresh one) removes nothing there, so unsubscribing it
/// under that other name reports no removal.
pub proof fn lemma_subscribe_keeps_other_names<H>(
    before: Map<Seq<char>, Seq<Subscriber<H>>>,
    name: Seq<char>,
    added: Subscriber<H>,
    other: Seq<char>,
)
    requires
        other != name,
    ensures
        subscribed(before, name, added).contains_key(other) == before.contains_key(other),
        before.contains_key(other) ==> subscribed(before, name, added)[other] == before[other],
        before.contains_key(other) && (forall|k: int|
            0 <= k < before[other].len() ==> #[trigger] before[other][k].id != added.id)
            ==> without_id(subscribed(before, name, added)[other], added.id).len() == subscribed(
            before,
            name,
            added,
        )[other].len(),
{
    if before.contains_key(other) {
        lemma_without_id_shorter(before[other], added.id);
    }
}

/// An event published after a handler subscribed under its name reaches that
/// handler, after the handlers that subscribed under that name before it.
pub proof fn lemma_event_reaches_subscriber<H>(
    before: Map<Seq<char>, Seq<Subscriber<H>>>,
    event: Event,
    added: Subscriber<H>,
)
    ensures
        subscribed(before, event_name_text(event), added).contains_key(event_name_text(event)),
        subscribed(before, event_name_text(event), added)[event_name_text(event)].last() == added,
        before.contains_key(event_name_text(event)) ==> subscribed(
            before,
            event_name_text(event),
            added,
        )[event_name_text(event)].drop_last() == before[event_name_text(event)],
{
    let n = event_name_text(event);
    if before.contains_key(n) {
        assert(subscribed(before, n, added)[n].drop_last() =~= before[n]);
    }
}

} // verus!
