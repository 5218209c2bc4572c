//! The decisions around a cloud queue: what a send carries, which received
//! messages are deleted on receipt, and what a receive hands back.

use vstd::prelude::*;
use crate::err::EventfulError;
use crate::text::views;

verus! {

/// A type whose values are events on one queue.
pub trait Event {
    /// The queue's URL, fixed for the type.
    fn queue_url() -> &'static str;

    /// The message group of this event: events of one group are delivered
    /// one by one, in the order sent. `None` asks for no ordering.
    fn group_id(&self) -> Option<String> {
        None
    }
}

/// What one send to the queue carries.
pub struct SendRequest {
    pub queue_url: String,
    pub body: String,
    pub group_id: Option<String>,
}

/// A send request as plain text.
pub struct SendRequestView {
    pub queue_url: Seq<char>,
    pub body: Seq<char>,
    pub group_id: Option<Seq<char>>,
}

pub open spec fn opt_view(o: Option<String>) -> Option<Seq<char>> {
    match o {
        Some(s) => Some(s@),
        None => None,
    }
}

impl View for SendRequest {
    type V = SendRequestView;

    open spec fn view(&self) -> SendRequestView {
        SendRequestView { queue_url: self.queue_url@, body: self.body@, group_id: opt_view(self.group_id) }
    }
}

/// The send that publishes `body` to `queue_url` under the group key `group_id`.
pub open spec fn request_of(queue_url: Seq<char>, body: Seq<char>, group_id: Option<Seq<char>>) -> SendRequestView {
    SendRequestView { queue_url, body, group_id }
}

/// The send for one event: the group key, when there is one, is handed to
/// the queue as the message group unchanged, and no group is asked for otherwise.
pub fn send_request(queue_url: &str, body: String, group_id: Option<String>) -> (r: SendRequest)
    ensures
        r@ == request_of(queue_url@, body@, opt_view(group_id)),
{
    SendRequest { queue_url: String::from_str(queue_url), body, group_id }
}

/// Two sends whose events share a group key ask for the same message group,
/// and that group is the key itself.
pub proof fn lemma_group_pass_through(
    q1: Seq<char>,
    b1: Seq<char>,
    q2: Seq<char>,
    b2: Seq<char>,
    key: Option<Seq<char>>,
)
    ensures
        request_of(q1, b1, key).group_id == request_of(q2, b2, key).group_id,
        request_of(q1, b1, key).group_id == key,
{
}

/// The receipt handles among `handles`, in order, skipping messages without one.
pub open spec fn present_handles(handles: Seq<Option<String>>) -> Seq<Seq<char>>
    decreases handles.len(),
{
    if handles.len() == 0 {
        Seq::empty()
    } else {
        let r = present_handles(handles.drop_last());
        match handles.last() {
            Some(h) => r.push(h@),
            None => r,
        }
    }
}

/// The receipt handles to delete right after a receive that returned
/// messages with `handles`: all that are present with delete-on-receipt,
/// none without.
pub open spec fn deletions(handles: Seq<Option<String>>, delete_on_receipt: bool) -> Seq<Seq<char>> {
    if delete_on_receipt {
        present_handles(handles)
    } else {
        Seq::empty()
    }
}

/// Which received messages to delete at once: with `delete_on_receipt`,
/// every one that has a receipt handle; otherwise none, and they stay on the
/// queue until deleted explicitly.
pub fn receipts_to_delete(handles: &Vec<Option<String>>, delete_on_receipt: bool) -> (r: Vec<String>)
    ensures
        views(r@) == deletions(handles@, delete_on_receipt),
{
    let mut r: Vec<String> = Vec::new();
    if !delete_on_receipt {
        assert(views(r@) =~= Seq::<Seq<char>>::empty());
        return r;
    }
    let mut i: usize = 0;
    assert(handles@.take(0) =~= Seq::<Option<String>>::empty());
    assert(views(r@) =~= Seq::<Seq<char>>::empty());
    while i < handles.len()
        invariant
            delete_on_receipt,
            i <= handles@.len(),
            views(r@) == present_handles(handles@.take(i as int)),
        decreases handles@.len() - i,
    {
        assert(handles@.take(i as int + 1).drop_last() =~= handles@.take(i as int));
        match &handles[i] {
            Some(h) => {
                let ghost before = r@;
                r.push(h.clone());
                assert(views(r@) =~= views(before).push(h@));
            },
            None => {},
        }
        i = i + 1;
    }
    assert(handles@.take(i as int) =~= handles@);
    r
}

proof fn lemma_present_handles_contains(handles: Seq<Option<String>>, i: int)
    requires
        0 <= i < handles.len(),
        handles[i] is Some,
    ensures
        present_handles(handles).contains(handles[i]->0@),
    decreases handles.len(),
{
    let r = present_handles(handles.drop_last());
    if i == handles.len() - 1 {
        assert(present_handles(handles).last() == handles[i]->0@);
    } else {
        lemma_present_handles_contains(handles.drop_last(), i);
        let j = choose|j: int| 0 <= j < r.len() && r[j] == handles[i]->0@;
        match handles.last() {
            Some(h) => assert(present_handles(handles)[j] == r[j]),
            None => {},
        }
    }
}

/// With delete-on-receipt, every received message that has a receipt handle
/// is deleted in the same receive, before the caller processes it; without
/// it, nothing is deleted and the message stays on the queue.
pub proof fn lemma_delete_on_receipt(handles: Seq<Option<String>>, delete_on_receipt: bool, i: int)
    requires
        0 <= i < handles.len(),
        handles[i] is Some,
    ensures
        delete_on_receipt ==> deletions(handles, delete_on_receipt).contains(handles[i]->0@),
        !delete_on_receipt ==> deletions(handles, delete_on_receipt).len() == 0,
{
    if delete_on_receipt {
        lemma_present_handles_contains(handles, i);
    }
}

/// The text of a message body, empty when the message has none.
pub open spec fn body_text(body: Option<String>) -> Seq<char> {
    match body {
        Some(b) => b@,
        None => Seq::empty(),
    }
}

/// The bodies of received messages as strings, in order, an absent body as empty.
pub fn bodies_as_strings(bodies: Vec<Option<String>>) -> (r: Vec<String>)
    ensures
        r@.len() == bodies@.len(),
        forall|i: int| 0 <= i < r@.len() ==> #[trigger] r@[i]@ == body_text(bodies@[i]),
{
    let mut r: Vec<String> = Vec::new();
    let mut i: usize = 0;
    while i < bodies.len()
        invariant
            i <= bodies@.len(),
            r@.len() == i,
            forall|j: int| 0 <= j < i ==> #[trigger] r@[j]@ == body_text(bodies@[j]),
        decreases bodies@.len() - i,
    {
        let b = match &bodies[i] {
            Some(b) => b.clone(),
            None => String::new(),
        };
        r.push(b);
        i = i + 1;
    }
    r
}

/// The message id that the queue assigned to a send, or a queue error when
/// its answer carries none.
pub fn message_id_from(id: Option<String>) -> (r: Result<String, EventfulError>)
    ensures
        match id {
            Some(s) => r == Ok::<String, EventfulError>(s),
            None => r matches Err(EventfulError::SQS(_)),
        },
{
    match id {
        Some(s) => Ok(s),
        None => Err(EventfulError::SQS(String::from_str("the send returned no message id"))),
    }
}

} // verus!
