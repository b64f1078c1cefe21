//! Message envelopes and header maps.
//!
//! An envelope carries a payload together with an optional header map and an
//! optional sender. Wrapping a message that is already an envelope returns
//! that envelope unchanged, so wrapping is idempotent.

use vstd::prelude::*;

use crate::message::{envelope_view, headers_view_opt, EnvelopeView, MessageHandle, MessageView};
use crate::pid::Pid;

verus! {

/// First-match lookup in a sequence of key/value pairs.
pub open spec fn lookup(s: Seq<(Seq<char>, Seq<char>)>, k: Seq<char>) -> Option<Seq<char>>
    decreases s.len(),
{
    if s.len() == 0 {
        None
    } else if s[0].0 == k {
        Some(s[0].1)
    } else {
        lookup(s.drop_first(), k)
    }
}

/// The keys of a sequence of key/value pairs, in order.
pub open spec fn keys_of(s: Seq<(Seq<char>, Seq<char>)>) -> Seq<Seq<char>> {
    s.map_values(|p: (Seq<char>, Seq<char>)| p.0)
}

/// No two pairs carry the same key.
pub open spec fn keys_unique(s: Seq<(Seq<char>, Seq<char>)>) -> bool {
    forall|i: int, j: int| 0 <= i < j < s.len() ==> s[i].0 != s[j].0
}

/// If the first match for `k` sits at index `i`, the lookup returns its value.
proof fn lemma_lookup_first_match(s: Seq<(Seq<char>, Seq<char>)>, k: Seq<char>, i: int)
    requires
        0 <= i < s.len(),
        forall|j: int| 0 <= j < i ==> s[j].0 != k,
        s[i].0 == k,
    ensures
        lookup(s, k) == Some(s[i].1),
    decreases i,
{
    if i > 0 {
        lemma_lookup_first_match(s.drop_first(), k, i - 1);
    }
}

/// If no pair carries `k`, the lookup misses.
proof fn lemma_lookup_none(s: Seq<(Seq<char>, Seq<char>)>, k: Seq<char>)
    requires
        forall|j: int| 0 <= j < s.len() ==> s[j].0 != k,
    ensures
        lookup(s, k) is None,
    decreases s.len(),
{
    if s.len() > 0 {
        lemma_lookup_none(s.drop_first(), k);
    }
}

/// Two sequences that agree on all keys, and on every pair whose key is `k`,
/// give the same lookup for `k`.
proof fn lemma_lookup_same_keys(
    s1: Seq<(Seq<char>, Seq<char>)>,
    s2: Seq<(Seq<char>, Seq<char>)>,
    k: Seq<char>,
)
    requires
        s1.len() == s2.len(),
        forall|j: int| 0 <= j < s1.len() ==> s1[j].0 == s2[j].0,
        forall|j: int| 0 <= j < s1.len() && s1[j].0 == k ==> s1[j] == s2[j],
    ensures
        lookup(s1, k) == lookup(s2, k),
    decreases s1.len(),
{
    if s1.len() > 0 {
        if s1[0].0 == k {
        } else {
            lemma_lookup_same_keys(s1.drop_first(), s2.drop_first(), k);
        }
    }
}

/// Appending a pair only fills a lookup that missed before.
proof fn lemma_lookup_push(
    s: Seq<(Seq<char>, Seq<char>)>,
    p: (Seq<char>, Seq<char>),
    k: Seq<char>,
)
    ensures
        lookup(s.push(p), k) == (if lookup(s, k) is Some {
            lookup(s, k)
        } else if p.0 == k {
            Some(p.1)
        } else {
            None::<Seq<char>>
        }),
    decreases s.len(),
{
    if s.len() == 0 {
        assert(s.push(p).drop_first() =~= s);
    } else {
        assert(s.push(p).drop_first() =~= s.drop_first().push(p));
        lemma_lookup_push(s.drop_first(), p, k);
    }
}

/// A map from header names to header values, kept as a list of pairs with
/// distinct keys.
#[derive(Debug)]
pub struct MessageHeaders {
    pub pairs: Vec<(String, String)>,
}

impl View for MessageHeaders {
    type V = Seq<(Seq<char>, Seq<char>)>;

    open spec fn view(&self) -> Seq<(Seq<char>, Seq<char>)> {
        self.pairs@.map_values(|p: (String, String)| (p.0@, p.1@))
    }
}

/// Read access to a header map.
pub trait ReadonlyMessageHeaders {
    /// The header pairs this value exposes.
    spec fn header_view(&self) -> Seq<(Seq<char>, Seq<char>)>;

    /// The value stored under `key`, if any.
    fn get(&self, key: &str) -> (r: Option<String>)
        ensures
            match r {
                Some(v) => lookup(self.header_view(), key@) == Some(v@),
                None => lookup(self.header_view(), key@) is None,
            };

    /// All keys, in storage order.
    fn keys(&self) -> (r: Vec<String>)
        ensures
            r@.map_values(|s: String| s@) == keys_of(self.header_view());

    /// How many headers are stored.
    fn length(&self) -> (r: usize)
        ensures
            r == self.header_view().len();

    /// A copy of all pairs, in storage order.
    fn to_map(&self) -> (r: Vec<(String, String)>)
        ensures
            r@.map_values(|p: (String, String)| (p.0@, p.1@)) == self.header_view();
}

impl MessageHeaders {
    /// All keys are distinct; `new` establishes this and `set` keeps it.
    pub open spec fn wf(&self) -> bool {
        keys_unique(self@)
    }

    /// Creates an empty header map.
    pub fn new() -> (r: Self)
        ensures
            r@ == Seq::<(Seq<char>, Seq<char>)>::empty(),
            r.wf(),
    {
        let r = MessageHeaders { pairs: Vec::new() };
        proof {
            assert(r@ =~= Seq::<(Seq<char>, Seq<char>)>::empty());
        }
        r
    }

    /// Index of the pair holding `key`, if present.
    fn index_of(&self, key: &str) -> (r: Option<usize>)
        ensures
            match r {
                Some(i) => i < self@.len() && self@[i as int].0 == key@
                    && (forall|j: int| 0 <= j < i ==> self@[j].0 != key@),
                None => forall|j: int| 0 <= j < self@.len() ==> self@[j].0 != key@,
            },
    {
        let key_owned = key.to_owned();
        let mut i: usize = 0;
        while i < self.pairs.len()
            invariant
                i <= self.pairs.len(),
                key_owned@ == key@,
                self@.len() == self.pairs@.len(),
                forall|j: int| 0 <= j < i ==> self@[j].0 != key@,
            decreases self.pairs.len() - i,
        {
            if self.pairs[i].0 == key_owned {
                return Some(i);
            }
            i = i + 1;
        }
        None
    }

    /// Stores `value` under `key`, replacing any earlier value.
    pub fn set(&mut self, key: String, value: String)
        requires
            old(self).wf(),
        ensures
            final(self).wf(),
            lookup(final(self)@, key@) == Some(value@),
            forall|k: Seq<char>| k != key@ ==> lookup(final(self)@, k) == lookup(old(self)@, k),
            final(self)@.len() == if lookup(old(self)@, key@) is Some {
                old(self)@.len()
            } else {
                old(self)@.len() + 1
            },
    {
        let ghost pre = self@;
        match self.index_of(key.as_str()) {
            Some(i) => {
                proof {
                    lemma_lookup_first_match(pre, key@, i as int);
                }
                self.pairs[i] = (key, value);
                proof {
                    let ghost post = self@;
                    assert(post =~= pre.update(i as int, (key@, value@)));
                    lemma_lookup_first_match(post, key@, i as int);
                    assert forall|k: Seq<char>| k != key@ implies lookup(post, k) == lookup(
                        pre,
                        k,
                    ) by {
                        lemma_lookup_same_keys(pre, post, k);
                    }
                }
            },
            None => {
                proof {
                    lemma_lookup_none(pre, key@);
                }
                let ghost kv = key@;
                let ghost vv = value@;
                self.pairs.push((key, value));
                proof {
                    let ghost post = self@;
                    assert(post =~= pre.push((kv, vv)));
                    lemma_lookup_push(pre, (kv, vv), kv);
                    assert forall|k: Seq<char>| k != kv implies lookup(post, k) == lookup(
                        pre,
                        k,
                    ) by {
                        lemma_lookup_push(pre, (kv, vv), k);
                    }
                }
            },
        }
    }
}

impl ReadonlyMessageHeaders for MessageHeaders {
    open spec fn header_view(&self) -> Seq<(Seq<char>, Seq<char>)> {
        self@
    }

    fn get(&self, key: &str) -> (r: Option<String>) {
        match self.index_of(key) {
            Some(i) => {
                proof {
                    lemma_lookup_first_match(self@, key@, i as int);
                }
                Some(self.pairs[i].1.clone())
            },
            None => {
                proof {
                    lemma_lookup_none(self@, key@);
                }
                None
            },
        }
    }

    fn keys(&self) -> (r: Vec<String>) {
        let mut r: Vec<String> = Vec::new();
        let mut i: usize = 0;
        while i < self.pairs.len()
            invariant
                i <= self.pairs.len(),
                self@.len() == self.pairs@.len(),
                r@.len() == i as int,
                forall|j: int| 0 <= j < i ==> r@[j]@ == self@[j].0,
            decreases self.pairs.len() - i,
        {
            r.push(self.pairs[i].0.clone());
            i = i + 1;
        }
        proof {
            assert(r@.map_values(|s: String| s@) =~= keys_of(self.header_view()));
        }
        r
    }

    fn length(&self) -> (r: usize) {
        self.pairs.len()
    }

    fn to_map(&self) -> (r: Vec<(String, String)>) {
        let mut r: Vec<(String, String)> = Vec::new();
        let mut i: usize = 0;
        while i < self.pairs.len()
            invariant
                i <= self.pairs.len(),
                self@.len() == self.pairs@.len(),
                r@.len() == i as int,
                forall|j: int| 0 <= j < i ==> (r@[j].0@, r@[j].1@) == self@[j],
            decreases self.pairs.len() - i,
        {
            let k = self.pairs[i].0.clone();
            let v = self.pairs[i].1.clone();
            r.push((k, v));
            i = i + 1;
        }
        proof {
            assert(r@.map_values(|p: (String, String)| (p.0@, p.1@)) =~= self.header_view());
        }
        r
    }
}

impl Clone for MessageHeaders {
    fn clone(&self) -> (r: Self)
        ensures
            r@ == self@,
    {
        let mut pairs: Vec<(String, String)> = Vec::new();
        let mut i: usize = 0;
        while i < self.pairs.len()
            invariant
                i <= self.pairs.len(),
                pairs@.len() == i as int,
                forall|j: int| 0 <= j < i ==> pairs@[j] == self.pairs@[j],
            decreases self.pairs.len() - i,
        {
            let k = self.pairs[i].0.clone();
            let v = self.pairs[i].1.clone();
            pairs.push((k, v));
            i = i + 1;
        }
        proof {
            assert(pairs@ =~= self.pairs@);
        }
        MessageHeaders { pairs }
    }
}

impl View for MessageEnvelope {
    type V = EnvelopeView;

    open spec fn view(&self) -> EnvelopeView {
        envelope_view(*self)
    }
}

/// A shared, read-only handle onto a header map.
#[derive(Debug, Clone)]
pub struct ReadonlyMessageHeadersHandle(pub std::sync::Arc<MessageHeaders>);

impl ReadonlyMessageHeadersHandle {
    /// Wraps an already shared header map.
    pub fn new_arc(header: std::sync::Arc<MessageHeaders>) -> (r: Self)
        ensures
            r.header_view() == header@,
    {
        ReadonlyMessageHeadersHandle(header)
    }

    /// Takes ownership of a header map and shares it.
    pub fn new(header: MessageHeaders) -> (r: Self)
        ensures
            r.header_view() == header@,
    {
        ReadonlyMessageHeadersHandle(std::sync::Arc::new(header))
    }
}

impl ReadonlyMessageHeaders for ReadonlyMessageHeadersHandle {
    open spec fn header_view(&self) -> Seq<(Seq<char>, Seq<char>)> {
        self.0@
    }

    fn get(&self, key: &str) -> (r: Option<String>) {
        (*self.0).get(key)
    }

    fn keys(&self) -> (r: Vec<String>) {
        (*self.0).keys()
    }

    fn length(&self) -> (r: usize) {
        (*self.0).length()
    }

    fn to_map(&self) -> (r: Vec<(String, String)>) {
        (*self.0).to_map()
    }
}

/// A payload together with an optional header map and an optional sender.
#[derive(Debug)]
pub struct MessageEnvelope {
    pub header: Option<MessageHeaders>,
    pub message: MessageHandle,
    pub sender: Option<Pid>,
}

impl MessageEnvelope {
    /// Wraps a bare payload: no headers, no sender.
    pub fn new(message: MessageHandle) -> (r: Self)
        ensures
            r == (MessageEnvelope { header: None, message, sender: None }),
    {
        MessageEnvelope { header: None, message, sender: None }
    }

    /// Replaces the header map.
    pub fn with_header(self, header: MessageHeaders) -> (r: Self)
        ensures
            r == (MessageEnvelope { header: Some(header), ..self }),
    {
        MessageEnvelope { header: Some(header), ..self }
    }

    /// Replaces the sender.
    pub fn with_sender(self, sender: Pid) -> (r: Self)
        ensures
            r == (MessageEnvelope { sender: Some(sender), ..self }),
    {
        MessageEnvelope { sender: Some(sender), ..self }
    }

    /// The header value stored under `key`, if any.
    pub fn get_header_value(&self, key: &str) -> (r: Option<String>)
        ensures
            match self.header {
                Some(h) => match r {
                    Some(v) => lookup(h@, key@) == Some(v@),
                    None => lookup(h@, key@) is None,
                },
                None => r is None,
            },
    {
        match &self.header {
            Some(h) => h.get(key),
            None => None,
        }
    }

    /// Stores `value` under `key`, creating the header map if needed. Every
    /// other key keeps the value it had — or stays absent.
    pub fn set_header(&mut self, key: String, value: String)
        requires
            old(self).header matches Some(h) ==> h.wf(),
        ensures
            final(self).message == old(self).message,
            final(self).sender == old(self).sender,
            final(self).header matches Some(h) && h.wf() && lookup(h@, key@) == Some(value@)
                && (forall|k: Seq<char>|
                k != key@ ==> lookup(h@, k) == (match old(self).header {
                    Some(h0) => lookup(h0@, k),
                    None => None::<Seq<char>>,
                })),
    {
        if self.header.is_none() {
            self.header = Some(MessageHeaders::new());
        }
        match &mut self.header {
            Some(h) => h.set(key, value),
            None => (),
        }
    }

    /// A copy of the header map, if one is attached.
    pub fn get_headers(&self) -> (r: Option<MessageHeaders>)
        ensures
            headers_view_opt(r) == headers_view_opt(self.header),
    {
        match &self.header {
            Some(h) => Some(h.clone()),
            None => None,
        }
    }
}

impl Clone for MessageEnvelope {
    fn clone(&self) -> (r: Self)
        ensures
            r@ == self@,
        decreases *self,
    {
        let header = match &self.header {
            Some(h) => Some(h.clone()),
            None => None,
        };
        let sender = match &self.sender {
            Some(p) => Some(p.clone()),
            None => None,
        };
        MessageEnvelope { header, message: self.message.clone(), sender }
    }
}

/// What wrapping a message yields: an envelope passes through as it is,
/// anything else is boxed into a fresh envelope without headers or sender.
pub open spec fn spec_wrap(m: MessageView) -> EnvelopeView {
    match m {
        MessageView::Envelope(e) => e,
        _ => EnvelopeView { header: None, message: Box::new(m), sender: None },
    }
}

/// Wraps a message into an envelope; an envelope passes through unchanged.
pub fn wrap_envelope(message: MessageHandle) -> (r: MessageEnvelope)
    ensures
        r@ == spec_wrap(message@),
{
    match message {
        MessageHandle::Envelope(e) => *e,
        other => MessageEnvelope::new(other),
    }
}

/// Wrapping is idempotent: wrapping the result of a wrap changes nothing in
/// the observed fields.
pub proof fn lemma_wrap_idempotent(m: MessageView)
    ensures
        spec_wrap(MessageView::Envelope(spec_wrap(m))) == spec_wrap(m),
{
}

/// The header pairs an envelope carries; `None` for any other message.
pub open spec fn spec_unwrap_header(m: MessageView) -> Option<Seq<(Seq<char>, Seq<char>)>> {
    match m {
        MessageView::Envelope(e) => e.header,
        _ => None,
    }
}

/// The payload inside an envelope; any other message is its own payload.
pub open spec fn spec_unwrap_message(m: MessageView) -> MessageView {
    match m {
        MessageView::Envelope(e) => *e.message,
        _ => m,
    }
}

/// The sender an envelope carries; `None` for any other message.
pub open spec fn spec_unwrap_sender(m: MessageView) -> Option<Pid> {
    match m {
        MessageView::Envelope(e) => e.sender,
        _ => None,
    }
}

/// Splits a message into header, payload and sender.
pub fn unwrap_envelope(message: MessageHandle) -> (r: (
    Option<MessageHeaders>,
    MessageHandle,
    Option<Pid>,
))
    ensures
        headers_view_opt(r.0) == spec_unwrap_header(message@),
        r.1@ == spec_unwrap_message(message@),
        r.2 == spec_unwrap_sender(message@),
{
    match message {
        MessageHandle::Envelope(e) => {
            let env = *e;
            (env.header, env.message, env.sender)
        },
        other => (None, other, None),
    }
}

/// The header map of an envelope, `None` for any other message.
pub fn unwrap_envelope_header(message: MessageHandle) -> (r: Option<MessageHeaders>)
    ensures
        headers_view_opt(r) == spec_unwrap_header(message@),
{
    match message {
        MessageHandle::Envelope(e) => e.header,
        _ => None,
    }
}

/// The payload of an envelope; any other message is returned unchanged.
pub fn unwrap_envelope_message(message: MessageHandle) -> (r: MessageHandle)
    ensures
        r@ == spec_unwrap_message(message@),
{
    match message {
        MessageHandle::Envelope(e) => e.message,
        other => other,
    }
}

/// The sender of an envelope, `None` for any other message.
pub fn unwrap_envelope_sender(message: MessageHandle) -> (r: Option<Pid>)
    ensures
        r == spec_unwrap_sender(message@),
{
    match message {
        MessageHandle::Envelope(e) => e.sender,
        _ => None,
    }
}

/// A message under delivery: either a bare message or a full envelope, with
/// an optional sender resolved alongside.
#[derive(Debug)]
pub struct MessageOrEnvelope {
    pub message: Option<MessageHandle>,
    pub envelope: Option<MessageEnvelope>,
    pub sender: Option<Pid>,
}

impl MessageOrEnvelope {
    /// Exactly one of the two carriers is filled.
    pub open spec fn wf(&self) -> bool {
        self.message is Some <==> self.envelope is None
    }

    /// Carries a bare message.
    pub fn of_message(message: MessageHandle) -> (r: Self)
        ensures
            r.wf(),
            r.message == Some(message),
            r.envelope is None,
            r.sender is None,
    {
        MessageOrEnvelope { message: Some(message), envelope: None, sender: None }
    }

    /// Carries a full envelope.
    pub fn of_envelope(envelope: MessageEnvelope) -> (r: Self)
        ensures
            r.wf(),
            r.message is None,
            r.envelope == Some(envelope),
            r.sender is None,
    {
        MessageOrEnvelope { message: None, envelope: Some(envelope), sender: None }
    }

    /// Resolves the sender.
    pub fn with_sender(self, sender: Option<Pid>) -> (r: Self)
        ensures
            r == (MessageOrEnvelope { sender, ..self }),
    {
        MessageOrEnvelope { sender, ..self }
    }

    /// The payload under delivery: the bare message, or the envelope's.
    pub fn get_value(&self) -> (r: MessageHandle)
        requires
            self.wf(),
        ensures
            self.message matches Some(m) ==> r@ == m@,
            self.message is None ==> (self.envelope matches Some(e) && r@ == e.message@),
    {
        match &self.message {
            Some(m) => m.clone(),
            None => match &self.envelope {
                Some(e) => e.message.clone(),
                None => MessageHandle::PoisonPill,
            },
        }
    }

    /// The bare message, if this is one.
    pub fn get_message(&self) -> (r: Option<MessageHandle>)
        ensures
            match (r, self.message) {
                (Some(m), Some(mm)) => m@ == mm@,
                (None, None) => true,
                _ => false,
            },
    {
        match &self.message {
            Some(m) => Some(m.clone()),
            None => None,
        }
    }

    /// The envelope, if this is one.
    pub fn get_envelope(&self) -> (r: Option<MessageEnvelope>)
        ensures
            match (r, self.envelope) {
                (Some(e), Some(ee)) => e@ == ee@,
                (None, None) => true,
                _ => false,
            },
    {
        match &self.envelope {
            Some(e) => Some(e.clone()),
            None => None,
        }
    }

    /// The resolved sender, if any.
    pub fn get_sender(&self) -> (r: Option<Pid>)
        ensures
            r == self.sender,
    {
        match &self.sender {
            Some(p) => Some(p.clone()),
            None => None,
        }
    }
}

} // verus!
