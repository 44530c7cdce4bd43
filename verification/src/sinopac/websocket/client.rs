//! The subscriptions of the gateway WebSocket client and the commands it
//! sends.
//!
//! The client remembers every subscription the gateway acknowledged, so that
//! after a reconnection it can subscribe again to all of them.

use vstd::prelude::*;

use crate::shioaji::websocket::messages::spec_subscribe_json;
use crate::sinopac::common::consts::SINOPAC_GATEWAY_WS_URL;
use crate::sinopac::common::enums::SinopacQuoteType;
use crate::sinopac::websocket::error::SinopacWsError;
use crate::sinopac::websocket::messages::WsSubscribeMsg;
use crate::text::str_eq;

verus! {

/// The WebSocket URL the client connects to: the one given, else the
/// default gateway address.
pub fn resolve_ws_url(url: Option<String>) -> (u: String)
    ensures
        u@ == (match url {
            Some(x) => x@,
            None => SINOPAC_GATEWAY_WS_URL@,
        }),
{
    match url {
        Some(x) => x,
        None => String::from_str(SINOPAC_GATEWAY_WS_URL),
    }
}

/// One subscription: a contract code and a quote type.
#[derive(Debug, Clone)]
pub struct Subscription {
    pub code: String,
    pub quote_type: SinopacQuoteType,
}

impl Subscription {
    pub open spec fn key(self) -> (Seq<char>, SinopacQuoteType) {
        (self.code@, self.quote_type)
    }
}

/// The set of subscriptions of a client. Each subscription is held once.
#[derive(Debug, Clone)]
pub struct SubscriptionSet {
    entries: Vec<Subscription>,
}

pub open spec fn holds(s: Seq<Subscription>, k: (Seq<char>, SinopacQuoteType)) -> bool {
    exists|i: int| 0 <= i < s.len() && #[trigger] s[i].key() == k
}

pub open spec fn no_repeats(s: Seq<Subscription>) -> bool {
    forall|i: int, j: int| 0 <= i < s.len() && 0 <= j < s.len() && i != j ==> s[i].key() != s[j].key()
}

impl View for SubscriptionSet {
    type V = Set<(Seq<char>, SinopacQuoteType)>;

    closed spec fn view(&self) -> Self::V {
        Set::new(|k: (Seq<char>, SinopacQuoteType)| holds(self.entries@, k))
    }
}

impl SubscriptionSet {
    /// No subscription is held twice.
    pub closed spec fn wf(self) -> bool {
        no_repeats(self.entries@)
    }

    /// The subscriptions in the order they are held.
    pub closed spec fn spec_entries(self) -> Seq<Subscription> {
        self.entries@
    }

    /// An empty set of subscriptions.
    pub fn new() -> (s: SubscriptionSet)
        ensures
            s.wf(),
            s@ == Set::<(Seq<char>, SinopacQuoteType)>::empty(),
    {
        let s = SubscriptionSet { entries: Vec::new() };
        assert(s@ =~= Set::<(Seq<char>, SinopacQuoteType)>::empty());
        s
    }

    fn find(&self, code: &str, quote_type: SinopacQuoteType) -> (r: Option<usize>)
        ensures
            r matches Some(i) ==> i < self.entries@.len() && self.entries@[i as int].key() == (
                code@,
                quote_type,
            ),
            r is None ==> !holds(self.entries@, (code@, quote_type)),
    {
        let mut i: usize = 0;
        while i < self.entries.len()
            invariant
                i <= self.entries@.len(),
                forall|j: int| 0 <= j < i ==> #[trigger] self.entries@[j].key() != (code@, quote_type),
            decreases self.entries@.len() - i,
        {
            if str_eq(self.entries[i].code.as_str(), code) && self.entries[i].quote_type == quote_type {
                return Some(i);
            }
            i = i + 1;
        }
        None
    }

    /// Whether the subscription is held.
    pub fn contains(&self, code: &str, quote_type: SinopacQuoteType) -> (b: bool)
        ensures
            b == self@.contains((code@, quote_type)),
    {
        self.find(code, quote_type).is_some()
    }

    /// Adds a subscription (holding it once).
    pub fn insert(&mut self, code: &str, quote_type: SinopacQuoteType)
        requires
            old(self).wf(),
        ensures
            final(self).wf(),
            final(self)@ == old(self)@.insert((code@, quote_type)),
    {
        let ghost k = (code@, quote_type);
        if self.find(code, quote_type).is_none() {
            let ghost old_s = self.entries@;
            let e = Subscription { code: String::from_str(code), quote_type };
            self.entries.push(e);
            let ghost s = self.entries@;
            assert(s == old_s.push(e));
            assert(s[old_s.len() as int].key() == k);
            assert forall|q| #![auto] holds(s, q) <==> holds(old_s, q) || q == k by {
                if holds(old_s, q) {
                    let j = choose|j: int| 0 <= j < old_s.len() && #[trigger] old_s[j].key() == q;
                    assert(s[j].key() == q);
                }
                if holds(s, q) && q != k {
                    let j = choose|j: int| 0 <= j < s.len() && #[trigger] s[j].key() == q;
                    assert(old_s[j].key() == q);
                }
            }
            assert(self@ =~= old(self)@.insert(k));
        } else {
            assert(self@ =~= old(self)@.insert(k));
        }
    }

    /// Removes a subscription, if held.
    pub fn remove(&mut self, code: &str, quote_type: SinopacQuoteType)
        requires
            old(self).wf(),
        ensures
            final(self).wf(),
            final(self)@ == old(self)@.remove((code@, quote_type)),
    {
        let ghost k = (code@, quote_type);
        match self.find(code, quote_type) {
            Some(i) => {
                let ghost old_s = self.entries@;
                self.entries.remove(i);
                let ghost s = self.entries@;
                assert(s == old_s.remove(i as int));
                assert forall|a: int, b: int|
                    0 <= a < s.len() && 0 <= b < s.len() && a != b implies s[a].key() != s[b].key() by {
                    let a2 = if a < i { a } else { a + 1 };
                    let b2 = if b < i { b } else { b + 1 };
                    assert(s[a] == old_s[a2]);
                    assert(s[b] == old_s[b2]);
                }
                assert forall|q| #![auto] holds(s, q) <==> holds(old_s, q) && q != k by {
                    if holds(s, q) {
                        let j = choose|j: int| 0 <= j < s.len() && #[trigger] s[j].key() == q;
                        let j2 = if j < i { j } else { j + 1 };
                        assert(old_s[j2].key() == q);
                        assert(j2 != i);
                    }
                    if holds(old_s, q) && q != k {
                        let j = choose|j: int| 0 <= j < old_s.len() && #[trigger] old_s[j].key() == q;
                        assert(j != i);
                        let j2 = if j < i { j } else { j - 1 };
                        assert(s[j2].key() == q);
                    }
                }
                assert(self@ =~= old(self)@.remove(k));
            },
            None => {
                assert(self@ =~= old(self)@.remove(k));
            },
        }
    }

    /// The subscribe commands that restore every subscription after a
    /// reconnection: one per subscription held (none when there are none).
    pub fn resubscribe_frames(&self) -> (frames: Vec<String>)
        requires
            self.wf(),
        ensures
            frames@.len() == self.spec_entries().len(),
            forall|i: int|
                0 <= i < frames@.len() ==> (#[trigger] frames@[i])@ == spec_subscribe_json(
                    "subscribe"@,
                    self.spec_entries()[i].code@,
                    self.spec_entries()[i].quote_type.spec_name(),
                ),
            forall|k| #![auto] self@.contains(k) <==> exists|i: int|
                0 <= i < self.spec_entries().len() && self.spec_entries()[i].key() == k,
    {
        let mut frames: Vec<String> = Vec::new();
        let mut i: usize = 0;
        while i < self.entries.len()
            invariant
                i <= self.entries@.len(),
                frames@.len() == i,
                forall|j: int|
                    0 <= j < i ==> (#[trigger] frames@[j])@ == spec_subscribe_json(
                        "subscribe"@,
                        self.entries@[j].code@,
                        self.entries@[j].quote_type.spec_name(),
                    ),
            decreases self.entries@.len() - i,
        {
            let msg = WsSubscribeMsg {
                action: String::from_str("subscribe"),
                contract_code: self.entries[i].code.clone(),
                quote_type: self.entries[i].quote_type,
            };
            frames.push(msg.to_json());
            i = i + 1;
        }
        frames
    }
}

/// A subscription that was added is held and one that was removed is not;
/// adding or removing one leaves every other subscription as it was.
pub proof fn lemma_subscriptions_read_after_write(
    subs: SubscriptionSet,
    k: (Seq<char>, SinopacQuoteType),
    other: (Seq<char>, SinopacQuoteType),
)
    requires
        subs.wf(),
    ensures
        subs@.insert(k).contains(k),
        !subs@.remove(k).contains(k),
        other != k ==> subs@.insert(k).contains(other) == subs@.contains(other),
        other != k ==> subs@.remove(k).contains(other) == subs@.contains(other),
{
}

/// The command text of a subscription request; without a connection the
/// request fails.
pub fn subscription_frame(connected: bool, subscribe: bool, code: &str, quote_type: SinopacQuoteType) -> (r: Result<String, SinopacWsError>)
    ensures
        !connected ==> r == Err::<String, SinopacWsError>(SinopacWsError::NotConnected),
        connected ==> (r matches Ok(t) && t@ == spec_subscribe_json(
            if subscribe { "subscribe"@ } else { "unsubscribe"@ },
            code@,
            quote_type.spec_name(),
        )),
{
    if !connected {
        return Err(SinopacWsError::NotConnected);
    }
    let msg = WsSubscribeMsg {
        action: if subscribe { String::from_str("subscribe") } else { String::from_str("unsubscribe") },
        contract_code: String::from_str(code),
        quote_type,
    };
    Ok(msg.to_json())
}

} // verus!
