//! The bar types the client has subscribed to, keyed by symbol and timeframe.
//!
//! Live bars from MT5 carry only a symbol and a timeframe name; the registry
//! gives back the full bar type that was named when the bars were subscribed.

use vstd::prelude::*;

use crate::text::str_eq;

verus! {

/// One subscription: a symbol and MT5 timeframe name, and the bar type text.
#[derive(Debug, Clone)]
pub struct BarTypeEntry {
    pub symbol: String,
    pub timeframe: String,
    pub bar_type: String,
}

impl BarTypeEntry {
    pub open spec fn key(self) -> (Seq<char>, Seq<char>) {
        (self.symbol@, self.timeframe@)
    }
}

/// A map from (symbol, timeframe) to bar type text, in which each key occurs
/// at most once.
#[derive(Debug, Clone)]
pub struct BarTypeRegistry {
    entries: Vec<BarTypeEntry>,
}

/// The position of the entry with key `k` in `s`, when there is one.
pub open spec fn has_key(s: Seq<BarTypeEntry>, k: (Seq<char>, Seq<char>)) -> bool {
    exists|i: int| 0 <= i < s.len() && #[trigger] s[i].key() == k
}

pub open spec fn keys_distinct(s: Seq<BarTypeEntry>) -> bool {
    forall|i: int, j: int| 0 <= i < s.len() && 0 <= j < s.len() && i != j ==> s[i].key() != s[j].key()
}

/// The value stored under `k` in `s` (meaningful when `has_key(s, k)`).
pub open spec fn value_at(s: Seq<BarTypeEntry>, k: (Seq<char>, Seq<char>)) -> Seq<char> {
    s[choose|i: int| 0 <= i < s.len() && #[trigger] s[i].key() == k].bar_type@
}

pub open spec fn entries_map(s: Seq<BarTypeEntry>) -> Map<(Seq<char>, Seq<char>), Seq<char>> {
    Map::new(|k: (Seq<char>, Seq<char>)| has_key(s, k), |k: (Seq<char>, Seq<char>)| value_at(s, k))
}

proof fn lemma_value_at_index(s: Seq<BarTypeEntry>, i: int)
    requires
        keys_distinct(s),
        0 <= i < s.len(),
    ensures
        has_key(s, s[i].key()),
        value_at(s, s[i].key()) == s[i].bar_type@,
{
    let k = s[i].key();
    assert(s[i].key() == k);
    let j = choose|j: int| 0 <= j < s.len() && #[trigger] s[j].key() == k;
    assert(j == i);
}

impl View for BarTypeRegistry {
    type V = Map<(Seq<char>, Seq<char>), Seq<char>>;

    closed spec fn view(&self) -> Self::V {
        entries_map(self.entries@)
    }
}

impl BarTypeRegistry {
    /// No (symbol, timeframe) key is stored twice.
    pub closed spec fn wf(self) -> bool {
        keys_distinct(self.entries@)
    }

    /// An empty registry.
    pub fn new() -> (r: BarTypeRegistry)
        ensures
            r.wf(),
            r@ == Map::<(Seq<char>, Seq<char>), Seq<char>>::empty(),
    {
        let r = BarTypeRegistry { entries: Vec::new() };
        assert(r@ =~= Map::<(Seq<char>, Seq<char>), Seq<char>>::empty());
        r
    }

    /// The number of symbol/timeframe pairs with a recorded bar type.
    pub fn len(&self) -> (n: usize)
        requires
            self.wf(),
        ensures
            n == self@.len(),
    {
        proof { self.lemma_len(); }
        self.entries.len()
    }

    proof fn lemma_len(self)
        requires
            self.wf(),
        ensures
            self@.len() == self.entries@.len(),
            self@.dom().finite(),
    {
        let s = self.entries@;
        let keys = Seq::new(s.len(), |i: int| s[i].key());
        assert forall|k| self@.dom().contains(k) <==> keys.contains(k) by {
            if self@.dom().contains(k) {
                let i = choose|i: int| 0 <= i < s.len() && #[trigger] s[i].key() == k;
                assert(keys[i] == k);
            }
            if keys.contains(k) {
                let i = choose|i: int| 0 <= i < keys.len() && keys[i] == k;
                assert(s[i].key() == k);
            }
        }
        assert(self@.dom() =~= keys.to_set());
        assert(keys.no_duplicates());
        keys.unique_seq_to_set();
    }

    fn find(&self, symbol: &str, timeframe: &str) -> (r: Option<usize>)
        requires
            self.wf(),
        ensures
            r matches Some(i) ==> i < self.entries@.len() && self.entries@[i as int].key() == (
                symbol@,
                timeframe@,
            ),
            r is None ==> !has_key(self.entries@, (symbol@, timeframe@)),
    {
        let mut i: usize = 0;
        while i < self.entries.len()
            invariant
                i <= self.entries@.len(),
                forall|j: int| 0 <= j < i ==> #[trigger] self.entries@[j].key() != (symbol@, timeframe@),
            decreases self.entries@.len() - i,
        {
            let e = &self.entries[i];
            if str_eq(e.symbol.as_str(), symbol) && str_eq(e.timeframe.as_str(), timeframe) {
                return Some(i);
            }
            i = i + 1;
        }
        None
    }

    /// Records that `symbol`/`timeframe` bars belong to the bar type
    /// `bar_type`, replacing an earlier record for the same key.
    pub fn insert(&mut self, symbol: &str, timeframe: &str, bar_type: &str)
        requires
            old(self).wf(),
        ensures
            final(self).wf(),
            final(self)@ == old(self)@.insert((symbol@, timeframe@), bar_type@),
    {
        let entry = BarTypeEntry {
            symbol: String::from_str(symbol),
            timeframe: String::from_str(timeframe),
            bar_type: String::from_str(bar_type),
        };
        let ghost k = (symbol@, timeframe@);
        let ghost old_s = self.entries@;
        match self.find(symbol, timeframe) {
            Some(i) => {
                self.entries.set(i, entry);
                let ghost s = self.entries@;
                assert(s == old_s.update(i as int, entry));
                assert forall|a: int, b: int|
                    0 <= a < s.len() && 0 <= b < s.len() && a != b implies s[a].key() != s[b].key() by {
                    assert(old_s[i as int].key() == k);
                }
                assert forall|q| #![auto] self@.dom().contains(q) <==> old_s.len() >= 0 && (
                    entries_map(old_s).insert(k, bar_type@).dom().contains(q)) by {
                    if has_key(s, q) {
                        let j = choose|j: int| 0 <= j < s.len() && #[trigger] s[j].key() == q;
                        if j != i {
                            assert(old_s[j].key() == q);
                        }
                    }
                    if has_key(old_s, q) {
                        let j = choose|j: int| 0 <= j < old_s.len() && #[trigger] old_s[j].key() == q;
                        if j == i {
                            assert(s[i as int].key() == q);
                        } else {
                            assert(s[j].key() == q);
                        }
                    }
                    if q == k {
                        assert(s[i as int].key() == q);
                    }
                }
                assert forall|q| #![auto] self@.dom().contains(q) implies self@[q] == entries_map(
                    old_s,
                ).insert(k, bar_type@)[q] by {
                    let j = choose|j: int| 0 <= j < s.len() && #[trigger] s[j].key() == q;
                    lemma_value_at_index(s, j);
                    if j != i {
                        assert(old_s[j].key() == q);
                        lemma_value_at_index(old_s, j);
                    }
                }
                assert(self@ =~= old(self)@.insert(k, bar_type@));
            },
            None => {
                self.entries.push(entry);
                let ghost s = self.entries@;
                assert(s == old_s.push(entry));
                assert forall|q| #![auto] self@.dom().contains(q) <==> entries_map(old_s).insert(
                    k,
                    bar_type@,
                ).dom().contains(q) by {
                    if has_key(s, q) {
                        let j = choose|j: int| 0 <= j < s.len() && #[trigger] s[j].key() == q;
                        if j < old_s.len() {
                            assert(old_s[j].key() == q);
                        }
                    }
                    if has_key(old_s, q) {
                        let j = choose|j: int| 0 <= j < old_s.len() && #[trigger] old_s[j].key() == q;
                        assert(s[j].key() == q);
                    }
                    if q == k {
                        assert(s[old_s.len() as int].key() == q);
                    }
                }
                assert forall|q| #![auto] self@.dom().contains(q) implies self@[q] == entries_map(
                    old_s,
                ).insert(k, bar_type@)[q] by {
                    let j = choose|j: int| 0 <= j < s.len() && #[trigger] s[j].key() == q;
                    lemma_value_at_index(s, j);
                    if j < old_s.len() {
                        assert(old_s[j].key() == q);
                        lemma_value_at_index(old_s, j);
                    }
                }
                assert(self@ =~= old(self)@.insert(k, bar_type@));
            },
        }
    }

    /// The bar type recorded for `symbol`/`timeframe`, if any.
    pub fn get(&self, symbol: &str, timeframe: &str) -> (r: Option<String>)
        requires
            self.wf(),
        ensures
            r is Some <==> self@.contains_key((symbol@, timeframe@)),
            r matches Some(b) ==> b@ == self@[(symbol@, timeframe@)],
    {
        match self.find(symbol, timeframe) {
            Some(i) => {
                proof { lemma_value_at_index(self.entries@, i as int); }
                Some(self.entries[i].bar_type.clone())
            },
            None => None,
        }
    }
}

/// What a lookup gives back is what the last insert for that key stored;
/// inserts for other keys leave it alone.
pub proof fn lemma_registry_read_after_write(
    m: Map<(Seq<char>, Seq<char>), Seq<char>>,
    k: (Seq<char>, Seq<char>),
    v: Seq<char>,
    other: (Seq<char>, Seq<char>),
)
    ensures
        m.insert(k, v).contains_key(k),
        m.insert(k, v)[k] == v,
        other != k ==> (m.insert(k, v).contains_key(other) == m.contains_key(other)),
        other != k && m.contains_key(other) ==> m.insert(k, v)[other] == m[other],
{
}

} // verus!
