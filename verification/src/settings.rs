//! Typed settings store.
//!
//! Settings are a mapping from string keys to tagged values. The host reads
//! and writes the store; sandboxed code may only read it. The store is an
//! association list with pairwise-distinct keys, modelled as a `Map` from the
//! key's characters to the value's mathematical view.

use vstd::prelude::*;

verus! {

/// A numeric setting value.
///
/// A 64-bit floating-point setting is carried by its IEEE-754 bit pattern,
/// so the store itself involves no floating-point arithmetic; the embedding
/// application converts at the boundary.
#[derive(Debug, Clone, Copy, PartialEq, Eq, Structural)]
pub enum Number {
    S64(i64),
    U64(u64),
    F64(u64),
}

/// A tagged setting value: boolean, number, string, string array, or
/// string-to-string map.
#[derive(Debug, PartialEq)]
pub enum Value {
    Bool(bool),
    Number(Number),
    String(String),
    Array(Vec<String>),
    StringMap(Vec<(String, String)>),
}

/// The mathematical view of a `Value`: strings become character sequences.
pub enum ValueView {
    Bool(bool),
    Number(Number),
    String(Seq<char>),
    Array(Seq<Seq<char>>),
    StringMap(Seq<(Seq<char>, Seq<char>)>),
}

impl View for Value {
    type V = ValueView;

    open spec fn view(&self) -> ValueView {
        match self {
            Value::Bool(b) => ValueView::Bool(*b),
            Value::Number(n) => ValueView::Number(*n),
            Value::String(s) => ValueView::String(s@),
            Value::Array(a) => ValueView::Array(a.deep_view()),
            Value::StringMap(m) => ValueView::StringMap(m.deep_view()),
        }
    }
}

impl Clone for Value {
    /// Cloning preserves the value's view.
    fn clone(&self) -> (r: Self)
        ensures
            r@ == self@,
    {
        match self {
            Value::Bool(b) => Value::Bool(*b),
            Value::Number(n) => Value::Number(*n),
            Value::String(s) => Value::String(s.clone()),
            Value::Array(a) => {
                let mut out: Vec<String> = Vec::new();
                let mut i: usize = 0;
                while i < a.len()
                    invariant
                        i <= a.len(),
                        out@.len() == i,
                        forall|j: int| 0 <= j < i ==> #[trigger] out@[j]@ == a@[j]@,
                    decreases a.len() - i,
                {
                    out.push(a[i].clone());
                    i = i + 1;
                }
                proof {
                    assert(out.deep_view() =~= a.deep_view());
                }
                Value::Array(out)
            },
            Value::StringMap(m) => {
                let mut out: Vec<(String, String)> = Vec::new();
                let mut i: usize = 0;
                while i < m.len()
                    invariant
                        i <= m.len(),
                        out@.len() == i,
                        forall|j: int|
                            0 <= j < i ==> #[trigger] out@[j].0@ == m@[j].0@ && out@[j].1@
                                == m@[j].1@,
                    decreases m.len() - i,
                {
                    let pair = &m[i];
                    out.push((pair.0.clone(), pair.1.clone()));
                    i = i + 1;
                }
                proof {
                    assert(out.deep_view() =~= m.deep_view());
                }
                Value::StringMap(out)
            },
        }
    }
}

/// The map denoted by an association list; a later entry for the same key
/// shadows an earlier one.
pub open spec fn entries_map(s: Seq<(String, Value)>) -> Map<Seq<char>, ValueView>
    decreases s.len(),
{
    if s.len() == 0 {
        Map::empty()
    } else {
        entries_map(s.drop_last()).insert(s.last().0@, s.last().1@)
    }
}

/// Pairwise-distinct keys.
pub open spec fn distinct_keys(s: Seq<(String, Value)>) -> bool {
    forall|i: int, j: int|
        #![trigger s[i].0@, s[j].0@]
        0 <= i < j < s.len() ==> s[i].0@ != s[j].0@
}

/// With distinct keys, the association list denotes exactly the map of its
/// entries: a key is present iff some entry holds it, and it maps to that
/// entry's value.
pub proof fn lemma_entries_map_characterizes(s: Seq<(String, Value)>)
    requires
        distinct_keys(s),
    ensures
        forall|k: Seq<char>|
            #[trigger] entries_map(s).contains_key(k) <==> exists|i: int|
                0 <= i < s.len() && #[trigger] s[i].0@ == k,
        forall|i: int|
            0 <= i < s.len() ==> entries_map(s).contains_key(#[trigger] s[i].0@) && entries_map(s)[s[i].0@]
                == s[i].1@,
    decreases s.len(),
{
    if s.len() > 0 {
        let rest = s.drop_last();
        assert(forall|i: int| 0 <= i < rest.len() ==> #[trigger] rest[i] == s[i]);
        assert(distinct_keys(rest));
        lemma_entries_map_characterizes(rest);
        assert forall|i: int| 0 <= i < s.len() implies entries_map(s).contains_key(
            #[trigger] s[i].0@,
        ) && entries_map(s)[s[i].0@] == s[i].1@ by {
            if i < s.len() - 1 {
                assert(entries_map(rest).contains_key(rest[i].0@));
                assert(entries_map(rest)[rest[i].0@] == rest[i].1@);
                assert(s[i].0@ != s.last().0@);
            }
        }
        assert forall|k: Seq<char>|
            #[trigger] entries_map(s).contains_key(k) <==> exists|i: int|
                0 <= i < s.len() && #[trigger] s[i].0@ == k by {
            if entries_map(s).contains_key(k) {
                if k == s.last().0@ {
                    assert(s[s.len() - 1].0@ == k);
                } else {
                    assert(entries_map(rest).contains_key(k));
                    let i = choose|i: int| 0 <= i < rest.len() && #[trigger] rest[i].0@ == k;
                    assert(s[i].0@ == k);
                }
            }
            if exists|i: int| 0 <= i < s.len() && #[trigger] s[i].0@ == k {
                let i = choose|i: int| 0 <= i < s.len() && #[trigger] s[i].0@ == k;
                assert(entries_map(s).contains_key(s[i].0@));
            }
        }
    }
}

/// A store of typed settings keyed by string, readable by sandboxed code and
/// writable by the host.
pub struct Settings {
    entries: Vec<(String, Value)>,
}

impl View for Settings {
    type V = Map<Seq<char>, ValueView>;

    closed spec fn view(&self) -> Map<Seq<char>, ValueView> {
        entries_map(self.entries@)
    }
}

impl Settings {
    /// Well-formedness: no key is stored twice.
    pub closed spec fn wf(self) -> bool {
        distinct_keys(self.entries@)
    }

    /// Create an empty store.
    pub fn new() -> (store: Self)
        ensures
            store.wf(),
            store@ == Map::<Seq<char>, ValueView>::empty(),
    {
        Settings { entries: Vec::new() }
    }

    /// Look up a key; `None` exactly when the key is absent.
    #[verifier::loop_isolation(false)]
    pub fn get(&self, key: &String) -> (r: Option<&Value>)
        requires
            self.wf(),
        ensures
            match r {
                Some(value) => self@.contains_key(key@) && value@ == self@[key@],
                None => !self@.contains_key(key@),
            },
    {
        proof {
            lemma_entries_map_characterizes(self.entries@);
        }
        let n = self.entries.len();
        let mut i: usize = 0;
        while i < n
            invariant
                i <= n,
                forall|j: int| 0 <= j < i ==> #[trigger] self.entries@[j].0@ != key@,
            decreases n - i,
        {
            let entry = &self.entries[i];
            if entry.0 == *key {
                proof {
                    assert(self.entries@[i as int].0@ == key@);
                }
                return Some(&entry.1);
            }
            i = i + 1;
        }
        None
    }

    /// Insert a value for a key, overwriting any prior value for it.
    #[verifier::loop_isolation(false)]
    pub fn insert(&mut self, key: String, value: Value)
        requires
            old(self).wf(),
        ensures
            final(self).wf(),
            final(self)@ == old(self)@.insert(key@, value@),
    {
        proof {
            lemma_entries_map_characterizes(self.entries@);
        }
        let ghost pre = self.entries@;
        let n = self.entries.len();
        let mut i: usize = 0;
        while i < n
            invariant
                self.entries@ == pre,
                i <= n,
                forall|j: int| 0 <= j < i ==> #[trigger] self.entries@[j].0@ != key@,
            decreases n - i,
        {
            let hit = self.entries[i].0 == key;
            if hit {
                proof {
                    assert(pre[i as int].0@ == key@);
                }
                self.entries.remove(i);
                proof {
                    lemma_entries_map_remove(pre, i as int);
                    assert forall|a: int, b: int|
                        #![trigger self.entries@[a].0@, self.entries@[b].0@]
                        0 <= a < b < self.entries@.len() implies self.entries@[a].0@
                        != self.entries@[b].0@ by {
                        let map_a = if a < i { a } else { a + 1 };
                        let map_b = if b < i { b } else { b + 1 };
                        assert(pre[map_a].0@ != pre[map_b].0@);
                    }
                    assert forall|j: int| 0 <= j < self.entries@.len() implies #[trigger] self.entries@[j].0@
                        != key@ by {
                        let map_j = if j < i { j } else { j + 1 };
                        assert(self.entries@[j] == pre[map_j]);
                        if map_j != i {
                            assert(pre[map_j].0@ != pre[i as int].0@);
                        }
                    }
                    lemma_distinct_push(self.entries@, (key, value));
                    assert(entries_map(pre).remove(pre[i as int].0@).insert(key@, value@)
                        =~= entries_map(pre).insert(key@, value@));
                }
                let ghost mid = self.entries@;
                self.entries.push((key, value));
                proof {
                    assert(self.entries@.drop_last() =~= mid);
                    assert(mid.push((key, value)).drop_last() =~= mid);
                }
                return ;
            }
            i = i + 1;
        }
        proof {
            lemma_distinct_push(self.entries@, (key, value));
        }
        let ghost mid = self.entries@;
        self.entries.push((key, value));
        proof {
            assert(mid.push((key, value)).drop_last() =~= mid);
        }
    }

    /// Whether the store holds no settings.
    pub fn is_empty(&self) -> (r: bool)
        requires
            self.wf(),
        ensures
            r == (self@ == Map::<Seq<char>, ValueView>::empty()),
    {
        proof {
            lemma_entries_map_characterizes(self.entries@);
            if self.entries@.len() == 0 {
                assert(self@ =~= Map::<Seq<char>, ValueView>::empty());
            } else {
                assert(self@.contains_key(self.entries@[0].0@));
            }
        }
        self.entries.is_empty()
    }
}

/// Appending an entry for a fresh key preserves key distinctness.
proof fn lemma_distinct_push(s: Seq<(String, Value)>, p: (String, Value))
    requires
        distinct_keys(s),
        forall|j: int| 0 <= j < s.len() ==> #[trigger] s[j].0@ != p.0@,
    ensures
        distinct_keys(s.push(p)),
{
    let t = s.push(p);
    assert forall|i: int, j: int|
        #![trigger t[i].0@, t[j].0@]
        0 <= i < j < t.len() implies t[i].0@ != t[j].0@ by {
        if j < s.len() {
            assert(s[i].0@ != s[j].0@);
        } else {
            assert(s[i].0@ != p.0@);
        }
    }
}

/// Removing an entry removes exactly its key from the denoted map, when keys
/// are distinct.
proof fn lemma_entries_map_remove(s: Seq<(String, Value)>, i: int)
    requires
        distinct_keys(s),
        0 <= i < s.len(),
    ensures
        entries_map(s.remove(i)) == entries_map(s).remove(s[i].0@),
    decreases s.len(),
{
    lemma_entries_map_characterizes(s);
    let r = s.remove(i);
    assert(distinct_keys(r)) by {
        assert forall|a: int, b: int|
            #![trigger r[a].0@, r[b].0@]
            0 <= a < b < r.len() implies r[a].0@ != r[b].0@ by {
            let map_a = if a < i { a } else { a + 1 };
            let map_b = if b < i { b } else { b + 1 };
            assert(s[map_a].0@ != s[map_b].0@);
        }
    }
    lemma_entries_map_characterizes(r);
    assert forall|k: Seq<char>| true implies #[trigger] entries_map(r).contains_key(k)
        == entries_map(s).remove(s[i].0@).contains_key(k) by {
        if entries_map(r).contains_key(k) {
            let a = choose|a: int| 0 <= a < r.len() && #[trigger] r[a].0@ == k;
            let map_a = if a < i { a } else { a + 1 };
            assert(s[map_a].0@ == k);
            assert(k != s[i].0@);
        }
        if entries_map(s).remove(s[i].0@).contains_key(k) {
            let a = choose|a: int| 0 <= a < s.len() && #[trigger] s[a].0@ == k;
            let back_a = if a < i { a } else { a - 1 };
            assert(r[back_a].0@ == k);
        }
    }
    assert forall|k: Seq<char>| entries_map(r).contains_key(k) implies entries_map(r)[k]
        == entries_map(s).remove(s[i].0@)[k] by {
        let a = choose|a: int| 0 <= a < r.len() && #[trigger] r[a].0@ == k;
        let map_a = if a < i { a } else { a + 1 };
        assert(s[map_a].0@ == k);
        assert(entries_map(r)[k] == r[a].1@);
        assert(entries_map(s)[k] == s[map_a].1@);
    }
    assert(entries_map(r) =~= entries_map(s).remove(s[i].0@));
}

} // verus!
