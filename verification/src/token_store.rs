//! The durable mapping from server address to bearer token.
//!
//! The store is a list of address/token pairs with distinct addresses,
//! viewed as a map from address text to token text. Reading it from file
//! content fails soft: any content that is not a JSON object of strings
//! degrades to an empty store. Writing produces JSON text that reads back
//! to the same mapping.

use vstd::prelude::*;
use vstd::string::StringExecFns;
use crate::outside::parse_store_json;
use crate::outside::store_json_of;
use crate::outside::store_map_of;

verus! {

/// Every address appears at most once in the pair list.
pub open spec fn keys_distinct(s: Seq<(String, String)>) -> bool {
    forall|i: int, j: int| 0 <= i < j < s.len() ==> s[i].0@ != s[j].0@
}

/// The mapping a pair list stands for; a later pair overrides an earlier one.
pub open spec fn pairs_map(s: Seq<(String, String)>) -> Map<Seq<char>, Seq<char>>
    decreases s.len(),
{
    if s.len() == 0 {
        Map::empty()
    } else {
        pairs_map(s.drop_last()).insert(s.last().0@, s.last().1@)
    }
}

/// An address that no pair carries is not in the mapping.
pub proof fn lemma_pairs_map_absent(s: Seq<(String, String)>, k: Seq<char>)
    requires
        forall|j: int| 0 <= j < s.len() ==> s[j].0@ != k,
    ensures
        !pairs_map(s).contains_key(k),
    decreases s.len(),
{
    if s.len() > 0 {
        assert forall|j: int| 0 <= j < s.drop_last().len() implies s.drop_last()[j].0@ != k by {
            assert(s.drop_last()[j] == s[j]);
        }
        lemma_pairs_map_absent(s.drop_last(), k);
        assert(s[s.len() - 1].0@ != k);
    }
}

/// The mapping holds an address exactly when some pair carries it.
pub proof fn lemma_pairs_map_contains(s: Seq<(String, String)>, k: Seq<char>)
    ensures
        pairs_map(s).contains_key(k) <==> exists|i: int| 0 <= i < s.len() && s[i].0@ == k,
    decreases s.len(),
{
    if s.len() > 0 {
        lemma_pairs_map_contains(s.drop_last(), k);
        if s.last().0@ == k {
            assert(s[s.len() - 1].0@ == k);
        } else {
            if exists|i: int| 0 <= i < s.len() && s[i].0@ == k {
                let i = choose|i: int| 0 <= i < s.len() && s[i].0@ == k;
                assert(i < s.len() - 1);
                assert(s.drop_last()[i] == s[i]);
            }
            if exists|i: int| 0 <= i < s.drop_last().len() && s.drop_last()[i].0@ == k {
                let i = choose|i: int| 0 <= i < s.drop_last().len() && s.drop_last()[i].0@ == k;
                assert(s.drop_last()[i] == s[i]);
            }
        }
    }
}

/// With distinct addresses, the mapping sends each carried address to the
/// token of its pair.
pub proof fn lemma_pairs_map_index(s: Seq<(String, String)>, i: int)
    requires
        keys_distinct(s),
        0 <= i < s.len(),
    ensures
        pairs_map(s).contains_key(s[i].0@),
        pairs_map(s)[s[i].0@] == s[i].1@,
    decreases s.len(),
{
    if i < s.len() - 1 {
        assert forall|a: int, b: int|
            0 <= a < b < s.drop_last().len() implies s.drop_last()[a].0@ != s.drop_last()[b].0@ by {
            assert(s.drop_last()[a] == s[a]);
            assert(s.drop_last()[b] == s[b]);
        }
        lemma_pairs_map_index(s.drop_last(), i);
        assert(s.drop_last()[i] == s[i]);
        assert(s[s.len() - 1].0@ != s[i].0@);
    }
}

/// Appending a pair is inserting it into the mapping.
pub proof fn lemma_pairs_map_push(s: Seq<(String, String)>, p: (String, String))
    ensures
        pairs_map(s.push(p)) == pairs_map(s).insert(p.0@, p.1@),
{
    assert(s.push(p).drop_last() =~= s);
    assert(s.push(p).last() == p);
}

/// With distinct addresses, dropping the pair at `i` removes exactly its
/// address from the mapping.
pub proof fn lemma_pairs_map_remove_at(s: Seq<(String, String)>, i: int)
    requires
        keys_distinct(s),
        0 <= i < s.len(),
    ensures
        pairs_map(s.remove(i)) == pairs_map(s).remove(s[i].0@),
    decreases s.len(),
{
    let k = s[i].0@;
    s.remove_ensures(i);
    if i == s.len() - 1 {
        assert(s.remove(i) =~= s.drop_last());
        assert forall|j: int| 0 <= j < s.drop_last().len() implies s.drop_last()[j].0@ != k by {
            assert(s.drop_last()[j] == s[j]);
        }
        lemma_pairs_map_absent(s.drop_last(), k);
        assert(pairs_map(s).remove(k) =~= pairs_map(s.drop_last()));
    } else {
        let t = s.remove(i);
        s.drop_last().remove_ensures(i);
        assert(t.len() == s.len() - 1);
        assert(t[t.len() - 1] == s[s.len() - 1]);
        assert(t.last() == s.last());
        assert(t.drop_last() =~= s.drop_last().remove(i));
        assert forall|a: int, b: int|
            0 <= a < b < s.drop_last().len() implies s.drop_last()[a].0@ != s.drop_last()[b].0@ by {
            assert(s.drop_last()[a] == s[a]);
            assert(s.drop_last()[b] == s[b]);
        }
        lemma_pairs_map_remove_at(s.drop_last(), i);
        assert(s.drop_last()[i] == s[i]);
        assert(s[s.len() - 1].0@ != k);
        assert(pairs_map(s.drop_last()).insert(s.last().0@, s.last().1@).remove(k)
            =~= pairs_map(s.drop_last()).remove(k).insert(s.last().0@, s.last().1@));
        assert(pairs_map(t) == pairs_map(t.drop_last()).insert(t.last().0@, t.last().1@));
    }
}

/// The durable mapping from server address to bearer token.
pub struct TokenStore {
    entries: Vec<(String, String)>,
}

impl View for TokenStore {
    type V = Map<Seq<char>, Seq<char>>;

    closed spec fn view(&self) -> Map<Seq<char>, Seq<char>> {
        pairs_map(self.entries@)
    }
}

impl TokenStore {
    /// Each server address holds at most one token.
    pub closed spec fn wf(self) -> bool {
        keys_distinct(self.entries@)
    }

    /// An empty store.
    pub fn new() -> (r: TokenStore)
        ensures
            r.wf(),
            r@ == Map::<Seq<char>, Seq<char>>::empty(),
    {
        TokenStore { entries: Vec::new() }
    }

    /// Read a store from file content. Fails soft: a missing file or content
    /// that is not a JSON object of strings yields an empty store.
    pub fn from_content(content: Option<&str>) -> (r: TokenStore)
        ensures
            r.wf(),
            r@ == match content {
                Some(s) => match store_map_of(s@) {
                    Some(m) => m,
                    None => Map::<Seq<char>, Seq<char>>::empty(),
                },
                None => Map::<Seq<char>, Seq<char>>::empty(),
            },
    {
        match content {
            None => TokenStore::new(),
            Some(s) => match parse_store_json(s) {
                Some(entries) => TokenStore { entries },
                None => TokenStore::new(),
            },
        }
    }

    /// The serialized store: JSON text that reads back to the same mapping.
    pub fn to_content(&self) -> (r: String)
        requires
            self.wf(),
        ensures
            store_map_of(r@) == Some(self@),
    {
        store_json_of(&self.entries)
    }

    fn find_index(&self, addr: &str) -> (r: Option<usize>)
        ensures
            match r {
                Some(i) => i < self.entries@.len() && self.entries@[i as int].0@ == addr@,
                None => forall|j: int| 0 <= j < self.entries@.len() ==> self.entries@[j].0@ != addr@,
            },
    {
        let key = String::from_str(addr);
        let n = self.entries.len();
        let mut i: usize = 0;
        while i < n
            invariant
                n == self.entries@.len(),
                i <= n,
                key@ == addr@,
                forall|j: int| 0 <= j < i ==> self.entries@[j].0@ != addr@,
            decreases n - i,
        {
            if self.entries[i].0 == key {
                return Some(i);
            }
            i += 1;
        }
        None
    }

    /// Pure lookup of the token stored for a server address.
    pub fn get(&self, addr: &str) -> (r: Option<&String>)
        requires
            self.wf(),
        ensures
            match r {
                Some(t) => self@.contains_key(addr@) && self@[addr@] == t@,
                None => !self@.contains_key(addr@),
            },
    {
        match self.find_index(addr) {
            Some(i) => {
                proof {
                    lemma_pairs_map_index(self.entries@, i as int);
                }
                Some(&self.entries[i].1)
            },
            None => {
                proof {
                    lemma_pairs_map_contains(self.entries@, addr@);
                }
                None
            },
        }
    }

    /// Whether a token is stored for a server address.
    pub fn contains(&self, addr: &str) -> (r: bool)
        requires
            self.wf(),
        ensures
            r == self@.contains_key(addr@),
    {
        proof {
            lemma_pairs_map_contains(self.entries@, addr@);
        }
        match self.find_index(addr) {
            Some(i) => {
                proof {
                    lemma_pairs_map_index(self.entries@, i as int);
                }
                true
            },
            None => false,
        }
    }

    /// Look a token up and take it out of the store in one step: a token
    /// read this way is about to be validated against the server, and is
    /// written back only once a command succeeds with it.
    pub fn take(&mut self, addr: &str) -> (r: Option<String>)
        requires
            old(self).wf(),
        ensures
            final(self).wf(),
            match r {
                Some(t) => old(self)@.contains_key(addr@) && t@ == old(self)@[addr@]
                    && final(self)@ == old(self)@.remove(addr@),
                None => !old(self)@.contains_key(addr@) && final(self)@ == old(self)@,
            },
    {
        match self.find_index(addr) {
            Some(i) => {
                proof {
                    lemma_pairs_map_index(self.entries@, i as int);
                    lemma_pairs_map_remove_at(self.entries@, i as int);
                    self.entries@.remove_ensures(i as int);
                    assert forall|a: int, b: int|
                        0 <= a < b < self.entries@.remove(i as int).len() implies
                        self.entries@.remove(i as int)[a].0@
                            != self.entries@.remove(i as int)[b].0@ by {
                        let s = self.entries@;
                        if b < i {
                            assert(s.remove(i as int)[a] == s[a]);
                            assert(s.remove(i as int)[b] == s[b]);
                        } else if a < i && i <= b {
                            assert(s.remove(i as int)[a] == s[a]);
                            assert(s.remove(i as int)[b] == s[b + 1]);
                        } else {
                            assert(s.remove(i as int)[a] == s[a + 1]);
                            assert(s.remove(i as int)[b] == s[b + 1]);
                        }
                    }
                    assert(keys_distinct(self.entries@.remove(i as int)));
                }
                let p = self.entries.remove(i);
                Some(p.1)
            },
            None => {
                proof {
                    lemma_pairs_map_contains(self.entries@, addr@);
                }
                None
            },
        }
    }

    /// Remove the entry of one server address, if any.
    pub fn remove(&mut self, addr: &str)
        requires
            old(self).wf(),
        ensures
            final(self).wf(),
            final(self)@ == old(self)@.remove(addr@),
    {
        let taken = self.take(addr);
        proof {
            if taken is None {
                assert(final(self)@ =~= old(self)@.remove(addr@));
            }
        }
    }

    /// Store the token issued for a server address, replacing any older one.
    pub fn insert(&mut self, addr: &str, token: String)
        requires
            old(self).wf(),
        ensures
            final(self).wf(),
            final(self)@ == old(self)@.insert(addr@, token@),
    {
        self.remove(addr);
        let key = String::from_str(addr);
        let ghost mid = self.entries@;
        let ghost tok = token@;
        self.entries.push((key, token));
        proof {
            lemma_pairs_map_contains(mid, addr@);
            assert(!pairs_map(mid).contains_key(addr@));
            assert(self.entries@.drop_last() =~= mid);
            assert(self.entries@.last().0@ == addr@);
            assert(self.entries@.last().1@ == tok);
            assert(pairs_map(self.entries@) == pairs_map(mid).insert(addr@, tok));
            assert(pairs_map(mid) == old(self)@.remove(addr@));
            assert(old(self)@.remove(addr@).insert(addr@, tok) =~= old(self)@.insert(addr@, tok));
            assert forall|a: int, b: int|
                0 <= a < b < self.entries@.len() implies
                self.entries@[a].0@ != self.entries@[b].0@ by {
                assert(self.entries@[a] == mid[a]);
                if b == self.entries@.len() - 1 {
                    if mid[a].0@ == addr@ {
                        assert(exists|w: int| 0 <= w < mid.len() && mid[w].0@ == addr@);
                        assert(false);
                    }
                } else {
                    assert(self.entries@[b] == mid[b]);
                }
            }
            assert(keys_distinct(self.entries@));
        }
    }
}

/// The store file's place under a home directory: a fixed, user-private
/// path in the configuration directory.
pub fn token_store_file(home: &str) -> (r: String)
    ensures
        r@ == home@ + "/.config/ytmdctrl.tkn"@,
{
    String::from_str(home).concat("/.config/ytmdctrl.tkn")
}

/// After a successful pairing stores the token issued for a server, lookup
/// returns exactly that token; after the entry is evicted, lookup returns
/// nothing.
pub proof fn lemma_store_then_lookup(m: Map<Seq<char>, Seq<char>>, a: Seq<char>, t: Seq<char>)
    ensures
        m.insert(a, t).contains_key(a),
        m.insert(a, t)[a] == t,
        !m.remove(a).contains_key(a),
{
}

/// Evicting one server's entry leaves every other server's entry untouched.
pub proof fn lemma_evict_exact(m: Map<Seq<char>, Seq<char>>, a: Seq<char>, k: Seq<char>)
    requires
        k != a,
    ensures
        m.remove(a).contains_key(k) == m.contains_key(k),
        m.contains_key(k) ==> m.remove(a)[k] == m[k],
{
}

} // verus!
