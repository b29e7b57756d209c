//! The set of favourite stations, keyed by normalised stream URL.

use vstd::prelude::*;
use crate::radio::normalized_url;
use crate::text::{str_chars, str_trim, string_from_chars, string_from_str, trim};

verus! {

/// Favourite station URLs, each held once in normalised form.
#[derive(Debug)]
pub struct FavoritesSet {
    urls: Vec<String>,
}

/// The key under which a URL is stored: none for a blank URL.
pub open spec fn favorite_key(url: Seq<char>) -> Option<Seq<char>> {
    if trim(url).len() == 0 {
        None
    } else {
        Some(normalized_url(url))
    }
}

impl View for FavoritesSet {
    type V = Set<Seq<char>>;

    closed spec fn view(&self) -> Set<Seq<char>> {
        self.keys().to_set()
    }
}

impl FavoritesSet {
    closed spec fn keys(&self) -> Seq<Seq<char>> {
        self.urls@.map_values(|s: String| s@)
    }

    #[verifier::type_invariant]
    closed spec fn inv(&self) -> bool {
        self.keys().no_duplicates()
    }

    /// An empty set.
    pub fn new() -> (s: Self)
        ensures
            s@ == Set::<Seq<char>>::empty(),
    {
        let s = FavoritesSet { urls: Vec::new() };
        assert(s.keys() =~= Seq::<Seq<char>>::empty());
        assert(s@ =~= Set::<Seq<char>>::empty());
        s
    }

    /// Index of the stored key equal to `key`, if any.
    fn position(&self, key: &[char]) -> (r: Option<usize>)
        ensures
            match r {
                Some(i) => i < self.keys().len() && self.keys()[i as int] == key@,
                None => !self.keys().contains(key@),
            },
    {
        find_key(&self.urls, key)
    }

    /// The stored keys, each once.
    pub fn stored_urls(&self) -> (v: Vec<String>)
        ensures
            v@.map_values(|s: String| s@).to_set() == self@,
            v@.map_values(|s: String| s@).no_duplicates(),
    {
        proof {
            use_type_invariant(self);
        }
        let mut out: Vec<String> = Vec::new();
        let mut i: usize = 0;
        while i < self.urls.len()
            invariant
                i <= self.urls.len(),
                out@.len() == i,
                forall|k: int| 0 <= k < i ==> #[trigger] out@[k]@ == self.urls@[k]@,
            decreases self.urls.len() - i,
        {
            let copy = string_from_str(self.urls[i].as_str());
            out.push(copy);
            i += 1;
        }
        assert(out@.map_values(|s: String| s@) =~= self.keys());
        out
    }

    /// The set of exactly the given stored keys, each kept once, as a saved
    /// library holds them.
    pub fn from_stored(urls: Vec<String>) -> (s: Self)
        ensures
            s@ == urls@.map_values(|u: String| u@).to_set(),
            s@.finite(),
    {
        let ghost given = urls@.map_values(|u: String| u@);
        let mut kept: Vec<String> = Vec::new();
        let mut i: usize = 0;
        while i < urls.len()
            invariant
                i <= urls.len(),
                given == urls@.map_values(|u: String| u@),
                kept@.map_values(|s: String| s@).no_duplicates(),
                kept@.map_values(|s: String| s@).to_set() == given.take(i as int).to_set(),
            decreases urls.len() - i,
        {
            let key = str_chars(urls[i].as_str());
            let ghost before = kept@.map_values(|s: String| s@);
            assert(given.take(i + 1) =~= given.take(i as int).push(given[i as int]));
            match find_key(&kept, key.as_slice()) {
                Some(j) => {
                    assert(before[j as int] == given[i as int]);
                    assert(before.to_set().contains(given[i as int]));
                    proof { given.take(i as int).lemma_push_to_set_commute(given[i as int]); }
                    assert(given.take(i + 1).to_set() =~= given.take(i as int).to_set().insert(given[i as int]));
                },
                None => {
                    kept.push(string_from_chars(key.as_slice()));
                    let ghost after = kept@.map_values(|s: String| s@);
                    assert(after =~= before.push(given[i as int]));
                    assert forall|a: int, b: int| 0 <= a < b < after.len() implies after[a] != after[b] by {
                        if b == before.len() {
                            assert(before.contains(before[a]));
                        }
                    }
                    assert(after.to_set() =~= before.to_set().insert(given[i as int])) by {
                        assert forall|x: Seq<char>| after.to_set().contains(x) <==> before.to_set().insert(given[i as int]).contains(x) by {
                            if after.contains(x) {
                                let q = choose|q: int| 0 <= q < after.len() && after[q] == x;
                                if q < before.len() {
                                    assert(before[q] == x);
                                }
                            }
                            if before.contains(x) {
                                let q = choose|q: int| 0 <= q < before.len() && before[q] == x;
                                assert(after[q] == x);
                            }
                            if x == given[i as int] {
                                assert(after[before.len() as int] == x);
                            }
                        }
                    }
                    proof { given.take(i as int).lemma_push_to_set_commute(given[i as int]); }
                },
            }
            i += 1;
        }
        assert(given.take(urls.len() as int) =~= given);
        let s = FavoritesSet { urls: kept };
        proof {
            vstd::seq_lib::seq_to_set_is_finite(given);
        }
        s
    }

    /// Flips the favourite status of `url`; true when it is now a favourite.
    /// A blank URL is refused with `false` and no change.
    pub fn toggle(&mut self, url: &str) -> (now_favorite: bool)
        ensures
            match favorite_key(url@) {
                None => !now_favorite && final(self)@ == old(self)@,
                Some(k) => if old(self)@.contains(k) {
                    !now_favorite && final(self)@ == old(self)@.remove(k)
                } else {
                    now_favorite && final(self)@ == old(self)@.insert(k)
                },
            },
            final(self)@.finite(),
            final(self)@.len() == match favorite_key(url@) {
                None => old(self)@.len() as int,
                Some(_) => if now_favorite {
                    old(self)@.len() + 1int
                } else {
                    old(self)@.len() - 1
                },
            },
    {
        proof {
            use_type_invariant(&*self);
            vstd::seq_lib::seq_to_set_is_finite(self.keys());
            self.keys().unique_seq_to_set();
        }
        let key = match Self::normalize(url) {
            Some(k) => k,
            None => return false,
        };
        let ghost before = self.keys();
        match self.position(key.as_slice()) {
            Some(i) => {
                let mut urls: Vec<String> = Vec::new();
                std::mem::swap(&mut urls, &mut self.urls);
                urls.remove(i);
                let ghost after = urls@.map_values(|s: String| s@);
                proof {
                    assert(after =~= before.remove(i as int));
                    before.lemma_no_duplicates_injective(|x: Seq<char>| x);
                    assert forall|a: int, b: int| 0 <= a < b < after.len() implies after[a] != after[b] by {
                        let ia = if a < i { a } else { a + 1 };
                        let ib = if b < i { b } else { b + 1 };
                        assert(after[a] == before[ia] && after[b] == before[ib]);
                    }
                    assert(after.to_set() =~= before.to_set().remove(key@)) by {
                        assert forall|x: Seq<char>| after.to_set().contains(x) <==> before.to_set().remove(key@).contains(x) by {
                            if after.contains(x) {
                                let q = choose|q: int| 0 <= q < after.len() && after[q] == x;
                                let iq = if q < i { q } else { q + 1 };
                                assert(before[iq] == x);
                                assert(iq != i);
                            }
                            if before.contains(x) && x != key@ {
                                let q = choose|q: int| 0 <= q < before.len() && before[q] == x;
                                assert(q != i);
                                let aq = if q < i { q } else { q - 1 };
                                assert(after[aq] == x);
                            }
                        }
                    }
                    after.unique_seq_to_set();
                    vstd::seq_lib::seq_to_set_is_finite(after);
                }
                self.urls = urls;
                false
            },
            None => {
                let mut urls: Vec<String> = Vec::new();
                std::mem::swap(&mut urls, &mut self.urls);
                urls.push(string_from_chars(key.as_slice()));
                let ghost after = urls@.map_values(|s: String| s@);
                proof {
                    assert(after =~= before.push(key@));
                    assert forall|a: int, b: int| 0 <= a < b < after.len() implies after[a] != after[b] by {
                        if b == before.len() {
                            assert(before.contains(before[a]));
                        }
                    }
                    assert(after.to_set() =~= before.to_set().insert(key@)) by {
                        assert forall|x: Seq<char>| after.to_set().contains(x) <==> before.to_set().insert(key@).contains(x) by {
                            if after.contains(x) {
                                let q = choose|q: int| 0 <= q < after.len() && after[q] == x;
                                if q < before.len() {
                                    assert(before[q] == x);
                                }
                            }
                            if before.contains(x) {
                                let q = choose|q: int| 0 <= q < before.len() && before[q] == x;
                                assert(after[q] == x);
                            }
                            if x == key@ {
                                assert(after[before.len() as int] == x);
                            }
                        }
                    }
                    after.unique_seq_to_set();
                    vstd::seq_lib::seq_to_set_is_finite(after);
                }
                self.urls = urls;
                true
            },
        }
    }

    /// Whether `url` is a favourite; a blank URL never is.
    pub fn contains(&self, url: &str) -> (b: bool)
        ensures
            b == match favorite_key(url@) {
                Some(k) => self@.contains(k),
                None => false,
            },
    {
        let key = match Self::normalize(url) {
            Some(k) => k,
            None => return false,
        };
        match self.position(key.as_slice()) {
            Some(i) => {
                assert(self.keys().contains(key@)) by {
                    assert(self.keys()[i as int] == key@);
                }
                true
            },
            None => false,
        }
    }

    /// The number of favourites.
    pub fn len(&self) -> (n: usize)
        ensures
            self@.finite(),
            n == self@.len(),
    {
        proof {
            use_type_invariant(self);
            vstd::seq_lib::seq_to_set_is_finite(self.keys());
            self.keys().unique_seq_to_set();
        }
        self.urls.len()
    }

    pub fn is_empty(&self) -> (b: bool)
        ensures
            b == (self@.len() == 0),
    {
        self.len() == 0
    }

    /// The key of `url`, or none for a blank URL.
    fn normalize(url: &str) -> (r: Option<Vec<char>>)
        ensures
            match favorite_key(url@) {
                Some(k) => r matches Some(v) && v@ == k,
                None => r is None,
            },
    {
        let t = str_trim(url);
        if t.len() == 0 {
            return None;
        }
        let n = crate::radio::normalized_station_url(url);
        Some(str_chars(n.as_str()))
    }
}

impl Clone for FavoritesSet {
    fn clone(&self) -> (r: Self)
        ensures
            r@ == self@,
    {
        proof {
            use_type_invariant(self);
        }
        let urls = crate::radio::strings_clone(&self.urls);
        let r = FavoritesSet { urls };
        assert(r.keys() == self.keys());
        r
    }
}

impl Default for FavoritesSet {
    fn default() -> (s: Self)
        ensures
            s@ == Set::<Seq<char>>::empty(),
    {
        FavoritesSet::new()
    }
}

/// Toggling the same URL twice leaves the favourites as they were.
pub proof fn lemma_toggle_twice_restores(before: Set<Seq<char>>, k: Seq<char>)
    ensures
        before.contains(k) ==> before.remove(k).insert(k) == before,
        !before.contains(k) ==> before.insert(k).remove(k) == before,
{
    if before.contains(k) {
        assert(before.remove(k).insert(k) =~= before);
    } else {
        assert(before.insert(k).remove(k) =~= before);
    }
}

/// Index of the key equal to `key` among `urls`, if any.
fn find_key(urls: &Vec<String>, key: &[char]) -> (r: Option<usize>)
    ensures
        match r {
            Some(i) => i < urls@.len() && urls@[i as int]@ == key@,
            None => !urls@.map_values(|s: String| s@).contains(key@),
        },
{
    let mut i: usize = 0;
    while i < urls.len()
        invariant
            i <= urls.len(),
            forall|j: int| 0 <= j < i ==> urls@[j]@ != key@,
        decreases urls.len() - i,
    {
        let stored = str_chars(urls[i].as_str());
        if crate::text::chars_eq(stored.as_slice(), key) {
            return Some(i);
        }
        i += 1;
    }
    proof {
        let keys = urls@.map_values(|s: String| s@);
        if keys.contains(key@) {
            let q = choose|q: int| 0 <= q < keys.len() && keys[q] == key@;
            assert(urls@[q]@ == key@);
        }
    }
    None
}

} // verus!
