//! Ordering of the library view: favourites pinned on top, each group in the
//! order of the chosen sort mode.

use vstd::prelude::*;
use crate::favorites_set::{favorite_key, FavoritesSet};
use crate::radio::Station;
use crate::sort::{
    is_stable_order, is_stable_order_desc, lemma_permuted_multiset, lemma_stable_order_desc_is_permutation,
    lemma_stable_order_is_permutation, permuted, stable_order, stable_order_desc,
};
use crate::text::{lowercase, str_chars, to_lowercase};

verus! {

/// How the library view is ordered.
#[derive(Debug, Clone, Copy, PartialEq, Eq, Structural)]
pub enum SortMode {
    FavoritesFirst,
    Alphabetical,
    RecentlyAdded,
    MostPlayed,
}

/// The next mode of the cycle FavoritesFirst, Alphabetical, RecentlyAdded,
/// MostPlayed.
pub open spec fn next_mode(m: SortMode) -> SortMode {
    match m {
        SortMode::FavoritesFirst => SortMode::Alphabetical,
        SortMode::Alphabetical => SortMode::RecentlyAdded,
        SortMode::RecentlyAdded => SortMode::MostPlayed,
        SortMode::MostPlayed => SortMode::FavoritesFirst,
    }
}

/// The key under which a mode is saved.
pub open spec fn mode_key(m: SortMode) -> Seq<char> {
    match m {
        SortMode::FavoritesFirst => "favorites_first"@,
        SortMode::Alphabetical => "alphabetical"@,
        SortMode::RecentlyAdded => "recently_added"@,
        SortMode::MostPlayed => "most_played"@,
    }
}

/// The mode saved under `key`, if any.
pub open spec fn mode_of_key(key: Seq<char>) -> Option<SortMode> {
    if key == "favorites_first"@ {
        Some(SortMode::FavoritesFirst)
    } else if key == "alphabetical"@ {
        Some(SortMode::Alphabetical)
    } else if key == "recently_added"@ {
        Some(SortMode::RecentlyAdded)
    } else if key == "most_played"@ {
        Some(SortMode::MostPlayed)
    } else {
        None
    }
}

impl SortMode {
    /// Every mode, in cycle order.
    pub const ALL: [SortMode; 4] = [
        SortMode::FavoritesFirst,
        SortMode::Alphabetical,
        SortMode::RecentlyAdded,
        SortMode::MostPlayed,
    ];

    /// The next mode, wrapping at the end.
    pub fn next(self) -> (r: Self)
        ensures
            r == next_mode(self),
    {
        match self {
            SortMode::FavoritesFirst => SortMode::Alphabetical,
            SortMode::Alphabetical => SortMode::RecentlyAdded,
            SortMode::RecentlyAdded => SortMode::MostPlayed,
            SortMode::MostPlayed => SortMode::FavoritesFirst,
        }
    }

    /// The stable key under which the mode is saved in the configuration.
    pub fn to_key(self) -> (r: &'static str)
        ensures
            r@ == mode_key(self),
    {
        match self {
            SortMode::FavoritesFirst => "favorites_first",
            SortMode::Alphabetical => "alphabetical",
            SortMode::RecentlyAdded => "recently_added",
            SortMode::MostPlayed => "most_played",
        }
    }

    /// The mode saved under `s`; `None` for an unknown key.
    pub fn from_key(s: &str) -> (r: Option<Self>)
        ensures
            r == mode_of_key(s@),
    {
        let c = str_chars(s);
        if crate::text::str_eq_chars("favorites_first", c.as_slice()) {
            Some(SortMode::FavoritesFirst)
        } else if crate::text::str_eq_chars("alphabetical", c.as_slice()) {
            Some(SortMode::Alphabetical)
        } else if crate::text::str_eq_chars("recently_added", c.as_slice()) {
            Some(SortMode::RecentlyAdded)
        } else if crate::text::str_eq_chars("most_played", c.as_slice()) {
            Some(SortMode::MostPlayed)
        } else {
            None
        }
    }

    /// One-letter abbreviation shown in the footer.
    pub fn chip(self) -> (c: char)
        ensures
            c == match self {
                SortMode::FavoritesFirst => 'F',
                SortMode::Alphabetical => 'A',
                SortMode::RecentlyAdded => 'R',
                SortMode::MostPlayed => 'M',
            },
    {
        match self {
            SortMode::FavoritesFirst => 'F',
            SortMode::Alphabetical => 'A',
            SortMode::RecentlyAdded => 'R',
            SortMode::MostPlayed => 'M',
        }
    }

    /// Label shown in notices.
    pub fn label(self) -> (r: &'static str)
        ensures
            r@ == match self {
                SortMode::FavoritesFirst => "Favorites First"@,
                SortMode::Alphabetical => "Alphabetical"@,
                SortMode::RecentlyAdded => "Recently Added"@,
                SortMode::MostPlayed => "Most Played"@,
            },
    {
        match self {
            SortMode::FavoritesFirst => "Favorites First",
            SortMode::Alphabetical => "Alphabetical",
            SortMode::RecentlyAdded => "Recently Added",
            SortMode::MostPlayed => "Most Played",
        }
    }
}

/// Four steps of the cycle come back to the start.
pub proof fn lemma_mode_cycle(m: SortMode)
    ensures
        next_mode(next_mode(next_mode(next_mode(m)))) == m,
        next_mode(m) != m,
{
}

/// A mode is read back from its key.
pub proof fn lemma_key_round_trip(m: SortMode)
    ensures
        mode_of_key(mode_key(m)) == Some(m),
{
    reveal_strlit("favorites_first");
    reveal_strlit("alphabetical");
    reveal_strlit("recently_added");
    reveal_strlit("most_played");
    assert("favorites_first"@.len() == 15);
    assert("alphabetical"@.len() == 12);
    assert("recently_added"@.len() == 14);
    assert("most_played"@.len() == 11);
}

/// The station is a favourite.
pub open spec fn is_favorite(favorites: Set<Seq<char>>, s: &Station) -> bool {
    match favorite_key(s.url@) {
        Some(k) => favorites.contains(k),
        None => false,
    }
}

/// The favourite stations, in their order.
pub open spec fn favorites_part(stations: Seq<&Station>, favorites: Set<Seq<char>>) -> Seq<&Station> {
    stations.filter(|s: &Station| is_favorite(favorites, s))
}

/// The other stations, in their order.
pub open spec fn others_part(stations: Seq<&Station>, favorites: Set<Seq<char>>) -> Seq<&Station> {
    stations.filter(|s: &Station| !is_favorite(favorites, s))
}

/// The key of the alphabetical order: the name in lowercase.
pub open spec fn name_keys(part: Seq<&Station>) -> Seq<Seq<char>> {
    part.map_values(|s: &Station| lowercase(s.name@))
}

/// The key of the most-played order: the click count, 0 when unknown.
pub open spec fn click_counts(part: Seq<&Station>) -> Seq<u32> {
    part.map_values(
        |s: &Station|
            match s.click_count {
                Some(c) => c,
                None => 0u32,
            },
    )
}

/// `out` is one group of the library view arranged for `mode`: as it came
/// (FavoritesFirst), stably by lowercase name (Alphabetical), newest first
/// (RecentlyAdded), or stably by click count, largest first (MostPlayed).
pub open spec fn arranged(part: Seq<&Station>, mode: SortMode, out: Seq<&Station>) -> bool {
    match mode {
        SortMode::FavoritesFirst => out == part,
        SortMode::RecentlyAdded => out == part.reverse(),
        SortMode::Alphabetical => exists|order: Seq<usize>|
            is_stable_order(name_keys(part), order) && out == permuted(part, order),
        SortMode::MostPlayed => exists|order: Seq<usize>|
            is_stable_order_desc(click_counts(part), order) && out == permuted(part, order),
    }
}

/// The library view: the favourites first, then the others, each group
/// arranged for `mode`.
pub open spec fn library_view_order(stations: Seq<&Station>, mode: SortMode, favorites: Set<Seq<char>>, out: Seq<&Station>) -> bool {
    let favs = favorites_part(stations, favorites);
    let rest = others_part(stations, favorites);
    &&& out.len() == favs.len() + rest.len()
    &&& arranged(favs, mode, out.take(favs.len() as int))
    &&& arranged(rest, mode, out.skip(favs.len() as int))
}

/// Splitting by favourite keeps every station once, in one of the two parts.
proof fn lemma_partition_multiset(stations: Seq<&Station>, favorites: Set<Seq<char>>)
    ensures
        favorites_part(stations, favorites).to_multiset().add(others_part(stations, favorites).to_multiset())
            =~= stations.to_multiset(),
    decreases stations.len(),
{
    broadcast use vstd::seq_lib::group_to_multiset_ensures;
    broadcast use vstd::multiset::group_multiset_axioms;
    reveal(Seq::filter);

    if stations.len() > 0 {
        lemma_partition_multiset(stations.drop_last(), favorites);
        assert(stations =~= stations.drop_last().push(stations.last()));
    }
}

/// A group arranged for any mode holds the same stations, each as often.
proof fn lemma_arranged_multiset(part: Seq<&Station>, mode: SortMode, out: Seq<&Station>)
    requires
        arranged(part, mode, out),
    ensures
        out.to_multiset() =~= part.to_multiset(),
{
    match mode {
        SortMode::FavoritesFirst => {},
        SortMode::RecentlyAdded => {
            part.lemma_reverse_to_multiset();
        },
        SortMode::Alphabetical => {
            let order = choose|order: Seq<usize>|
                is_stable_order(name_keys(part), order) && out == permuted(part, order);
            lemma_stable_order_is_permutation(name_keys(part), order);
            lemma_permuted_multiset(part, order);
        },
        SortMode::MostPlayed => {
            let order = choose|order: Seq<usize>|
                is_stable_order_desc(click_counts(part), order) && out == permuted(part, order);
            lemma_stable_order_desc_is_permutation(click_counts(part), order);
            lemma_permuted_multiset(part, order);
        },
    }
}

/// Sorting the library view keeps every station, each as often as it was
/// given, and pins exactly the favourites on top: the first stations are the
/// favourites and the rest are not.
pub proof fn lemma_sort_library_permutes(
    stations: Seq<&Station>,
    mode: SortMode,
    favorites: Set<Seq<char>>,
    out: Seq<&Station>,
)
    requires
        library_view_order(stations, mode, favorites, out),
    ensures
        out.to_multiset() =~= stations.to_multiset(),
        forall|k: int|
            0 <= k < out.len() ==> (is_favorite(favorites, #[trigger] out[k])
                <==> k < favorites_part(stations, favorites).len()),
{
    broadcast use vstd::seq_lib::group_to_multiset_ensures;
    broadcast use vstd::multiset::group_multiset_axioms;
    broadcast use vstd::seq_lib::group_filter_ensures;

    let favs = favorites_part(stations, favorites);
    let rest = others_part(stations, favorites);
    let nf = favs.len() as int;
    let a = out.take(nf);
    let b = out.skip(nf);
    lemma_arranged_multiset(favs, mode, a);
    lemma_arranged_multiset(rest, mode, b);
    lemma_partition_multiset(stations, favorites);
    assert(out =~= a + b);
    vstd::seq_lib::lemma_multiset_commutative(a, b);
    assert forall|k: int| 0 <= k < out.len() implies (is_favorite(favorites, #[trigger] out[k]) <==> k < nf) by {
        if k < nf {
            assert(a[k] == out[k]);
            assert(a.contains(a[k]));
            assert(favs.to_multiset().count(a[k]) > 0);
            assert(favs.contains(a[k]));
            let i = choose|i: int| 0 <= i < favs.len() && favs[i] == a[k];
            stations.lemma_filter_pred(|s: &Station| is_favorite(favorites, s), i);
        } else {
            assert(b[k - nf] == out[k]);
            assert(b.contains(b[k - nf]));
            assert(rest.to_multiset().count(b[k - nf]) > 0);
            assert(rest.contains(b[k - nf]));
            let i = choose|i: int| 0 <= i < rest.len() && rest[i] == b[k - nf];
            stations.lemma_filter_pred(|s: &Station| !is_favorite(favorites, s), i);
        }
    }
}

/// Orders the library view: favourites are pinned on top whatever the
/// mode, and each group is arranged for `mode`.
pub fn sort_library<'a>(stations: Vec<&'a Station>, mode: SortMode, favorites: &FavoritesSet) -> (r: Vec<&'a Station>)
    ensures
        library_view_order(stations@, mode, favorites@, r@),
{
    let ghost fset = favorites@;
    let mut favs: Vec<&'a Station> = Vec::new();
    let mut rest: Vec<&'a Station> = Vec::new();
    let mut i: usize = 0;
    while i < stations.len()
        invariant
            i <= stations.len(),
            fset == favorites@,
            favs@ == favorites_part(stations@.take(i as int), fset),
            rest@ == others_part(stations@.take(i as int), fset),
        decreases stations.len() - i,
    {
        let s = stations[i];
        assert(stations@.take(i + 1).drop_last() =~= stations@.take(i as int));
        assert(stations@.take(i + 1).last() == s);
        let fav = favorites.contains(s.url.as_str());
        proof {
            reveal(Seq::filter);
        }
        assert(fav == is_favorite(fset, s));
        assert(favorites_part(stations@.take(i + 1), fset) == if fav {
            favorites_part(stations@.take(i as int), fset).push(s)
        } else {
            favorites_part(stations@.take(i as int), fset)
        });
        assert(others_part(stations@.take(i + 1), fset) == if fav {
            others_part(stations@.take(i as int), fset)
        } else {
            others_part(stations@.take(i as int), fset).push(s)
        });
        if fav {
            favs.push(s);
        } else {
            rest.push(s);
        }
        i += 1;
    }
    assert(stations@.take(stations.len() as int) =~= stations@);
    let favs = arrange(favs, mode);
    let rest = arrange(rest, mode);
    let ghost fa = favs@;
    let ghost ra = rest@;
    let mut out = favs;
    let mut rest = rest;
    out.append(&mut rest);
    assert(out@.take(fa.len() as int) =~= fa);
    assert(out@.skip(fa.len() as int) =~= ra);
    out
}

/// One group arranged for `mode`.
fn arrange<'a>(part: Vec<&'a Station>, mode: SortMode) -> (r: Vec<&'a Station>)
    ensures
        r@.len() == part@.len(),
        arranged(part@, mode, r@),
{
    match mode {
        SortMode::FavoritesFirst => part,
        SortMode::RecentlyAdded => {
            let mut out: Vec<&'a Station> = Vec::new();
            let mut k: usize = part.len();
            while k > 0
                invariant
                    k <= part.len(),
                    out@.len() == part.len() - k,
                    forall|j: int| 0 <= j < out@.len() ==> out@[j] == part@[part.len() - 1 - j],
                decreases k,
            {
                out.push(part[k - 1]);
                k -= 1;
            }
            assert(out@ =~= part@.reverse());
            out
        },
        SortMode::Alphabetical => {
            let mut keys: Vec<Vec<char>> = Vec::new();
            let mut k: usize = 0;
            while k < part.len()
                invariant
                    k <= part.len(),
                    keys@.map_values(|v: Vec<char>| v@) == name_keys(part@).take(k as int),
                decreases part.len() - k,
            {
                let lower = to_lowercase(part[k].name.as_str());
                let key = str_chars(lower.as_str());
                let ghost before = keys@;
                assert(key@ == lowercase(part@[k as int].name@));
                keys.push(key);
                assert(keys@ == before.push(key));
                assert(keys@.map_values(|v: Vec<char>| v@) =~= before.map_values(|v: Vec<char>| v@).push(key@));
                assert(name_keys(part@).take(k + 1) =~= name_keys(part@).take(k as int).push(lowercase(part@[k as int].name@)));
                k += 1;
            }
            assert(name_keys(part@).take(part.len() as int) =~= name_keys(part@));
            let order = stable_order(&keys);
            let out = pick(&part, &order);
            assert(arranged(part@, mode, out@));
            out
        },
        SortMode::MostPlayed => {
            let mut counts: Vec<u32> = Vec::new();
            let mut k: usize = 0;
            while k < part.len()
                invariant
                    k <= part.len(),
                    counts@ == click_counts(part@).take(k as int),
                decreases part.len() - k,
            {
                let c = match part[k].click_count {
                    Some(c) => c,
                    None => 0,
                };
                counts.push(c);
                assert(counts@ =~= click_counts(part@).take(k + 1));
                k += 1;
            }
            assert(click_counts(part@).take(part.len() as int) =~= click_counts(part@));
            let order = stable_order_desc(&counts);
            let out = pick(&part, &order);
            assert(arranged(part@, mode, out@));
            out
        },
    }
}

/// The items of `part` at the indices in `order`.
fn pick<'a>(part: &Vec<&'a Station>, order: &Vec<usize>) -> (r: Vec<&'a Station>)
    requires
        forall|k: int| 0 <= k < order@.len() ==> (#[trigger] order@[k]) < part@.len(),
    ensures
        r@ == permuted(part@, order@),
{
    let mut out: Vec<&'a Station> = Vec::new();
    let mut k: usize = 0;
    while k < order.len()
        invariant
            k <= order.len(),
            forall|j: int| 0 <= j < order@.len() ==> (#[trigger] order@[j]) < part@.len(),
            out@ == permuted(part@, order@.take(k as int)),
        decreases order.len() - k,
    {
        out.push(part[order[k]]);
        assert(permuted(part@, order@.take(k + 1)) =~= permuted(part@, order@.take(k as int)).push(part@[order@[k as int] as int]));
        k += 1;
    }
    assert(order@.take(order.len() as int) =~= order@);
    out
}

} // verus!
