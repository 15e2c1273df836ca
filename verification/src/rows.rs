//! A table of rows under a textual primary key.
//!
//! The rows are kept in a vector in which no key occurs twice. To its users
//! the table is a map from key to row value; how the vector is searched and
//! edited stays inside this file.

use vstd::prelude::*;
use crate::text::{
    is_text_le, lemma_text_le_antisymmetric, lemma_text_le_reflexive, lemma_text_le_transitive,
    opt_text, text_le,
};

verus! {

/// A row that can be kept in a table: it has a value and, in it, a key.
pub trait Record: View + Sized {
    /// The primary key within a row value.
    spec fn key_of(row: Self::V) -> Seq<char>;

    /// The row's primary key.
    fn key(&self) -> (k: &String)
        ensures
            k@ == Self::key_of(self@),
    ;
}

/// A row that belongs to a principal and records when it last changed.
pub trait Stamped: Record {
    /// The owner within a row value.
    spec fn owner_of(row: Self::V) -> Seq<char>;

    /// The time of the last change within a row value.
    spec fn stamp_of(row: Self::V) -> Seq<char>;

    /// The row's owner.
    fn owner(&self) -> (o: &String)
        ensures
            o@ == Self::owner_of(self@),
    ;

    /// The time of the row's last change.
    fn stamp(&self) -> (s: &String)
        ensures
            s@ == Self::stamp_of(self@),
    ;
}

/// Whether `latest` is the answer to "the greatest time of change among
/// `owner`'s rows, in the order of the column": nothing where `owner` has
/// no row, else a time that one of the rows carries and none exceeds.
pub open spec fn is_latest<R: Stamped>(
    t: Map<Seq<char>, R::V>,
    owner: Seq<char>,
    latest: Option<Seq<char>>,
) -> bool {
    match latest {
        None => forall|k: Seq<char>| #[trigger] t.contains_key(k) ==> R::owner_of(t[k]) != owner,
        Some(at) => {
            &&& exists|k: Seq<char>| #[trigger]
                t.contains_key(k) && R::owner_of(t[k]) == owner && R::stamp_of(t[k]) == at
            &&& forall|k: Seq<char>| #[trigger]
                t.contains_key(k) && R::owner_of(t[k]) == owner ==> text_le(R::stamp_of(t[k]), at)
        },
    }
}

/// The question has one answer.
pub proof fn lemma_latest_is_unique<R: Stamped>(
    t: Map<Seq<char>, R::V>,
    owner: Seq<char>,
    a: Option<Seq<char>>,
    b: Option<Seq<char>>,
)
    requires
        is_latest::<R>(t, owner, a),
        is_latest::<R>(t, owner, b),
    ensures
        a == b,
{
    match (a, b) {
        (Some(x), Some(y)) => {
            let i = choose|k: Seq<char>| #[trigger]
                t.contains_key(k) && R::owner_of(t[k]) == owner && R::stamp_of(t[k]) == x;
            let j = choose|k: Seq<char>| #[trigger]
                t.contains_key(k) && R::owner_of(t[k]) == owner && R::stamp_of(t[k]) == y;
            assert(t.contains_key(i) && t.contains_key(j));
            lemma_text_le_antisymmetric(x, y);
        },
        (Some(x), None) => {
            let i = choose|k: Seq<char>| #[trigger]
                t.contains_key(k) && R::owner_of(t[k]) == owner && R::stamp_of(t[k]) == x;
            assert(t.contains_key(i));
        },
        (None, Some(y)) => {
            let j = choose|k: Seq<char>| #[trigger]
                t.contains_key(k) && R::owner_of(t[k]) == owner && R::stamp_of(t[k]) == y;
            assert(t.contains_key(j));
        },
        (None, None) => {},
    }
}

/// Whether `latest` answers the same question for the first `n` rows of a
/// listing.
pub open spec fn is_latest_among<R: Stamped>(
    items: Seq<R>,
    n: int,
    owner: Seq<char>,
    latest: Option<Seq<char>>,
) -> bool {
    match latest {
        None => forall|j: int| 0 <= j < n ==> R::owner_of(#[trigger] items[j]@) != owner,
        Some(at) => {
            &&& exists|j: int|
                0 <= j < n && R::owner_of(#[trigger] items[j]@) == owner && R::stamp_of(items[j]@)
                    == at
            &&& forall|j: int|
                0 <= j < n && R::owner_of(#[trigger] items[j]@) == owner ==> text_le(
                    R::stamp_of(items[j]@),
                    at,
                )
        },
    }
}

/// Every entry of the map is the value of some position of the listing.
pub proof fn lemma_listing_covers<R: Record>(items: Seq<R>)
    requires
        keys_distinct(items),
    ensures
        forall|k: Seq<char>| #[trigger]
            map_of(items).contains_key(k) ==> exists|j: int|
                0 <= j < items.len() && items[j]@ == map_of(items)[k],
{
    let t = map_of(items);
    assert forall|k: Seq<char>| #[trigger] t.contains_key(k) implies exists|j: int|
        0 <= j < items.len() && items[j]@ == t[k] by {
        let j = choose|j: int| holds(items, k, j);
        lemma_position(items, j);
    }
}

/// What holds of a whole listing holds of the map it stands for.
pub proof fn lemma_latest_of_listing<R: Stamped>(
    items: Seq<R>,
    owner: Seq<char>,
    latest: Option<Seq<char>>,
)
    requires
        keys_distinct(items),
        is_latest_among(items, items.len() as int, owner, latest),
    ensures
        is_latest::<R>(map_of(items), owner, latest),
{
    let t = map_of(items);
    lemma_listing_covers(items);
    match latest {
        None => {
            assert forall|k: Seq<char>| #[trigger] t.contains_key(k) implies R::owner_of(t[k])
                != owner by {
                let j = choose|j: int| 0 <= j < items.len() && items[j]@ == t[k];
                assert(R::owner_of(items[j]@) != owner);
            }
        },
        Some(at) => {
            let j = choose|j: int|
                0 <= j < items.len() && R::owner_of(#[trigger] items[j]@) == owner && R::stamp_of(
                    items[j]@,
                ) == at;
            lemma_position(items, j);
            assert(t.contains_key(R::key_of(items[j]@)));
            assert forall|k: Seq<char>| #[trigger]
                t.contains_key(k) && R::owner_of(t[k]) == owner implies text_le(
                R::stamp_of(t[k]),
                at,
            ) by {
                let i = choose|i: int| 0 <= i < items.len() && items[i]@ == t[k];
                assert(R::owner_of(items[i]@) == owner);
            }
        },
    }
}

/// Whether position `i` of `items` holds the row with key `k`.
pub open spec fn holds<R: Record>(items: Seq<R>, k: Seq<char>, i: int) -> bool {
    0 <= i < items.len() && R::key_of(items[i]@) == k
}

/// Whether no key occurs at two positions of `items`.
pub open spec fn keys_distinct<R: Record>(items: Seq<R>) -> bool {
    forall|i: int, j: int|
        0 <= i < j < items.len() ==> R::key_of(#[trigger] items[i]@) != R::key_of(
            #[trigger] items[j]@,
        )
}

/// The map that a list of rows stands for.
pub open spec fn map_of<R: Record>(items: Seq<R>) -> Map<Seq<char>, R::V> {
    Map::new(
        |k: Seq<char>| exists|i: int| holds(items, k, i),
        |k: Seq<char>| items[choose|i: int| holds(items, k, i)]@,
    )
}

/// Every entry of the map carries the key under which it is found.
pub proof fn lemma_keyed<R: Record>(items: Seq<R>)
    ensures
        forall|k: Seq<char>| #[trigger]
            map_of(items).contains_key(k) ==> R::key_of(map_of(items)[k]) == k,
{
    assert forall|k: Seq<char>| #[trigger] map_of(items).contains_key(k) implies R::key_of(
        map_of(items)[k],
    ) == k by {
        let c = choose|c: int| holds(items, k, c);
        assert(holds(items, k, c));
    }
}

/// Each position of a list with distinct keys is what the map holds under
/// that position's key.
pub proof fn lemma_position<R: Record>(items: Seq<R>, i: int)
    requires
        keys_distinct(items),
        0 <= i < items.len(),
    ensures
        map_of(items).contains_key(R::key_of(items[i]@)),
        map_of(items)[R::key_of(items[i]@)] == items[i]@,
{
    let k = R::key_of(items[i]@);
    assert(holds(items, k, i));
    let c = choose|c: int| holds(items, k, c);
    assert(holds(items, k, c));
    if c < i {
        assert(R::key_of(items[c]@) != R::key_of(items[i]@));
    } else if i < c {
        assert(R::key_of(items[i]@) != R::key_of(items[c]@));
    }
}

/// Appending a row under a key not yet present inserts it into the map.
pub proof fn lemma_push<R: Record>(items: Seq<R>, row: R)
    requires
        keys_distinct(items),
        !map_of(items).contains_key(R::key_of(row@)),
    ensures
        keys_distinct(items.push(row)),
        map_of(items.push(row)) == map_of(items).insert(R::key_of(row@), row@),
{
    let after = items.push(row);
    let k = R::key_of(row@);
    assert forall|i: int, j: int| 0 <= i < j < after.len() implies R::key_of(
        #[trigger] after[i]@,
    ) != R::key_of(#[trigger] after[j]@) by {
        if j == items.len() {
            assert(after[i] == items[i]);
            if R::key_of(items[i]@) == k {
                assert(holds(items, k, i));
            }
        } else {
            assert(after[i] == items[i]);
            assert(after[j] == items[j]);
        }
    }
    let expected = map_of(items).insert(k, row@);
    assert forall|q: Seq<char>| map_of(after).contains_key(q) <==> expected.contains_key(
        q,
    ) by {
        if map_of(after).contains_key(q) {
            let i = choose|i: int| holds(after, q, i);
            if i < items.len() {
                assert(holds(items, q, i));
            }
        }
        if expected.contains_key(q) {
            if q == k {
                assert(holds(after, q, items.len() as int));
            } else {
                let i = choose|i: int| holds(items, q, i);
                assert(holds(after, q, i));
            }
        }
    }
    assert forall|q: Seq<char>| map_of(after).contains_key(q) implies map_of(after)[q]
        == expected[q] by {
        let i = choose|i: int| holds(after, q, i);
        lemma_position(after, i);
        if i < items.len() {
            assert(after[i] == items[i]);
            lemma_position(items, i);
        }
    }
    assert(map_of(after) =~= expected);
}

/// Replacing a row by one with the same key replaces it in the map.
pub proof fn lemma_update<R: Record>(items: Seq<R>, at: int, row: R)
    requires
        keys_distinct(items),
        0 <= at < items.len(),
        R::key_of(row@) == R::key_of(items[at]@),
    ensures
        keys_distinct(items.update(at, row)),
        map_of(items.update(at, row)) == map_of(items).insert(R::key_of(row@), row@),
{
    let after = items.update(at, row);
    let k = R::key_of(row@);
    assert forall|i: int, j: int| 0 <= i < j < after.len() implies R::key_of(
        #[trigger] after[i]@,
    ) != R::key_of(#[trigger] after[j]@) by {
        assert(R::key_of(items[i]@) != R::key_of(items[j]@));
    }
    let expected = map_of(items).insert(k, row@);
    assert forall|q: Seq<char>| map_of(after).contains_key(q) <==> expected.contains_key(
        q,
    ) by {
        if map_of(after).contains_key(q) {
            let i = choose|i: int| holds(after, q, i);
            assert(holds(items, q, i));
        }
        if expected.contains_key(q) {
            if q == k {
                assert(holds(after, q, at));
            } else {
                let i = choose|i: int| holds(items, q, i);
                assert(holds(after, q, i));
            }
        }
    }
    assert forall|q: Seq<char>| map_of(after).contains_key(q) implies map_of(after)[q]
        == expected[q] by {
        let i = choose|i: int| holds(after, q, i);
        lemma_position(after, i);
        if i != at {
            lemma_position(items, i);
        }
    }
    assert(map_of(after) =~= expected);
}

/// Taking a row out of the list takes its key out of the map.
pub proof fn lemma_remove<R: Record>(items: Seq<R>, at: int)
    requires
        keys_distinct(items),
        0 <= at < items.len(),
    ensures
        keys_distinct(items.remove(at)),
        map_of(items.remove(at)) == map_of(items).remove(R::key_of(items[at]@)),
{
    let after = items.remove(at);
    let k = R::key_of(items[at]@);
    assert forall|i: int, j: int| 0 <= i < j < after.len() implies R::key_of(
        #[trigger] after[i]@,
    ) != R::key_of(#[trigger] after[j]@) by {
        let si = if i < at { i } else { i + 1 };
        let sj = if j < at { j } else { j + 1 };
        assert(after[i] == items[si]);
        assert(after[j] == items[sj]);
        assert(R::key_of(items[si]@) != R::key_of(items[sj]@));
    }
    let expected = map_of(items).remove(k);
    assert forall|q: Seq<char>| map_of(after).contains_key(q) <==> expected.contains_key(
        q,
    ) by {
        if map_of(after).contains_key(q) {
            let i = choose|i: int| holds(after, q, i);
            let si = if i < at { i } else { i + 1 };
            assert(after[i] == items[si]);
            assert(holds(items, q, si));
            if si < at {
                assert(R::key_of(items[si]@) != R::key_of(items[at]@));
            } else {
                assert(R::key_of(items[at]@) != R::key_of(items[si]@));
            }
        }
        if expected.contains_key(q) {
            let i = choose|i: int| holds(items, q, i);
            assert(i != at);
            let ti = if i < at { i } else { i - 1 };
            assert(after[ti] == items[i]);
            assert(holds(after, q, ti));
        }
    }
    assert forall|q: Seq<char>| map_of(after).contains_key(q) implies map_of(after)[q]
        == expected[q] by {
        let i = choose|i: int| holds(after, q, i);
        lemma_position(after, i);
        let si = if i < at { i } else { i + 1 };
        assert(after[i] == items[si]);
        lemma_position(items, si);
    }
    assert(map_of(after) =~= expected);
}

/// A table of rows of kind `R`, at most one under each key.
pub struct Rows<R: Record> {
    items: Vec<R>,
}

impl<R: Record> Rows<R> {
    #[verifier::type_invariant]
    spec fn well_formed(self) -> bool {
        keys_distinct(self.items@)
    }

    /// The rows in the order in which they are kept.
    pub closed spec fn listing(&self) -> Seq<R> {
        self.items@
    }

    /// The table as a map from key to row value.
    pub open spec fn view(&self) -> Map<Seq<char>, R::V> {
        map_of(self.listing())
    }

    /// The empty table.
    pub fn new() -> (rows: Self)
        ensures
            rows@ == Map::<Seq<char>, R::V>::empty(),
            rows.listing().len() == 0,
    {
        let rows = Rows { items: Vec::new() };
        assert(rows@ =~= Map::<Seq<char>, R::V>::empty());
        rows
    }

    /// The number of rows. No key occurs twice among them.
    pub fn len(&self) -> (n: usize)
        ensures
            n == self.listing().len(),
            keys_distinct(self.listing()),
    {
        proof {
            use_type_invariant(self);
        }
        self.items.len()
    }

    /// The row at position `i` of the listing.
    pub fn at(&self, i: usize) -> (row: &R)
        requires
            i < self.listing().len(),
        ensures
            *row == self.listing()[i as int],
    {
        &self.items[i]
    }

    /// Where the row under `key` is kept, if there is one.
    fn position(&self, key: &String) -> (p: Option<usize>)
        ensures
            match p {
                Some(i) => holds(self.listing(), key@, i as int),
                None => !self@.contains_key(key@),
            },
    {
        let mut i: usize = 0;
        while i < self.items.len()
            invariant
                i <= self.items@.len(),
                forall|j: int| 0 <= j < i ==> !holds(self.items@, key@, j),
            decreases self.items@.len() - i,
        {
            if *self.items[i].key() == *key {
                return Some(i);
            }
            i += 1;
        }
        assert(forall|j: int| !holds(self.items@, key@, j));
        None
    }

    /// The row under `key`, if there is one.
    pub fn get(&self, key: &String) -> (row: Option<&R>)
        ensures
            match row {
                Some(r) => self@.contains_key(key@) && r@ == self@[key@] && R::key_of(r@) == key@,
                None => !self@.contains_key(key@),
            },
    {
        proof {
            use_type_invariant(self);
        }
        match self.position(key) {
            Some(i) => {
                proof {
                    lemma_position(self.items@, i as int);
                }
                Some(&self.items[i])
            },
            None => None,
        }
    }

    /// Whether there is a row under `key`.
    pub fn contains(&self, key: &String) -> (found: bool)
        ensures
            found == self@.contains_key(key@),
    {
        proof {
            use_type_invariant(self);
        }
        match self.position(key) {
            Some(i) => {
                proof {
                    lemma_position(self.items@, i as int);
                }
                true
            },
            None => false,
        }
    }

    /// Stores `row` under its key, in place of the row that was there, if any.
    pub fn put(&mut self, row: R)
        ensures
            final(self)@ == old(self)@.insert(R::key_of(row@), row@),
    {
        proof {
            use_type_invariant(&*self);
        }
        let place = self.position(row.key());
        // The vector is edited outside the table and put back when it is
        // whole again, so that the table never holds a half-made state.
        let mut items: Vec<R> = Vec::new();
        core::mem::swap(&mut self.items, &mut items);
        match place {
            Some(i) => {
                proof {
                    lemma_update(items@, i as int, row);
                }
                items.set(i, row);
            },
            None => {
                proof {
                    lemma_push(items@, row);
                }
                items.push(row);
            },
        }
        core::mem::swap(&mut self.items, &mut items);
    }

    /// Takes out the row under `key`, if there is one, and says whether
    /// there was.
    pub fn remove(&mut self, key: &String) -> (removed: bool)
        ensures
            removed == old(self)@.contains_key(key@),
            final(self)@ == old(self)@.remove(key@),
    {
        proof {
            use_type_invariant(&*self);
        }
        match self.position(key) {
            Some(i) => {
                let mut items: Vec<R> = Vec::new();
                core::mem::swap(&mut self.items, &mut items);
                proof {
                    lemma_position(items@, i as int);
                    lemma_remove(items@, i as int);
                }
                items.remove(i);
                core::mem::swap(&mut self.items, &mut items);
                true
            },
            None => {
                assert(self@ =~= self@.remove(key@));
                false
            },
        }
    }
}

impl<R: Stamped> Rows<R> {
    /// The greatest time of change among `owner`'s rows, in the order of
    /// the column.
    pub fn latest_stamp(&self, owner: &str) -> (latest: Option<String>)
        ensures
            is_latest::<R>(self@, owner@, opt_text(latest)),
    {
        let owner_text = String::from_str(owner);
        let n = self.len();
        let mut best: Option<String> = None;
        let mut i: usize = 0;
        while i < n
            invariant
                i <= n,
                n == self.listing().len(),
                owner_text@ == owner@,
                is_latest_among(self.listing(), i as int, owner@, opt_text(best)),
            decreases n - i,
        {
            let row = self.at(i);
            if *row.owner() == owner_text {
                let later = match &best {
                    None => true,
                    Some(b) => is_text_le(b.as_str(), row.stamp().as_str()),
                };
                if later {
                    proof {
                        let at = R::stamp_of(row@);
                        lemma_text_le_reflexive(at);
                        if let Some(b) = best {
                            assert forall|j: int|
                                0 <= j < i && R::owner_of(#[trigger] self.listing()[j]@)
                                    == owner@ implies text_le(
                                R::stamp_of(self.listing()[j]@),
                                at,
                            ) by {
                                lemma_text_le_transitive(
                                    R::stamp_of(self.listing()[j]@),
                                    b@,
                                    at,
                                );
                            }
                        }
                    }
                    best = Some(row.stamp().clone());
                    assert(R::owner_of(self.listing()[i as int]@) == owner@);
                }
            }
            i += 1;
        }
        proof {
            lemma_latest_of_listing(self.listing(), owner@, opt_text(best));
        }
        best
    }
}

} // verus!
