//! Friendly names for device addresses.
//!
//! An alias book keeps its entries in the order of their names, so that a
//! listing needs no sorting and a name is found without looking at every
//! entry twice.

use crate::address::{address_like, looks_like_address};
use crate::text::{push_line, push_owned_line, views, RULE};
use vstd::prelude::*;
use vstd::utf8::{encode_utf8, encode_utf8_decode_utf8};

verus! {

/// The order of byte strings: by the first byte that differs, a string
/// coming before each of its extensions.
pub open spec fn bytes_lt(a: Seq<u8>, b: Seq<u8>) -> bool
    decreases a.len(),
{
    if b.len() == 0 {
        false
    } else if a.len() == 0 {
        true
    } else if a[0] != b[0] {
        a[0] < b[0]
    } else {
        bytes_lt(a.drop_first(), b.drop_first())
    }
}

/// The order of names: that of their encodings, which is the order in which
/// strings compare.
pub open spec fn name_lt(a: Seq<char>, b: Seq<char>) -> bool {
    bytes_lt(encode_utf8(a), encode_utf8(b))
}

/// No byte string comes before itself.
pub proof fn lemma_bytes_lt_irreflexive(a: Seq<u8>)
    ensures
        !bytes_lt(a, a),
    decreases a.len(),
{
    if a.len() > 0 {
        lemma_bytes_lt_irreflexive(a.drop_first());
    }
}

/// The order of byte strings is transitive.
pub proof fn lemma_bytes_lt_transitive(a: Seq<u8>, b: Seq<u8>, c: Seq<u8>)
    requires
        bytes_lt(a, b),
        bytes_lt(b, c),
    ensures
        bytes_lt(a, c),
    decreases a.len(),
{
    if a.len() > 0 && a[0] == b[0] && b[0] == c[0] {
        lemma_bytes_lt_transitive(a.drop_first(), b.drop_first(), c.drop_first());
    }
}

/// Of two different byte strings one comes before the other.
pub proof fn lemma_bytes_lt_total(a: Seq<u8>, b: Seq<u8>)
    requires
        !bytes_lt(a, b),
        !bytes_lt(b, a),
    ensures
        a == b,
    decreases a.len(),
{
    if a.len() > 0 && b.len() > 0 {
        lemma_bytes_lt_total(a.drop_first(), b.drop_first());
        assert(a =~= seq![a[0]] + a.drop_first());
        assert(b =~= seq![b[0]] + b.drop_first());
    } else {
        assert(a =~= b);
    }
}

/// The order of names is a strict total order: no name comes before
/// itself, the order is transitive, and of two different names one comes
/// before the other.
pub proof fn lemma_name_order(a: Seq<char>, b: Seq<char>, c: Seq<char>)
    ensures
        !name_lt(a, a),
        name_lt(a, b) && name_lt(b, c) ==> name_lt(a, c),
        a != b ==> name_lt(a, b) || name_lt(b, a),
        !(name_lt(a, b) && name_lt(b, a)),
{
    lemma_bytes_lt_irreflexive(encode_utf8(a));
    if name_lt(a, b) && name_lt(b, c) {
        lemma_bytes_lt_transitive(encode_utf8(a), encode_utf8(b), encode_utf8(c));
    }
    if name_lt(a, b) && name_lt(b, a) {
        lemma_bytes_lt_transitive(encode_utf8(a), encode_utf8(b), encode_utf8(a));
    }
    if !name_lt(a, b) && !name_lt(b, a) {
        lemma_bytes_lt_total(encode_utf8(a), encode_utf8(b));
        encode_utf8_decode_utf8(a);
        encode_utf8_decode_utf8(b);
    }
}

/// Whether `a` comes before `b` in the order of names.
pub fn precedes(a: &str, b: &str) -> (before: bool)
    ensures
        before == name_lt(a@, b@),
{
    let x = a.as_bytes();
    let y = b.as_bytes();
    let mut i: usize = 0;
    proof {
        assert(x@.skip(0) =~= x@);
        assert(y@.skip(0) =~= y@);
    }
    while i < x.len() && i < y.len()
        invariant
            i <= x.len(),
            i <= y.len(),
            x@ == encode_utf8(a@),
            y@ == encode_utf8(b@),
            bytes_lt(x@, y@) == bytes_lt(x@.skip(i as int), y@.skip(i as int)),
        decreases x.len() - i,
    {
        proof {
            assert(x@.skip(i as int).drop_first() =~= x@.skip(i + 1));
            assert(y@.skip(i as int).drop_first() =~= y@.skip(i + 1));
            assert(x@.skip(i as int)[0] == x@[i as int]);
            assert(y@.skip(i as int)[0] == y@[i as int]);
        }
        if x[i] != y[i] {
            return x[i] < y[i];
        }
        i = i + 1;
    }
    i < y.len()
}

/// The names and addresses behind a list of entries.
pub open spec fn entry_views(entries: Seq<(String, String)>) -> Seq<(Seq<char>, Seq<char>)> {
    entries.map_values(|entry: (String, String)| (entry.0@, entry.1@))
}

/// Each entry's name comes before the names of all entries after it.
pub open spec fn sorted_by_name(listing: Seq<(Seq<char>, Seq<char>)>) -> bool {
    forall|i: int, j: int|
        0 <= i < j < listing.len() ==> name_lt((#[trigger] listing[i]).0, (#[trigger] listing[j]).0)
}

/// Whether an entry of the listing has this name.
pub open spec fn has_name(listing: Seq<(Seq<char>, Seq<char>)>, name: Seq<char>) -> bool {
    exists|i: int| 0 <= i < listing.len() && (#[trigger] listing[i]).0 == name
}

/// Where in the listing the entry of this name stands.
pub open spec fn index_of(listing: Seq<(Seq<char>, Seq<char>)>, name: Seq<char>) -> int {
    choose|i: int| 0 <= i < listing.len() && (#[trigger] listing[i]).0 == name
}

/// The listing as a map from names to addresses.
pub open spec fn as_map(listing: Seq<(Seq<char>, Seq<char>)>) -> Map<Seq<char>, Seq<char>> {
    Map::new(
        |name: Seq<char>| has_name(listing, name),
        |name: Seq<char>| listing[index_of(listing, name)].1,
    )
}

/// In a sorted listing no name occurs twice, so a name stands for one
/// entry.
pub proof fn lemma_sorted_names_are_distinct(listing: Seq<(Seq<char>, Seq<char>)>)
    requires
        sorted_by_name(listing),
    ensures
        forall|i: int, j: int|
            0 <= i < listing.len() && 0 <= j < listing.len() && i != j ==> (#[trigger] listing[i]).0
                != (#[trigger] listing[j]).0,
        forall|i: int|
            0 <= i < listing.len() ==> has_name(listing, (#[trigger] listing[i]).0) && index_of(
                listing,
                listing[i].0,
            ) == i,
{
    assert forall|i: int, j: int|
        0 <= i < listing.len() && 0 <= j < listing.len() && i != j implies (#[trigger] listing[i]).0
        != (#[trigger] listing[j]).0 by {
        lemma_name_order(listing[i].0, listing[j].0, listing[i].0);
        if i < j {
            assert(name_lt(listing[i].0, listing[j].0));
        } else {
            assert(name_lt(listing[j].0, listing[i].0));
        }
    }
}

/// Putting a new name where it belongs keeps the listing sorted and adds
/// exactly that name to the map.
pub proof fn lemma_insert_keeps_order(
    listing: Seq<(Seq<char>, Seq<char>)>,
    at: int,
    name: Seq<char>,
    address: Seq<char>,
)
    requires
        sorted_by_name(listing),
        0 <= at <= listing.len(),
        forall|k: int| 0 <= k < at ==> name_lt((#[trigger] listing[k]).0, name),
        at < listing.len() ==> name_lt(name, listing[at].0),
    ensures
        !has_name(listing, name),
        sorted_by_name(listing.insert(at, (name, address))),
        as_map(listing.insert(at, (name, address))) == as_map(listing).insert(name, address),
{
    let grown = listing.insert(at, (name, address));
    assert forall|k: int| at <= k < listing.len() implies name_lt(
        name,
        (#[trigger] listing[k]).0,
    ) by {
        if k > at {
            lemma_name_order(name, listing[at].0, listing[k].0);
        }
    }
    assert forall|k: int| 0 <= k < listing.len() implies (#[trigger] listing[k]).0 != name by {
        lemma_name_order(name, name, name);
    }
    assert forall|i: int, j: int| 0 <= i < j < grown.len() implies name_lt(
        (#[trigger] grown[i]).0,
        (#[trigger] grown[j]).0,
    ) by {
        let before = if i < at {
            i
        } else {
            i - 1
        };
        let after = if j < at {
            j
        } else {
            j - 1
        };
        if i != at && j != at {
            assert(grown[i] == listing[before]);
            assert(grown[j] == listing[after]);
        } else if i == at {
            assert(grown[j] == listing[after]);
        } else {
            assert(grown[i] == listing[before]);
        }
    }
    lemma_sorted_names_are_distinct(listing);
    lemma_sorted_names_are_distinct(grown);
    assert forall|other: Seq<char>| has_name(grown, other) == (other == name || has_name(
        listing,
        other,
    )) by {
        if has_name(grown, other) {
            let i = index_of(grown, other);
            if i < at {
                assert(listing[i].0 == other);
            } else if i > at {
                assert(listing[i - 1].0 == other);
            }
        }
        if has_name(listing, other) {
            let i = index_of(listing, other);
            if i < at {
                assert(grown[i].0 == other);
            } else {
                assert(grown[i + 1].0 == other);
            }
        }
        if other == name {
            assert(grown[at].0 == other);
        }
    }
    assert forall|other: Seq<char>| has_name(grown, other) implies #[trigger] as_map(grown)[other]
        == as_map(listing).insert(name, address)[other] by {
        if other == name {
            assert(grown[at].0 == name);
        } else {
            let i = index_of(listing, other);
            if i < at {
                assert(grown[i] == listing[i]);
            } else {
                assert(grown[i + 1] == listing[i]);
            }
        }
    }
    assert(as_map(grown) =~= as_map(listing).insert(name, address));
}

/// Giving an entry another address keeps the listing sorted and changes
/// exactly that name in the map.
pub proof fn lemma_update_keeps_order(
    listing: Seq<(Seq<char>, Seq<char>)>,
    at: int,
    address: Seq<char>,
)
    requires
        sorted_by_name(listing),
        0 <= at < listing.len(),
    ensures
        has_name(listing, listing[at].0),
        sorted_by_name(listing.update(at, (listing[at].0, address))),
        as_map(listing.update(at, (listing[at].0, address))) == as_map(listing).insert(
            listing[at].0,
            address,
        ),
{
    let name = listing[at].0;
    let changed = listing.update(at, (name, address));
    assert forall|i: int, j: int| 0 <= i < j < changed.len() implies name_lt(
        (#[trigger] changed[i]).0,
        (#[trigger] changed[j]).0,
    ) by {
        assert(changed[i].0 == listing[i].0);
        assert(changed[j].0 == listing[j].0);
    }
    lemma_sorted_names_are_distinct(listing);
    lemma_sorted_names_are_distinct(changed);
    assert forall|other: Seq<char>| has_name(changed, other) == has_name(listing, other) by {
        if has_name(changed, other) {
            assert(listing[index_of(changed, other)].0 == other);
        }
        if has_name(listing, other) {
            assert(changed[index_of(listing, other)].0 == other);
        }
    }
    assert forall|other: Seq<char>| has_name(changed, other) implies #[trigger] as_map(
        changed,
    )[other] == as_map(listing).insert(name, address)[other] by {
        let i = index_of(listing, other);
        assert(changed[i].0 == other);
    }
    assert(as_map(changed) =~= as_map(listing).insert(name, address));
}

/// Taking an entry out keeps the listing sorted and removes exactly its
/// name from the map.
pub proof fn lemma_remove_keeps_order(listing: Seq<(Seq<char>, Seq<char>)>, at: int)
    requires
        sorted_by_name(listing),
        0 <= at < listing.len(),
    ensures
        sorted_by_name(listing.remove(at)),
        as_map(listing.remove(at)) == as_map(listing).remove(listing[at].0),
        as_map(listing).contains_key(listing[at].0),
        as_map(listing)[listing[at].0] == listing[at].1,
{
    let name = listing[at].0;
    let shrunk = listing.remove(at);
    assert forall|i: int, j: int| 0 <= i < j < shrunk.len() implies name_lt(
        (#[trigger] shrunk[i]).0,
        (#[trigger] shrunk[j]).0,
    ) by {
        let before = if i < at {
            i
        } else {
            i + 1
        };
        let after = if j < at {
            j
        } else {
            j + 1
        };
        assert(shrunk[i] == listing[before]);
        assert(shrunk[j] == listing[after]);
    }
    lemma_sorted_names_are_distinct(listing);
    lemma_sorted_names_are_distinct(shrunk);
    assert forall|other: Seq<char>| has_name(shrunk, other) == (other != name && has_name(
        listing,
        other,
    )) by {
        if has_name(shrunk, other) {
            let i = index_of(shrunk, other);
            if i < at {
                assert(listing[i].0 == other);
            } else {
                assert(listing[i + 1].0 == other);
            }
        }
        if other != name && has_name(listing, other) {
            let i = index_of(listing, other);
            if i < at {
                assert(shrunk[i].0 == other);
            } else {
                assert(shrunk[i - 1].0 == other);
            }
        }
    }
    assert forall|other: Seq<char>| has_name(shrunk, other) implies #[trigger] as_map(
        shrunk,
    )[other] == as_map(listing).remove(name)[other] by {
        let i = index_of(listing, other);
        if i < at {
            assert(shrunk[i] == listing[i]);
        } else {
            assert(shrunk[i - 1] == listing[i]);
        }
    }
    assert(as_map(shrunk) =~= as_map(listing).remove(name));
}

/// The friendly names of a user's devices, each with the address it stands
/// for, in the order of the names.
#[derive(Debug)]
pub struct AliasBook {
    entries: Vec<(String, String)>,
}

impl View for AliasBook {
    type V = Seq<(Seq<char>, Seq<char>)>;

    closed spec fn view(&self) -> Seq<(Seq<char>, Seq<char>)> {
        entry_views(self.entries@)
    }
}

impl AliasBook {
    /// Holds of every alias book that exists: its entries are in the order
    /// of their names.
    #[verifier::type_invariant]
    spec fn inv(self) -> bool {
        sorted_by_name(entry_views(self.entries@))
    }

    /// A book without entries.
    pub fn new() -> (book: AliasBook)
        ensures
            book@ == Seq::<(Seq<char>, Seq<char>)>::empty(),
    {
        let book = AliasBook { entries: Vec::new() };
        assert(book@ =~= Seq::<(Seq<char>, Seq<char>)>::empty());
        book
    }

    /// The number of aliases.
    pub fn len(&self) -> (count: usize)
        ensures
            count == self@.len(),
    {
        self.entries.len()
    }

    /// Whether the book holds no alias.
    pub fn is_empty(&self) -> (empty: bool)
        ensures
            empty == (self@.len() == 0),
    {
        self.entries.len() == 0
    }

    /// The place of the first entry whose name does not come before `name`.
    fn position(&self, name: &str) -> (at: usize)
        ensures
            at <= self@.len(),
            forall|k: int| 0 <= k < at ==> name_lt((#[trigger] self@[k]).0, name@),
            at < self@.len() ==> !name_lt(self@[at as int].0, name@),
    {
        let mut at: usize = 0;
        while at < self.entries.len()
            invariant
                at <= self.entries.len(),
                forall|k: int| 0 <= k < at ==> name_lt((#[trigger] self@[k]).0, name@),
            decreases self.entries.len() - at,
        {
            if !precedes(self.entries[at].0.as_str(), name) {
                return at;
            }
            at = at + 1;
        }
        at
    }

    /// Takes the entries out to be changed, leaving none behind.
    fn take_entries(&mut self) -> (entries: Vec<(String, String)>)
        ensures
            entries == old(self).entries,
            final(self).entries@.len() == 0,
    {
        let mut entries: Vec<(String, String)> = Vec::new();
        proof {
            assert(sorted_by_name(entry_views(entries@)));
        }
        std::mem::swap(&mut self.entries, &mut entries);
        entries
    }

    /// Where `name` stands in the book, or where it would have to be put.
    fn locate(&self, name: &str) -> (place: Result<usize, usize>)
        ensures
            sorted_by_name(self@),
            place is Ok == has_name(self@, name@),
            place matches Ok(at) ==> at < self@.len() && self@[at as int].0 == name@ && index_of(
                self@,
                name@,
            ) == at,
            place matches Err(at) ==> {
                &&& at <= self@.len()
                &&& forall|k: int| 0 <= k < at ==> name_lt((#[trigger] self@[k]).0, name@)
                &&& at < self@.len() ==> name_lt(name@, self@[at as int].0)
            },
    {
        proof {
            use_type_invariant(self);
            lemma_sorted_names_are_distinct(self@);
        }
        let at = self.position(name);
        if at < self.entries.len() && !precedes(name, self.entries[at].0.as_str()) {
            proof {
                lemma_name_order(self@[at as int].0, name@, name@);
            }
            Ok(at)
        } else {
            proof {
                if at < self@.len() {
                    lemma_name_order(self@[at as int].0, name@, name@);
                }
                lemma_insert_keeps_order(self@, at as int, name@, Seq::empty());
            }
            Err(at)
        }
    }

    /// Whether the book holds an alias of this name.
    pub fn contains(&self, name: &str) -> (held: bool)
        ensures
            held == as_map(self@).contains_key(name@),
    {
        self.locate(name).is_ok()
    }

    /// The address an alias stands for.
    pub fn get(&self, name: &str) -> (address: Option<String>)
        ensures
            address is Some == as_map(self@).contains_key(name@),
            address matches Some(found) ==> found@ == as_map(self@)[name@],
    {
        match self.locate(name) {
            Ok(at) => Some(self.entries[at].1.clone()),
            Err(_) => None,
        }
    }

    /// Lets `name` stand for `address`, whether or not it stood for
    /// another before. Says whether it did.
    pub fn insert(&mut self, name: String, address: String) -> (was_update: bool)
        ensures
            was_update == as_map(old(self)@).contains_key(name@),
            as_map(final(self)@) == as_map(old(self)@).insert(name@, address@),
            sorted_by_name(final(self)@),
            final(self)@.len() == old(self)@.len() + if was_update {
                0int
            } else {
                1int
            },
    {
        match self.locate(name.as_str()) {
            Ok(at) => {
                proof {
                    lemma_update_keeps_order(self@, at as int, address@);
                    assert(entry_views(self.entries@.update(at as int, (name, address)))
                        =~= self@.update(at as int, (name@, address@)));
                }
                let mut entries = self.take_entries();
                entries.set(at, (name, address));
                self.entries = entries;
                true
            },
            Err(at) => {
                proof {
                    lemma_insert_keeps_order(self@, at as int, name@, address@);
                    assert(entry_views(self.entries@.insert(at as int, (name, address)))
                        =~= self@.insert(at as int, (name@, address@)));
                }
                let mut entries = self.take_entries();
                entries.insert(at, (name, address));
                self.entries = entries;
                false
            },
        }
    }

    /// Forgets the alias `name` and hands back the address it stood for, if
    /// there was such an alias.
    pub fn remove(&mut self, name: &str) -> (address: Option<String>)
        ensures
            address is Some == as_map(old(self)@).contains_key(name@),
            address matches Some(found) ==> found@ == as_map(old(self)@)[name@],
            address is None ==> final(self)@ == old(self)@,
            as_map(final(self)@) == as_map(old(self)@).remove(name@),
            sorted_by_name(final(self)@),
            final(self)@.len() == old(self)@.len() - if address is Some {
                1int
            } else {
                0int
            },
    {
        match self.locate(name) {
            Ok(at) => {
                proof {
                    lemma_remove_keeps_order(self@, at as int);
                    assert(entry_views(self.entries@.remove(at as int)) =~= self@.remove(
                        at as int,
                    ));
                }
                let mut entries = self.take_entries();
                let entry = entries.remove(at);
                self.entries = entries;
                Some(entry.1)
            },
            Err(_) => {
                proof {
                    assert(as_map(self@) =~= as_map(self@).remove(name@));
                }
                None
            },
        }
    }

    /// All aliases with their addresses, in the order of the names.
    pub fn entries(&self) -> (listing: Vec<(String, String)>)
        ensures
            entry_views(listing@) == self@,
            sorted_by_name(self@),
    {
        proof {
            use_type_invariant(self);
        }
        let mut listing: Vec<(String, String)> = Vec::new();
        let mut i: usize = 0;
        while i < self.entries.len()
            invariant
                i <= self.entries.len(),
                entry_views(listing@) == self@.take(i as int),
            decreases self.entries.len() - i,
        {
            let ghost earlier = listing@;
            let name = self.entries[i].0.clone();
            let address = self.entries[i].1.clone();
            listing.push((name, address));
            proof {
                assert(listing@ == earlier.push((name, address)));
                assert(entry_views(listing@) =~= entry_views(earlier).push((name@, address@)));
                assert(self@[i as int] == (name@, address@));
                assert(self@.take(i + 1) =~= self@.take(i as int).push(self@[i as int]));
            }
            i = i + 1;
        }
        proof {
            assert(self@.take(i as int) =~= self@);
        }
        listing
    }
}

/// The map that a list of pairs builds up when each pair in turn lets its
/// name stand for its address: where a name occurs twice, the later pair
/// decides.
pub open spec fn map_of_pairs(pairs: Seq<(String, String)>) -> Map<Seq<char>, Seq<char>>
    decreases pairs.len(),
{
    if pairs.len() == 0 {
        Map::empty()
    } else {
        map_of_pairs(pairs.drop_last()).insert(pairs.last().0@, pairs.last().1@)
    }
}

/// Builds a book from pairs of a name and an address.
pub fn book_of_pairs(pairs: &Vec<(String, String)>) -> (book: AliasBook)
    ensures
        as_map(book@) == map_of_pairs(pairs@),
        sorted_by_name(book@),
{
    let mut book = AliasBook::new();
    proof {
        assert(as_map(book@) =~= Map::<Seq<char>, Seq<char>>::empty());
        assert(pairs@.take(0) =~= Seq::<(String, String)>::empty());
    }
    let mut i: usize = 0;
    while i < pairs.len()
        invariant
            i <= pairs.len(),
            as_map(book@) == map_of_pairs(pairs@.take(i as int)),
            sorted_by_name(book@),
        decreases pairs.len() - i,
    {
        proof {
            assert(pairs@.take(i + 1).drop_last() =~= pairs@.take(i as int));
            assert(pairs@.take(i + 1).last() == pairs@[i as int]);
        }
        book.insert(pairs[i].0.clone(), pairs[i].1.clone());
        i = i + 1;
    }
    proof {
        assert(pairs@.take(i as int) =~= pairs@);
    }
    book
}

/// What the user asks of the alias book.
#[derive(Debug)]
pub enum AliasAction {
    /// List all aliases.
    List,
    /// Let a name stand for an address.
    Assign { name: String, address: String },
    /// Forget a name.
    Remove { name: String },
}

/// Why the alias book refused.
#[derive(Debug)]
pub enum AliasError {
    /// The name offered looks like an address, which would make it
    /// impossible to tell the two apart.
    LooksLikeAddress { name: String },
    /// There is no alias of this name to forget.
    NotFound { name: String },
}

/// What the alias book did: whether it has changed and is to be saved, and
/// what to tell the user.
#[derive(Debug)]
pub struct AliasOutcome {
    pub changed: bool,
    pub lines: Vec<String>,
}

impl AliasError {
    /// The text shown to the user.
    pub open spec fn text(self) -> Seq<char> {
        match self {
            AliasError::LooksLikeAddress { name } => "Alias name '"@ + name@
                + "' looks like a device address. Use a friendly name instead (e.g., 'living-room', 'office')."@,
            AliasError::NotFound { name } => "Alias '"@ + name@ + "' not found"@,
        }
    }

    /// The text shown to the user.
    pub fn message(&self) -> (text: String)
        ensures
            text@ == self.text(),
    {
        match self {
            AliasError::LooksLikeAddress { name } => {
                let mut text = String::from_str("Alias name '");
                text.append(name.as_str());
                text.append(
                    "' looks like a device address. Use a friendly name instead (e.g., 'living-room', 'office').",
                );
                text
            },
            AliasError::NotFound { name } => {
                let mut text = String::from_str("Alias '");
                text.append(name.as_str());
                text.append("' not found");
                text
            },
        }
    }
}

/// The line that shows one alias in a listing.
pub open spec fn entry_line(entry: (Seq<char>, Seq<char>)) -> Seq<char> {
    "  "@ + entry.0 + " \u{2192} "@ + entry.1
}

/// What a listing shows: a heading and one line per alias, in the order of
/// the names. An empty book says so and how to fill it, unless the user
/// asked for quiet.
pub open spec fn listing_text(listing: Seq<(Seq<char>, Seq<char>)>, quiet: bool) -> Seq<Seq<char>> {
    if listing.len() == 0 {
        if quiet {
            Seq::empty()
        } else {
            seq![
                "No aliases configured."@,
                ""@,
                "Add an alias with: aranet alias set <name> <address>"@,
            ]
        }
    } else {
        seq!["Device Aliases:"@, RULE@] + listing.map_values(
            |entry: (Seq<char>, Seq<char>)| entry_line(entry),
        )
    }
}

/// What is said once a name stands for an address.
pub open spec fn set_text(name: Seq<char>, address: Seq<char>, was_update: bool) -> Seq<char> {
    (if was_update {
        "Updated alias '"@
    } else {
        "Added alias '"@
    }) + name + "' \u{2192} "@ + address
}

/// What is said once a name has been forgotten.
pub open spec fn removed_text(name: Seq<char>) -> Seq<char> {
    "Removed alias '"@ + name + "'"@
}

/// One line, or none where the user asked for quiet.
pub open spec fn unless_quiet(line: Seq<char>, quiet: bool) -> Seq<Seq<char>> {
    if quiet {
        Seq::empty()
    } else {
        seq![line]
    }
}

impl AliasBook {
    /// Writes the listing of the book.
    pub fn listing(&self, quiet: bool) -> (lines: Vec<String>)
        ensures
            views(lines@) == listing_text(self@, quiet),
            sorted_by_name(self@),
    {
        proof {
            use_type_invariant(self);
        }
        let mut lines: Vec<String> = Vec::new();
        if self.entries.len() == 0 {
            if !quiet {
                push_line(&mut lines, "No aliases configured.");
                push_line(&mut lines, "");
                push_line(&mut lines, "Add an alias with: aranet alias set <name> <address>");
            }
            assert(views(lines@) =~= listing_text(self@, quiet));
        } else {
            push_line(&mut lines, "Device Aliases:");
            push_line(&mut lines, RULE);
            let ghost heading = views(lines@);
            let mut i: usize = 0;
            while i < self.entries.len()
                invariant
                    i <= self.entries.len(),
                    views(lines@) == heading + self@.take(i as int).map_values(
                        |entry: (Seq<char>, Seq<char>)| entry_line(entry),
                    ),
                decreases self.entries.len() - i,
            {
                let mut line = String::from_str("  ");
                line.append(self.entries[i].0.as_str());
                line.append(" \u{2192} ");
                line.append(self.entries[i].1.as_str());
                push_owned_line(&mut lines, line);
                proof {
                    assert(self@[i as int] == (self.entries@[i as int].0@, self.entries@[i as int].1@));
                    assert(self@.take(i + 1) =~= self@.take(i as int).push(self@[i as int]));
                    assert(self@.take(i + 1).map_values(
                        |entry: (Seq<char>, Seq<char>)| entry_line(entry),
                    ) =~= self@.take(i as int).map_values(
                        |entry: (Seq<char>, Seq<char>)| entry_line(entry),
                    ).push(entry_line(self@[i as int])));
                }
                i = i + 1;
            }
            proof {
                assert(self@.take(i as int) =~= self@);
            }
            assert(views(lines@) =~= listing_text(self@, quiet));
        }
        lines
    }

    /// Does what the user asks. A listing changes nothing. A name that looks
    /// like an address is refused, any other is made to stand for the
    /// address given, whether it is new or not. A name can only be forgotten
    /// if it is known. Where the book has changed the outcome says so, and
    /// the lines are those to show once it has been saved.
    pub fn apply(&mut self, action: AliasAction, quiet: bool) -> (result: Result<
        AliasOutcome,
        AliasError,
    >)
        ensures
            sorted_by_name(final(self)@),
            result is Err ==> final(self)@ == old(self)@,
            match action {
                AliasAction::List => {
                    &&& final(self)@ == old(self)@
                    &&& result matches Ok(outcome)
                    &&& !outcome.changed
                    &&& views(outcome.lines@) == listing_text(old(self)@, quiet)
                },
                AliasAction::Assign { name, address } => if address_like(name@) {
                    result == Err::<AliasOutcome, _>(AliasError::LooksLikeAddress { name })
                } else {
                    &&& as_map(final(self)@) == as_map(old(self)@).insert(name@, address@)
                    &&& result matches Ok(outcome)
                    &&& outcome.changed
                    &&& views(outcome.lines@) == unless_quiet(
                        set_text(name@, address@, as_map(old(self)@).contains_key(name@)),
                        quiet,
                    )
                },
                AliasAction::Remove { name } => if as_map(old(self)@).contains_key(name@) {
                    &&& as_map(final(self)@) == as_map(old(self)@).remove(name@)
                    &&& result matches Ok(outcome)
                    &&& outcome.changed
                    &&& views(outcome.lines@) == unless_quiet(removed_text(name@), quiet)
                } else {
                    result == Err::<AliasOutcome, _>(AliasError::NotFound { name })
                },
            },
    {
        proof {
            use_type_invariant(&*self);
        }
        match action {
            AliasAction::List => Ok(AliasOutcome { changed: false, lines: self.listing(quiet) }),
            AliasAction::Assign { name, address } => {
                if looks_like_address(name.as_str()) {
                    return Err(AliasError::LooksLikeAddress { name });
                }
                let was_update = self.contains(name.as_str());
                let mut lines: Vec<String> = Vec::new();
                if !quiet {
                    let mut line = String::from_str(
                        if was_update {
                            "Updated alias '"
                        } else {
                            "Added alias '"
                        },
                    );
                    line.append(name.as_str());
                    line.append("' \u{2192} ");
                    line.append(address.as_str());
                    push_owned_line(&mut lines, line);
                }
                assert(views(lines@) =~= unless_quiet(
                    set_text(name@, address@, was_update),
                    quiet,
                ));
                self.insert(name, address);
                Ok(AliasOutcome { changed: true, lines })
            },
            AliasAction::Remove { name } => {
                match self.remove(name.as_str()) {
                    Some(_) => {
                        let mut lines: Vec<String> = Vec::new();
                        if !quiet {
                            let mut line = String::from_str("Removed alias '");
                            line.append(name.as_str());
                            line.append("'");
                            push_owned_line(&mut lines, line);
                        }
                        assert(views(lines@) =~= unless_quiet(removed_text(name@), quiet));
                        Ok(AliasOutcome { changed: true, lines })
                    },
                    None => Err(AliasError::NotFound { name }),
                }
            },
        }
    }
}

} // verus!
