//! The headers of a request: texts by name, each name once, in the order of
//! names.
use crate::text::{precedes, same_text, text_precedes};
use vstd::prelude::*;

verus! {

/// Header lines, ordered by name.
#[derive(Debug)]
pub struct Headers {
    /// Name and text of each header.
    pub entries: Vec<(String, String)>,
}

/// The names and texts of header lines.
pub open spec fn header_pairs(entries: Seq<(String, String)>) -> Seq<(Seq<char>, Seq<char>)> {
    entries.map_values(|entry: (String, String)| (entry.0@, entry.1@))
}

/// Whether each name stands before all that follow it.
pub open spec fn in_name_order(pairs: Seq<(Seq<char>, Seq<char>)>) -> bool {
    forall|i: int, j: int|
        0 <= i < j < pairs.len() ==> precedes(#[trigger] pairs[i].0, #[trigger] pairs[j].0)
}

/// Whether the line at `i` has that name.
pub open spec fn named_at(pairs: Seq<(Seq<char>, Seq<char>)>, name: Seq<char>, i: int) -> bool {
    0 <= i < pairs.len() && pairs[i].0 == name
}

/// The lines as a map from name to text.
pub open spec fn header_map(pairs: Seq<(Seq<char>, Seq<char>)>) -> Map<Seq<char>, Seq<char>> {
    Map::new(
        |name: Seq<char>| exists|i: int| named_at(pairs, name, i),
        |name: Seq<char>| pairs[choose|i: int| named_at(pairs, name, i)].1,
    )
}

impl View for Headers {
    type V = Map<Seq<char>, Seq<char>>;

    open spec fn view(&self) -> Map<Seq<char>, Seq<char>> {
        header_map(header_pairs(self.entries@))
    }
}

/// In ordered lines a name has one place, and the map holds the text there.
pub(crate) proof fn lemma_lookup(pairs: Seq<(Seq<char>, Seq<char>)>, i: int)
    requires
        in_name_order(pairs),
        0 <= i < pairs.len(),
    ensures
        header_map(pairs).contains_key(pairs[i].0),
        header_map(pairs)[pairs[i].0] == pairs[i].1,
        forall|j: int| named_at(pairs, pairs[i].0, j) ==> j == i,
{
    let name = pairs[i].0;
    assert(named_at(pairs, name, i));
    assert forall|j: int| named_at(pairs, name, j) implies j == i by {
        crate::text::lemma_precedes_irreflexive(name);
        if j < i {
            assert(precedes(pairs[j].0, pairs[i].0));
        } else if i < j {
            assert(precedes(pairs[i].0, pairs[j].0));
        }
    }
}

/// A line put in its place among ordered lines keeps the order and adds its
/// name to the map.
proof fn lemma_insert_line(pairs: Seq<(Seq<char>, Seq<char>)>, at: int, line: (Seq<char>, Seq<char>))
    requires
        in_name_order(pairs),
        0 <= at <= pairs.len(),
        forall|i: int| 0 <= i < at ==> precedes(#[trigger] pairs[i].0, line.0),
        at < pairs.len() ==> precedes(line.0, pairs[at].0),
    ensures
        in_name_order(pairs.insert(at, line)),
        header_map(pairs.insert(at, line)) == header_map(pairs).insert(line.0, line.1),
{
    let after = pairs.insert(at, line);
    assert forall|i: int, j: int| 0 <= i < j < after.len() implies precedes(
        #[trigger] after[i].0,
        #[trigger] after[j].0,
    ) by {
        if i == at {
            assert(after[j] == pairs[j - 1]);
            if j - 1 > at {
                assert(precedes(pairs[at].0, pairs[j - 1].0));
                crate::text::lemma_precedes_transitive(line.0, pairs[at].0, pairs[j - 1].0);
            }
        } else if j == at {
            assert(after[i] == pairs[i]);
        } else {
            let x = if i < at { i } else { i - 1 };
            let y = if j < at { j } else { j - 1 };
            assert(precedes(pairs[x].0, pairs[y].0));
        }
    }
    let left = header_map(after);
    let right = header_map(pairs).insert(line.0, line.1);
    assert forall|name: Seq<char>| left.contains_key(name) <==> right.contains_key(name) by {
        if left.contains_key(name) {
            let k = choose|k: int| named_at(after, name, k);
            if k != at {
                assert(named_at(pairs, name, if k < at { k } else { k - 1 }));
            }
        }
        if right.contains_key(name) {
            if name == line.0 {
                assert(named_at(after, name, at));
            } else {
                let k = choose|k: int| named_at(pairs, name, k);
                assert(named_at(after, name, if k < at { k } else { k + 1 }));
            }
        }
    }
    assert forall|name: Seq<char>| left.contains_key(name) implies left[name] == right[name] by {
        let k = choose|k: int| named_at(after, name, k);
        lemma_lookup(after, k);
        if k == at {
            assert(name == line.0);
        } else {
            let x = if k < at { k } else { k - 1 };
            lemma_lookup(pairs, x);
            crate::text::lemma_precedes_irreflexive(name);
            if k < at {
                assert(precedes(after[k].0, after[at].0));
            } else {
                assert(precedes(after[at].0, after[k].0));
            }
        }
    }
    assert(left =~= right);
}

/// A line that takes the place of one with its name changes the text of that
/// name.
proof fn lemma_replace_line(
    pairs: Seq<(Seq<char>, Seq<char>)>,
    at: int,
    line: (Seq<char>, Seq<char>),
)
    requires
        in_name_order(pairs),
        0 <= at < pairs.len(),
        pairs[at].0 == line.0,
    ensures
        in_name_order(pairs.update(at, line)),
        header_map(pairs.update(at, line)) == header_map(pairs).insert(line.0, line.1),
{
    let after = pairs.update(at, line);
    assert(forall|i: int| 0 <= i < after.len() ==> #[trigger] after[i].0 == pairs[i].0);
    let left = header_map(after);
    let right = header_map(pairs).insert(line.0, line.1);
    assert forall|name: Seq<char>| left.contains_key(name) <==> right.contains_key(name) by {
        if left.contains_key(name) {
            let k = choose|k: int| named_at(after, name, k);
            assert(named_at(pairs, name, k));
        }
        if right.contains_key(name) {
            if name == line.0 {
                assert(named_at(after, name, at));
            } else {
                let k = choose|k: int| named_at(pairs, name, k);
                assert(named_at(after, name, k));
            }
        }
    }
    assert forall|name: Seq<char>| left.contains_key(name) implies left[name] == right[name] by {
        let k = choose|k: int| named_at(after, name, k);
        lemma_lookup(after, k);
        lemma_lookup(pairs, k);
        if name == line.0 {
            assert(named_at(after, name, at));
        }
    }
    assert(left =~= right);
}

impl Headers {
    /// Whether the lines are in the order of their names, so that none occurs
    /// twice.
    pub open spec fn well_formed(&self) -> bool {
        in_name_order(header_pairs(self.entries@))
    }

    /// No headers.
    pub fn new() -> (headers: Headers)
        ensures
            headers.well_formed(),
            headers@ == Map::<Seq<char>, Seq<char>>::empty(),
    {
        let headers = Headers { entries: Vec::new() };
        proof {
            assert forall|name: Seq<char>| !headers@.contains_key(name) by {
                assert(forall|i: int| !named_at(header_pairs(headers.entries@), name, i));
            }
            assert(headers@ =~= Map::<Seq<char>, Seq<char>>::empty());
        }
        headers
    }

    /// Gives `name` the text `value`, in place of any that it had.
    pub fn insert(&mut self, name: String, value: String)
        requires
            old(self).well_formed(),
        ensures
            final(self).well_formed(),
            final(self)@ == old(self)@.insert(name@, value@),
    {
        let ghost pairs = header_pairs(self.entries@);
        let ghost line = (name@, value@);
        let mut at: usize = 0;
        while at < self.entries.len() && text_precedes(self.entries[at].0.as_str(), name.as_str())
            invariant
                at <= self.entries@.len(),
                pairs == header_pairs(self.entries@),
                line == (name@, value@),
                forall|i: int| 0 <= i < at ==> precedes(#[trigger] pairs[i].0, line.0),
            decreases self.entries@.len() - at,
        {
            assert(pairs[at as int].0 == self.entries@[at as int].0@);
            at += 1;
        }
        let ghost before = self.entries@;
        if at < self.entries.len() && same_text(self.entries[at].0.as_str(), name.as_str()) {
            assert(pairs[at as int].0 == self.entries@[at as int].0@);
            self.entries[at] = (name, value);
            proof {
                lemma_replace_line(pairs, at as int, line);
                assert(header_pairs(self.entries@) =~= pairs.update(at as int, line));
            }
        } else {
            proof {
                if at < before.len() {
                    assert(pairs[at as int].0 == before[at as int].0@);
                    crate::text::lemma_precedes_total(pairs[at as int].0, name@);
                }
            }
            self.entries.insert(at, (name, value));
            proof {
                lemma_insert_line(pairs, at as int, line);
                assert(header_pairs(self.entries@) =~= pairs.insert(at as int, line));
            }
        }
    }

    /// The text of `name`, if there is one.
    pub fn get(&self, name: &str) -> (value: Option<&String>)
        requires
            self.well_formed(),
        ensures
            match value {
                Some(value) => self@.contains_pair(name@, value@),
                None => !self@.contains_key(name@),
            },
    {
        let ghost pairs = header_pairs(self.entries@);
        let mut i: usize = 0;
        while i < self.entries.len()
            invariant
                i <= self.entries@.len(),
                self.well_formed(),
                pairs == header_pairs(self.entries@),
                forall|k: int| 0 <= k < i ==> #[trigger] pairs[k].0 != name@,
            decreases self.entries@.len() - i,
        {
            assert(pairs[i as int] == (self.entries@[i as int].0@, self.entries@[i as int].1@));
            if same_text(self.entries[i].0.as_str(), name) {
                proof {
                    lemma_lookup(pairs, i as int);
                }
                return Some(&self.entries[i].1);
            }
            i += 1;
        }
        assert(forall|k: int| !named_at(pairs, name@, k));
        None
    }
}

} // verus!
