//! Property sequences kept in strictly ascending name order, and the map from
//! names to properties that such a sequence stands for.

use vstd::prelude::*;

use crate::property::Property;
use crate::text::lemma_seq_lt_asymmetric;
use crate::text::lemma_seq_lt_irreflexive;
use crate::text::lemma_seq_lt_transitive;
use crate::text::seq_lt;

verus! {

/// The names of `s` strictly ascend, so no name occurs twice.
pub open spec fn names_ascending(s: Seq<Property>) -> bool {
    forall|i: int, j: int|
        0 <= i < j < s.len() ==> seq_lt(#[trigger] s[i].spec_name(), #[trigger] s[j].spec_name())
}

/// Some property of `s` is named `name`.
pub open spec fn has_name(s: Seq<Property>, name: Seq<char>) -> bool {
    exists|i: int| 0 <= i < s.len() && #[trigger] s[i].spec_name() == name
}

/// A position of `s` that holds a property named `name`, when there is one.
pub open spec fn index_of_name(s: Seq<Property>, name: Seq<char>) -> int {
    choose|i: int| 0 <= i < s.len() && #[trigger] s[i].spec_name() == name
}

/// The map from each name in `s` to the property of that name.
pub open spec fn property_map(s: Seq<Property>) -> Map<Seq<char>, Property> {
    Map::new(|k: Seq<char>| has_name(s, k), |k: Seq<char>| s[index_of_name(s, k)])
}

/// The names of `s`, in order.
pub open spec fn names_of(s: Seq<Property>) -> Seq<Seq<char>> {
    s.map_values(|p: Property| p.spec_name())
}

/// In an ascending sequence, a name fixes its position.
pub proof fn lemma_names_distinct(s: Seq<Property>, i: int, j: int)
    requires
        names_ascending(s),
        0 <= i < s.len(),
        0 <= j < s.len(),
        s[i].spec_name() == s[j].spec_name(),
    ensures
        i == j,
{
    lemma_seq_lt_irreflexive(s[i].spec_name());
    if i < j {
        assert(seq_lt(s[i].spec_name(), s[j].spec_name()));
    } else if j < i {
        assert(seq_lt(s[j].spec_name(), s[i].spec_name()));
    }
}

/// The map sends the name at each position to the property there.
pub proof fn lemma_map_at(s: Seq<Property>, i: int)
    requires
        names_ascending(s),
        0 <= i < s.len(),
    ensures
        property_map(s).contains_key(s[i].spec_name()),
        property_map(s)[s[i].spec_name()] == s[i],
{
    let k = s[i].spec_name();
    assert(has_name(s, k));
    let j = index_of_name(s, k);
    lemma_names_distinct(s, i, j);
}

/// Each property of the map sits under its own name, and the map is finite
/// with one entry per position.
pub proof fn lemma_map_shape(s: Seq<Property>)
    requires
        names_ascending(s),
    ensures
        forall|k: Seq<char>| #[trigger]
            property_map(s).contains_key(k) ==> property_map(s)[k].spec_name() == k,
        property_map(s).dom() == names_of(s).to_set(),
        property_map(s).dom().finite(),
        property_map(s).dom().len() == s.len(),
{
    let names = names_of(s);
    assert forall|k: Seq<char>| #[trigger] property_map(s).contains_key(k) implies property_map(
        s,
    )[k].spec_name() == k by {
        let i = index_of_name(s, k);
        lemma_map_at(s, i);
    }
    assert forall|k: Seq<char>| property_map(s).dom().contains(k) <==> names.to_set().contains(k) by {
        if property_map(s).dom().contains(k) {
            let i = index_of_name(s, k);
            assert(names[i] == k);
        }
        if names.to_set().contains(k) {
            let i = choose|i: int| 0 <= i < names.len() && names[i] == k;
            assert(s[i].spec_name() == k);
        }
    }
    assert(property_map(s).dom() =~= names.to_set());
    assert forall|i: int, j: int| 0 <= i < names.len() && 0 <= j < names.len() && i != j implies names[i]
        != names[j] by {
        if names[i] == names[j] {
            lemma_names_distinct(s, i, j);
        }
    }
    assert(names.no_duplicates());
    names.unique_seq_to_set();
}

/// The empty sequence stands for the empty map.
pub proof fn lemma_map_empty(s: Seq<Property>)
    requires
        s.len() == 0,
    ensures
        names_ascending(s),
        property_map(s) == Map::<Seq<char>, Property>::empty(),
{
    assert(property_map(s) =~= Map::<Seq<char>, Property>::empty());
}

/// Inserting a property at the position where its name belongs keeps the
/// names ascending and adds the property to the map.
pub proof fn lemma_map_insert(s: Seq<Property>, pos: int, p: Property)
    requires
        names_ascending(s),
        0 <= pos <= s.len(),
        forall|j: int| 0 <= j < pos ==> seq_lt(#[trigger] s[j].spec_name(), p.spec_name()),
        forall|j: int| pos <= j < s.len() ==> seq_lt(p.spec_name(), #[trigger] s[j].spec_name()),
    ensures
        names_ascending(s.insert(pos, p)),
        property_map(s.insert(pos, p)) == property_map(s).insert(p.spec_name(), p),
{
    let t = s.insert(pos, p);
    assert forall|i: int, j: int| 0 <= i < j < t.len() implies seq_lt(
        #[trigger] t[i].spec_name(),
        #[trigger] t[j].spec_name(),
    ) by {
        if j < pos {
        } else if j == pos {
        } else if i < pos {
            assert(seq_lt(s[i].spec_name(), p.spec_name()));
            assert(seq_lt(p.spec_name(), s[j - 1].spec_name()));
            lemma_seq_lt_transitive(s[i].spec_name(), p.spec_name(), s[j - 1].spec_name());
        } else if i == pos {
        } else {
            assert(t[i] == s[i - 1]);
            assert(t[j] == s[j - 1]);
        }
    }
    let m = property_map(s).insert(p.spec_name(), p);
    assert forall|k: Seq<char>| property_map(t).contains_key(k) <==> m.contains_key(k) by {
        if has_name(t, k) {
            let i = index_of_name(t, k);
            if i < pos {
                assert(s[i].spec_name() == k);
            } else if i > pos {
                assert(s[i - 1].spec_name() == k);
            }
        }
        if has_name(s, k) {
            let i = index_of_name(s, k);
            if i < pos {
                assert(t[i].spec_name() == k);
            } else {
                assert(t[i + 1].spec_name() == k);
            }
        }
        if k == p.spec_name() {
            assert(t[pos].spec_name() == k);
        }
    }
    assert forall|k: Seq<char>| #[trigger] property_map(t).contains_key(k) implies property_map(t)[k]
        == m[k] by {
        if k == p.spec_name() {
            lemma_map_at(t, pos);
        } else {
            let i = index_of_name(s, k);
            lemma_map_at(s, i);
            if i < pos {
                lemma_map_at(t, i);
            } else {
                lemma_map_at(t, i + 1);
            }
        }
    }
    assert(property_map(t) =~= m);
}

/// Replacing a property by one of the same name keeps the names ascending and
/// replaces the map entry.
pub proof fn lemma_map_update(s: Seq<Property>, pos: int, p: Property)
    requires
        names_ascending(s),
        0 <= pos < s.len(),
        s[pos].spec_name() == p.spec_name(),
    ensures
        names_ascending(s.update(pos, p)),
        property_map(s.update(pos, p)) == property_map(s).insert(p.spec_name(), p),
{
    let t = s.update(pos, p);
    assert forall|i: int, j: int| 0 <= i < j < t.len() implies seq_lt(
        #[trigger] t[i].spec_name(),
        #[trigger] t[j].spec_name(),
    ) by {
        assert(t[i].spec_name() == s[i].spec_name());
        assert(t[j].spec_name() == s[j].spec_name());
    }
    let m = property_map(s).insert(p.spec_name(), p);
    assert forall|k: Seq<char>| property_map(t).contains_key(k) <==> m.contains_key(k) by {
        if has_name(t, k) {
            let i = index_of_name(t, k);
            assert(s[i].spec_name() == k);
        }
        if has_name(s, k) {
            let i = index_of_name(s, k);
            assert(t[i].spec_name() == k);
        }
        if k == p.spec_name() {
            assert(t[pos].spec_name() == k);
        }
    }
    assert forall|k: Seq<char>| #[trigger] property_map(t).contains_key(k) implies property_map(t)[k]
        == m[k] by {
        if k == p.spec_name() {
            lemma_map_at(t, pos);
        } else {
            let i = index_of_name(s, k);
            lemma_map_at(s, i);
            lemma_map_at(t, i);
        }
    }
    assert(property_map(t) =~= m);
}

/// Removing the property at a position keeps the names ascending and removes
/// its name from the map.
pub proof fn lemma_map_remove(s: Seq<Property>, pos: int)
    requires
        names_ascending(s),
        0 <= pos < s.len(),
    ensures
        names_ascending(s.remove(pos)),
        property_map(s.remove(pos)) == property_map(s).remove(s[pos].spec_name()),
{
    let t = s.remove(pos);
    let gone = s[pos].spec_name();
    assert forall|i: int, j: int| 0 <= i < j < t.len() implies seq_lt(
        #[trigger] t[i].spec_name(),
        #[trigger] t[j].spec_name(),
    ) by {
        if j < pos {
        } else if i < pos {
            assert(t[j] == s[j + 1]);
        } else {
            assert(t[i] == s[i + 1]);
            assert(t[j] == s[j + 1]);
        }
    }
    let m = property_map(s).remove(gone);
    assert forall|k: Seq<char>| property_map(t).contains_key(k) <==> m.contains_key(k) by {
        if has_name(t, k) {
            let i = index_of_name(t, k);
            if i < pos {
                assert(s[i].spec_name() == k);
                if k == gone {
                    lemma_names_distinct(s, i, pos);
                }
            } else {
                assert(s[i + 1].spec_name() == k);
                if k == gone {
                    lemma_names_distinct(s, i + 1, pos);
                }
            }
        }
        if has_name(s, k) && k != gone {
            let i = index_of_name(s, k);
            if i < pos {
                assert(t[i].spec_name() == k);
            } else {
                assert(i != pos);
                assert(t[i - 1].spec_name() == k);
            }
        }
    }
    assert forall|k: Seq<char>| #[trigger] property_map(t).contains_key(k) implies property_map(t)[k]
        == m[k] by {
        assert(m.contains_key(k));
        assert(has_name(s, k));
        let i = index_of_name(s, k);
        assert(s[i].spec_name() == k);
        lemma_map_at(s, i);
        if i < pos {
            lemma_map_at(t, i);
        } else {
            assert(i != pos);
            lemma_map_at(t, i - 1);
        }
    }
    assert(property_map(t) =~= m);
}

/// A name that precedes every name of an ascending sequence, or follows
/// every one, is not in its map; and so is any name strictly between two
/// neighbours.
pub proof fn lemma_absent_between(s: Seq<Property>, pos: int, k: Seq<char>)
    requires
        names_ascending(s),
        0 <= pos <= s.len(),
        forall|j: int| 0 <= j < pos ==> seq_lt(#[trigger] s[j].spec_name(), k),
        forall|j: int| pos <= j < s.len() ==> seq_lt(k, #[trigger] s[j].spec_name()),
    ensures
        !property_map(s).contains_key(k),
{
    if has_name(s, k) {
        let i = index_of_name(s, k);
        lemma_seq_lt_irreflexive(k);
        if i < pos {
            assert(seq_lt(s[i].spec_name(), k));
        } else {
            assert(seq_lt(k, s[i].spec_name()));
        }
    }
}

/// Within an ascending sequence, every name before position `i` precedes
/// the name at `i`, and every one after it follows it.
pub proof fn lemma_ascending_sides(s: Seq<Property>, i: int)
    requires
        names_ascending(s),
        0 <= i < s.len(),
    ensures
        forall|j: int| 0 <= j < i ==> seq_lt(#[trigger] s[j].spec_name(), s[i].spec_name()),
        forall|j: int| i < j < s.len() ==> seq_lt(s[i].spec_name(), #[trigger] s[j].spec_name()),
        forall|j: int| 0 <= j < s.len() && j != i ==> s[j].spec_name() != s[i].spec_name(),
{
    assert forall|j: int| 0 <= j < s.len() && j != i implies s[j].spec_name()
        != s[i].spec_name() by {
        if s[j].spec_name() == s[i].spec_name() {
            lemma_names_distinct(s, i, j);
        }
    }
    assert forall|j: int| 0 <= j < i implies !seq_lt(s[i].spec_name(), #[trigger] s[j].spec_name()) by {
        lemma_seq_lt_asymmetric(s[j].spec_name(), s[i].spec_name());
    }
}

/// Extending a prefix of an ascending sequence by its next property adds
/// that property to the map.
pub proof fn lemma_map_take_step(s: Seq<Property>, i: int)
    requires
        names_ascending(s),
        0 <= i < s.len(),
    ensures
        names_ascending(s.take(i)),
        property_map(s.take(i + 1)) == property_map(s.take(i)).insert(s[i].spec_name(), s[i]),
{
    let t = s.take(i);
    assert(names_ascending(t));
    assert(t.insert(i, s[i]) =~= s.take(i + 1));
    lemma_map_insert(t, i, s[i]);
}

} // verus!
