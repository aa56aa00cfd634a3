//! Properties that relate several operations of the configuration store.

use vstd::prelude::*;

use qubit_value::ValueContainer;

use crate::config::child_prefix;
use crate::entries::has_name;
use crate::entries::names_ascending;
use crate::entries::names_of;
use crate::entries::property_map;
use crate::text::lemma_seq_lt_asymmetric;
use crate::text::lemma_seq_lt_irreflexive;
use crate::text::seq_lt;
use crate::config::is_renamed;
use crate::config::is_stripped_subtree;
use crate::config::merge_effect;
use crate::config::remove_effect;
use crate::config::section_present;
use crate::config::set_effect;
use crate::config::Config;
use crate::key::is_canonical_key;
use crate::property::Property;
use crate::section::resolve;
use crate::section::scope_of;
use crate::section::visible_view;

verus! {

/// A read after a successful `set` sees the value written, and every other
/// key reads as before.
pub proof fn law_read_after_set(before: Config, after: Config, name: Seq<char>, values: ValueContainer)
    requires
        set_effect(before, after, name, values),
    ensures
        after@.contains_key(name),
        after@[name].spec_value() == values,
        forall|k: Seq<char>|
            k != name ==> (#[trigger] after@.contains_key(k) <==> before@.contains_key(k)),
        forall|k: Seq<char>| k != name && #[trigger] before@.contains_key(k) ==> after@[k] == before@[k],
{
}

/// After a successful `remove` the key is gone, and every other key reads
/// as before.
pub proof fn law_remove_forgets(before: Config, after: Config, name: Seq<char>)
    requires
        remove_effect(before, after, name),
    ensures
        !after@.contains_key(name),
        forall|k: Seq<char>|
            k != name ==> (#[trigger] after@.contains_key(k) <==> before@.contains_key(k)),
        forall|k: Seq<char>| k != name && #[trigger] before@.contains_key(k) ==> after@[k] == before@[k],
{
}

/// Removing a key that `set` just created undoes the `set`.
pub proof fn law_remove_undoes_new_set(
    start: Config,
    written: Config,
    end: Config,
    name: Seq<char>,
    values: ValueContainer,
)
    requires
        !start@.contains_key(name),
        set_effect(start, written, name, values),
        remove_effect(written, end, name),
    ensures
        end@ == start@,
        end.same_settings(start),
{
    assert(end@ =~= start@);
}

/// A merge gives every incoming key its incoming property and keeps every
/// other key as it was.
pub proof fn law_merge_prefers_incoming(
    before: Config,
    incoming: Map<Seq<char>, Property>,
    after: Config,
)
    requires
        merge_effect(before, incoming, after),
    ensures
        forall|k: Seq<char>| #[trigger]
            after@.contains_key(k) <==> before@.contains_key(k) || incoming.contains_key(k),
        forall|k: Seq<char>| #[trigger] incoming.contains_key(k) ==> after@[k] == incoming[k],
        forall|k: Seq<char>|
            !incoming.contains_key(k) && #[trigger] before@.contains_key(k) ==> after@[k] == before@[k],
{
}

/// Merging into an empty configuration yields exactly the incoming
/// properties.
pub proof fn law_merge_into_empty(before: Config, incoming: Map<Seq<char>, Property>, after: Config)
    requires
        before@ == Map::<Seq<char>, Property>::empty(),
        merge_effect(before, incoming, after),
    ensures
        after@ == incoming,
{
    assert(after@ =~= incoming);
}

/// Below the root, a section resolves a non-empty relative name to the
/// property stored under the section path, a separator and the name; the
/// empty name sees nothing.
pub proof fn law_section_resolves(m: Map<Seq<char>, Property>, path: Seq<char>, name: Seq<char>)
    requires
        forall|k: Seq<char>| #[trigger] m.contains_key(k) ==> is_canonical_key(k),
    ensures
        name.len() > 0 || path.len() == 0 ==> {
            &&& visible_view(m, path).contains_key(name) == m.contains_key(resolve(path, name))
            &&& m.contains_key(resolve(path, name)) ==> visible_view(m, path)[name] == m[resolve(
                path,
                name,
            )]
        },
        path.len() > 0 && name.len() == 0 ==> !visible_view(m, path).contains_key(name),
{
    if path.len() == 0 {
        assert(scope_of(path) + name =~= name);
    } else if name.len() > 0 {
        assert(resolve(path, name) == scope_of(path) + name);
    } else {
        let full = scope_of(path) + name;
        assert(full.last() == '.');
        assert(!is_canonical_key(full));
    }
}

/// A section at a non-empty path shows the same relative names as the
/// subconfiguration extracted with the path stripped, and each of its
/// properties is the one the subconfiguration holds, under its full key.
pub proof fn law_section_matches_stripped_subconfig(
    m: Map<Seq<char>, Property>,
    path: Seq<char>,
    sub: Map<Seq<char>, Property>,
)
    requires
        path.len() > 0,
        is_stripped_subtree(m, path, sub),
    ensures
        forall|k: Seq<char>| #[trigger]
            sub.contains_key(k) <==> visible_view(m, path).contains_key(k),
        forall|k: Seq<char>| #[trigger]
            sub.contains_key(k) ==> is_renamed(sub[k], visible_view(m, path)[k], k),
{
    assert(scope_of(path) == child_prefix(path));
}

/// The entries of a configuration whose properties sit under their own
/// canonical keys pass the checks of the persisted form.
pub proof fn law_persisted_entries_valid(m: Map<Seq<char>, Property>, e: Seq<(String, Property)>)
    requires
        forall|k: Seq<char>| #[trigger]
            m.contains_key(k) ==> is_canonical_key(k) && m[k].spec_name() == k,
        forall|i: int|
            0 <= i < e.len() ==> m.contains_key((#[trigger] e[i]).0@) && e[i].1 == m[e[i].0@],
    ensures
        forall|i: int|
            0 <= i < e.len() ==> is_canonical_key((#[trigger] e[i]).0@) && e[i].0@ == e[i].1.spec_name(),
{
}

/// Rebuilding from entries that list a configuration's properties under
/// their keys, as `Config::from_wire_parts` does, gives back the same
/// properties.
pub proof fn law_persisted_round_trip(
    m: Map<Seq<char>, Property>,
    e: Seq<(String, Property)>,
    rebuilt: Map<Seq<char>, Property>,
)
    requires
        forall|i: int|
            0 <= i < e.len() ==> m.contains_key((#[trigger] e[i]).0@) && e[i].1 == m[e[i].0@],
        forall|k: Seq<char>| #[trigger]
            m.contains_key(k) ==> exists|i: int| 0 <= i < e.len() && (#[trigger] e[i]).0@ == k,
        forall|i: int|
            0 <= i < e.len() ==> rebuilt.contains_key((#[trigger] e[i]).0@) && rebuilt[e[i].0@]
                == e[i].1,
        forall|k: Seq<char>| #[trigger]
            rebuilt.contains_key(k) ==> exists|i: int| 0 <= i < e.len() && (#[trigger] e[i]).0@ == k,
    ensures
        rebuilt == m,
{
    assert forall|k: Seq<char>| #[trigger] rebuilt.contains_key(k) <==> m.contains_key(k) by {
        if rebuilt.contains_key(k) {
            let i = choose|i: int| 0 <= i < e.len() && (#[trigger] e[i]).0@ == k;
            assert(m.contains_key(e[i].0@));
        }
        if m.contains_key(k) {
            let i = choose|i: int| 0 <= i < e.len() && (#[trigger] e[i]).0@ == k;
            assert(rebuilt.contains_key(e[i].0@));
        }
    }
    assert forall|k: Seq<char>| #[trigger] rebuilt.contains_key(k) implies rebuilt[k] == m[k] by {
        let i = choose|i: int| 0 <= i < e.len() && (#[trigger] e[i]).0@ == k;
        assert(rebuilt[e[i].0@] == e[i].1);
    }
    assert(rebuilt =~= m);
}

/// A section path counts as present exactly when the section at that path
/// shows at least one property.
pub proof fn law_section_present_iff_visible(m: Map<Seq<char>, Property>, path: Seq<char>)
    ensures
        section_present(m, path) <==> exists|k: Seq<char>| visible_view(m, path).contains_key(k),
{
    if path.len() == 0 {
        if section_present(m, path) {
            let k = choose|k: Seq<char>| m.contains_key(k);
            assert(scope_of(path) + k =~= k);
            assert(visible_view(m, path).contains_key(k));
        }
        if exists|k: Seq<char>| visible_view(m, path).contains_key(k) {
            let k = choose|k: Seq<char>| visible_view(m, path).contains_key(k);
            assert(scope_of(path) + k =~= k);
            assert(m.contains_key(k));
        }
    } else {
        let cp = child_prefix(path);
        assert(scope_of(path) == cp);
        if section_present(m, path) {
            let full = choose|k: Seq<char>| m.contains_key(k) && child_prefix(path).is_prefix_of(k);
            let k = full.subrange(cp.len() as int, full.len() as int);
            assert(cp + k =~= full);
            assert(visible_view(m, path).contains_key(k));
        }
        if exists|k: Seq<char>| visible_view(m, path).contains_key(k) {
            let k = choose|k: Seq<char>| visible_view(m, path).contains_key(k);
            let full = cp + k;
            assert(full.subrange(0, cp.len() as int) =~= cp);
            assert(m.contains_key(full) && cp.is_prefix_of(full));
        }
    }
}

/// Two strictly ascending sequences with the same elements are equal.
proof fn lemma_ascending_same_elements(a: Seq<Seq<char>>, b: Seq<Seq<char>>)
    requires
        forall|i: int, j: int| 0 <= i < j < a.len() ==> seq_lt(#[trigger] a[i], #[trigger] a[j]),
        forall|i: int, j: int| 0 <= i < j < b.len() ==> seq_lt(#[trigger] b[i], #[trigger] b[j]),
        forall|x: Seq<char>| a.contains(x) <==> b.contains(x),
    ensures
        a == b,
    decreases a.len(),
{
    if a.len() == 0 {
        if b.len() > 0 {
            assert(b.contains(b[0]));
        }
        assert(a =~= b);
    } else {
        assert(a.contains(a[0]));
        let j = choose|j: int| 0 <= j < b.len() && b[j] == a[0];
        assert(b.contains(b[0]));
        let i = choose|i: int| 0 <= i < a.len() && a[i] == b[0];
        if j > 0 {
            assert(seq_lt(b[0], b[j]));
            if i == 0 {
                lemma_seq_lt_irreflexive(a[0]);
            } else {
                assert(seq_lt(a[0], a[i]));
                lemma_seq_lt_asymmetric(a[0], a[i]);
            }
        }
        assert(a[0] == b[0]);
        let ta = a.drop_first();
        let tb = b.drop_first();
        assert forall|x: Seq<char>| ta.contains(x) <==> tb.contains(x) by {
            if ta.contains(x) {
                let k = choose|k: int| 0 <= k < ta.len() && ta[k] == x;
                assert(seq_lt(a[0], a[k + 1]));
                lemma_seq_lt_irreflexive(x);
                assert(a.contains(x));
                let l = choose|l: int| 0 <= l < b.len() && b[l] == x;
                assert(l != 0);
                assert(tb[l - 1] == x);
            }
            if tb.contains(x) {
                let k = choose|k: int| 0 <= k < tb.len() && tb[k] == x;
                assert(seq_lt(b[0], b[k + 1]));
                lemma_seq_lt_irreflexive(x);
                assert(b.contains(x));
                let l = choose|l: int| 0 <= l < a.len() && a[l] == x;
                assert(l != 0);
                assert(ta[l - 1] == x);
            }
        }
        assert forall|p: int, q: int| 0 <= p < q < ta.len() implies seq_lt(#[trigger] ta[p], #[trigger] ta[q]) by {
            assert(seq_lt(a[p + 1], a[q + 1]));
        }
        assert forall|p: int, q: int| 0 <= p < q < tb.len() implies seq_lt(#[trigger] tb[p], #[trigger] tb[q]) by {
            assert(seq_lt(b[p + 1], b[q + 1]));
        }
        lemma_ascending_same_elements(ta, tb);
        assert(a =~= seq![a[0]] + ta);
        assert(b =~= seq![b[0]] + tb);
    }
}

/// `keys` lists exactly the keys of the properties that `iter` returns, in
/// the same order: given what each of them states of a configuration's
/// view, the key sequence is the sequence of the properties' names.
pub proof fn law_keys_follow_iteration(
    m: Map<Seq<char>, Property>,
    keys: Seq<Seq<char>>,
    entries: Seq<Property>,
)
    requires
        forall|i: int| 0 <= i < keys.len() ==> m.contains_key(#[trigger] keys[i]),
        forall|i: int, j: int| 0 <= i < j < keys.len() ==> seq_lt(#[trigger] keys[i], #[trigger] keys[j]),
        forall|k: Seq<char>| #[trigger] m.contains_key(k) ==> exists|i: int| 0 <= i < keys.len() && keys[i] == k,
        names_ascending(entries),
        property_map(entries) == m,
    ensures
        keys == names_of(entries),
{
    let names = names_of(entries);
    assert forall|i: int, j: int| 0 <= i < j < names.len() implies seq_lt(#[trigger] names[i], #[trigger] names[j]) by {
        assert(seq_lt(entries[i].spec_name(), entries[j].spec_name()));
    }
    assert forall|x: Seq<char>| keys.contains(x) <==> names.contains(x) by {
        if keys.contains(x) {
            let i = choose|i: int| 0 <= i < keys.len() && keys[i] == x;
            assert(m.contains_key(x));
            assert(has_name(entries, x));
            let j = choose|j: int| 0 <= j < entries.len() && #[trigger] entries[j].spec_name() == x;
            assert(names[j] == x);
        }
        if names.contains(x) {
            let j = choose|j: int| 0 <= j < names.len() && names[j] == x;
            assert(entries[j].spec_name() == x);
            assert(has_name(entries, x));
            assert(m.contains_key(x));
            let i = choose|i: int| 0 <= i < keys.len() && keys[i] == x;
            assert(keys[i] == x);
        }
    }
    lemma_ascending_same_elements(keys, names);
}

} // verus!
