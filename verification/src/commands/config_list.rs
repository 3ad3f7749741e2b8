//! The list of stored profiles.

use crate::commands::config_name::{
    file_of, is_clean, listed, profile_of_file, saved_profile_is_listed,
};
use vstd::prelude::*;

verus! {

/// `a` comes before `b`, or is the same text: the first characters that differ decide by
/// their code points, and a text comes after its own beginnings.
pub open spec fn text_le(a: Seq<char>, b: Seq<char>) -> bool
    decreases a.len(),
{
    if a.len() == 0 {
        true
    } else if b.len() == 0 {
        false
    } else if a[0] == b[0] {
        text_le(a.skip(1), b.skip(1))
    } else {
        a[0] < b[0]
    }
}

/// The texts that strings hold.
pub open spec fn texts(names: Seq<String>) -> Seq<Seq<char>> {
    names.map_values(|s: String| s@)
}

pub open spec fn sorted(names: Seq<Seq<char>>) -> bool {
    forall|i: int, j: int| 0 <= i <= j < names.len() ==> text_le(#[trigger] names[i], #[trigger] names[j])
}

/// The profiles that these files hold, file by file.
pub open spec fn profiles(files: Seq<Seq<char>>) -> Seq<Seq<char>>
    decreases files.len(),
{
    if files.len() == 0 {
        Seq::empty()
    } else {
        let before = profiles(files.drop_last());
        match listed(files.last()) {
            Some(name) => before.push(name),
            None => before,
        }
    }
}

proof fn lemma_text_le_transitive(a: Seq<char>, b: Seq<char>, c: Seq<char>)
    requires
        text_le(a, b),
        text_le(b, c),
    ensures
        text_le(a, c),
    decreases a.len(),
{
    if a.len() > 0 && b.len() > 0 && c.len() > 0 && a[0] == b[0] && b[0] == c[0] {
        lemma_text_le_transitive(a.skip(1), b.skip(1), c.skip(1));
    }
}

proof fn lemma_text_le_total(a: Seq<char>, b: Seq<char>)
    ensures
        text_le(a, b) || text_le(b, a),
    decreases a.len(),
{
    if a.len() > 0 && b.len() > 0 && a[0] == b[0] {
        lemma_text_le_total(a.skip(1), b.skip(1));
    }
}

proof fn lemma_text_le_antisymmetric(a: Seq<char>, b: Seq<char>)
    requires
        text_le(a, b),
        text_le(b, a),
    ensures
        a == b,
    decreases a.len(),
{
    if a.len() > 0 && b.len() > 0 && a[0] == b[0] {
        lemma_text_le_antisymmetric(a.skip(1), b.skip(1));
        assert(a =~= seq![a[0]] + a.skip(1));
        assert(b =~= seq![b[0]] + b.skip(1));
    } else {
        assert(a =~= b);
    }
}

/// Compare two texts by code points.
pub fn text_not_after(a: &str, b: &str) -> (r: bool)
    ensures
        r == text_le(a@, b@),
{
    let a_length: usize = a.unicode_len();
    let b_length: usize = b.unicode_len();
    let mut i: usize = 0;
    proof {
        assert(a@.skip(0) =~= a@);
        assert(b@.skip(0) =~= b@);
    }
    while i < a_length && i < b_length
        invariant
            i <= a_length,
            i <= b_length,
            a_length == a@.len(),
            b_length == b@.len(),
            text_le(a@, b@) == text_le(a@.skip(i as int), b@.skip(i as int)),
        decreases a_length - i,
    {
        let x: char = a.get_char(i);
        let y: char = b.get_char(i);
        if x != y {
            return x < y;
        }
        proof {
            assert(a@.skip(i as int).skip(1) =~= a@.skip(i + 1));
            assert(b@.skip(i as int).skip(1) =~= b@.skip(i + 1));
        }
        i = i + 1;
    }
    i == a_length
}

/// Put a name into a sorted list.
fn insert_sorted(names: &mut Vec<String>, name: String)
    requires
        sorted(texts(old(names)@)),
    ensures
        sorted(texts(final(names)@)),
        texts(final(names)@).to_multiset() == texts(old(names)@).to_multiset().insert(name@),
        forall|i: int|
            0 <= i < final(names)@.len() ==> #[trigger] final(names)@[i] == name || old(
                names,
            )@.contains(final(names)@[i]),
{
    let ghost before = texts(names@);
    let mut at: usize = 0;
    while at < names.len() && text_not_after(names[at].as_str(), name.as_str())
        invariant
            at <= names@.len(),
            before == texts(names@),
            forall|i: int| 0 <= i < at ==> text_le(#[trigger] before[i], name@),
        decreases names@.len() - at,
    {
        assert(before[at as int] == names@[at as int]@);
        at = at + 1;
    }
    proof {
        if at < names@.len() {
            assert(before[at as int] == names@[at as int]@);
            lemma_text_le_total(before[at as int], name@);
        }
        assert forall|i: int| at <= i < before.len() implies text_le(
            name@,
            #[trigger] before[i],
        ) by {
            lemma_text_le_transitive(name@, before[at as int], before[i]);
        }
        lemma_text_le_total(name@, name@);
        assert(texts(names@.insert(at as int, name)) =~= before.insert(at as int, name@));
        vstd::seq_lib::to_multiset_insert(before, at as int, name@);
    }
    let ghost listed_before = names@;
    names.insert(at, name);
    proof {
        assert forall|i: int| 0 <= i < names@.len() implies #[trigger] names@[i] == name
            || listed_before.contains(names@[i]) by {
            if i < at {
                assert(names@[i] == listed_before[i]);
            } else if i > at {
                assert(names@[i] == listed_before[i - 1]);
            }
        }
    }
}

/// The names of the profiles that these files hold, in order.
pub fn profile_names(files: &Vec<String>) -> (names: Vec<String>)
    ensures
        sorted(texts(names@)),
        texts(names@).to_multiset() == profiles(texts(files@)).to_multiset(),
        forall|i: int| 0 <= i < names@.len() ==> is_clean((#[trigger] names@[i])@),
{
    let mut names: Vec<String> = Vec::new();
    let mut i: usize = 0;
    proof {
        assert(texts(names@) =~= Seq::<Seq<char>>::empty());
        assert(texts(files@).take(0) =~= Seq::<Seq<char>>::empty());
    }
    while i < files.len()
        invariant
            i <= files@.len(),
            sorted(texts(names@)),
            texts(names@).to_multiset() == profiles(texts(files@).take(i as int)).to_multiset(),
            forall|j: int| 0 <= j < names@.len() ==> is_clean((#[trigger] names@[j])@),
        decreases files@.len() - i,
    {
        let ghost seen = texts(files@).take(i as int);
        let ghost now = texts(files@).take(i + 1);
        assert(now.drop_last() =~= seen);
        assert(now.last() == files@[i as int]@);
        match profile_of_file(files[i].as_str()) {
            Some(name) => {
                proof {
                    vstd::seq_lib::to_multiset_build(profiles(seen), name@);
                }
                insert_sorted(&mut names, name);
            },
            None => {},
        }
        i = i + 1;
    }
    assert(texts(files@).take(i as int) =~= texts(files@));
    names
}

/// The files of a directory come in no particular order, but the list of the profiles does
/// not depend on it: there is only one sorted list of the same names.
pub proof fn list_is_determined(a: Seq<Seq<char>>, b: Seq<Seq<char>>)
    requires
        sorted(a),
        sorted(b),
        a.to_multiset() == b.to_multiset(),
    ensures
        a == b,
    decreases a.len(),
{
    a.to_multiset_ensures();
    b.to_multiset_ensures();
    if a.len() == 0 {
        assert(a =~= b);
    } else {
        assert(a.contains(a[0]));
        assert(b.contains(b[0]));
        assert(a.to_multiset().count(a[0]) > 0);
        assert(b.to_multiset().count(b[0]) > 0);
        assert(b.contains(a[0]));
        assert(a.contains(b[0]));
        let i = choose|i: int| 0 <= i < b.len() && b[i] == a[0];
        let j = choose|j: int| 0 <= j < a.len() && a[j] == b[0];
        assert(text_le(b[0], b[i]));
        assert(text_le(a[0], a[j]));
        lemma_text_le_antisymmetric(a[0], b[0]);
        let a_rest = a.remove(0);
        let b_rest = b.remove(0);
        assert forall|x: int, y: int| 0 <= x <= y < a_rest.len() implies text_le(
            #[trigger] a_rest[x],
            #[trigger] a_rest[y],
        ) by {
            assert(text_le(a[x + 1], a[y + 1]));
        }
        assert forall|x: int, y: int| 0 <= x <= y < b_rest.len() implies text_le(
            #[trigger] b_rest[x],
            #[trigger] b_rest[y],
        ) by {
            assert(text_le(b[x + 1], b[y + 1]));
        }
        list_is_determined(a_rest, b_rest);
        assert(a =~= seq![a[0]] + a_rest);
        assert(b =~= seq![b[0]] + b_rest);
    }
}

/// A profile that was saved is in the list.
pub proof fn saved_profile_is_in_the_list(files: Seq<Seq<char>>, name: Seq<char>)
    requires
        is_clean(name),
        files.contains(file_of(name)),
    ensures
        profiles(files).contains(name),
    decreases files.len(),
{
    let at = choose|at: int| 0 <= at < files.len() && files[at] == file_of(name);
    let before = profiles(files.drop_last());
    saved_profile_is_listed(name);
    if at == files.len() - 1 {
        assert(profiles(files)[before.len() as int] == name);
    } else {
        assert(files.drop_last()[at] == file_of(name));
        saved_profile_is_in_the_list(files.drop_last(), name);
        let found = choose|found: int| 0 <= found < before.len() && before[found] == name;
        assert(profiles(files)[found] == name);
    }
}

} // verus!
