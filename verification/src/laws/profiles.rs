//! The list of profiles.

use crate::commands::config_list::{
    profile_names, profiles, sorted, text_le, text_not_after, texts,
};
use crate::commands::config_name::{listed, sanitized, NameError};
use crate::laws::names::{lemma_proper, lemma_sanitized_is_proper, proper};
use vstd::prelude::*;

verus! {

/// The texts agree in their first `k` characters.
pub open spec fn agree_upto(a: Seq<char>, b: Seq<char>, k: int) -> bool {
    &&& 0 <= k <= a.len()
    &&& k <= b.len()
    &&& forall|i: int| 0 <= i < k ==> #[trigger] a[i] == b[i]
}

/// Texts are ordered as in a dictionary of code points: the first characters that differ
/// decide, and a text comes after its own beginnings.
pub proof fn texts_are_ordered(a: &str, b: &str, r: bool, k: int)
    requires
        call_ensures(text_not_after, (a, b), r),
        agree_upto(a@, b@, k),
    ensures
        k < a@.len() && k < b@.len() && a@[k] != b@[k] ==> r == (a@[k] < b@[k]),
        k == a@.len() ==> r,
        k == b@.len() && k < a@.len() ==> !r,
{
    lemma_order(a@, b@, k);
}

proof fn lemma_order(a: Seq<char>, b: Seq<char>, k: int)
    requires
        agree_upto(a, b, k),
    ensures
        k < a.len() && k < b.len() && a[k] != b[k] ==> text_le(a, b) == (a[k] < b[k]),
        k == a.len() ==> text_le(a, b),
        k == b.len() && k < a.len() ==> !text_le(a, b),
    decreases a.len(),
{
    if k > 0 {
        assert(a[0] == b[0]);
        assert forall|i: int| 0 <= i < k - 1 implies #[trigger] a.skip(1)[i] == b.skip(1)[i] by {
            assert(a[i + 1] == b[i + 1]);
        }
        lemma_order(a.skip(1), b.skip(1), k - 1);
    }
}

/// `a` stands after `b` in the dictionary.
pub open spec fn stands_after(a: Seq<char>, b: Seq<char>) -> bool {
    exists|k: int|
        #[trigger] agree_upto(a, b, k) && k < a.len() && (k == b.len() || b[k] < a[k])
}

/// How often a text occurs.
pub open spec fn occurrences(all: Seq<String>, text: Seq<char>) -> nat
    decreases all.len(),
{
    if all.len() == 0 {
        0
    } else {
        occurrences(all.drop_last(), text) + if all.last()@ == text {
            1nat
        } else {
            0nat
        }
    }
}

/// The names are in order, and each occurs as often as there are files of it, which is
/// never if it is not a name.
pub open spec fn lists_profiles(files: Seq<String>, names: Seq<String>) -> bool {
    &&& forall|i: int, j: int|
        0 <= i <= j < names.len() ==> !stands_after((#[trigger] names[i])@, (#[trigger] names[j])@)
    &&& forall|name: Seq<char>|
        proper(name) ==> #[trigger] occurrences(names, name) == occurrences(files, name + ".json"@)
    &&& forall|name: Seq<char>| !proper(name) ==> #[trigger] occurrences(names, name) == 0
}

/// The list of profiles is in order, and holds a name as often as there are files of it,
/// which is never if it is not a name.
pub proof fn list_holds_the_profiles(files: &Vec<String>, names: Vec<String>)
    requires
        call_ensures(profile_names, (files,), names),
    ensures
        lists_profiles(files@, names@),
{
    lemma_list(files@, names@);
}

pub(crate) proof fn lemma_list(files: Seq<String>, names: Seq<String>)
    requires
        sorted(texts(names)),
        texts(names).to_multiset() == profiles(texts(files)).to_multiset(),
    ensures
        lists_profiles(files, names),
{
    assert forall|i: int, j: int| 0 <= i <= j < names.len() implies !stands_after(
        (#[trigger] names[i])@,
        (#[trigger] names[j])@,
    ) by {
        assert(text_le(texts(names)[i], texts(names)[j]));
        let a = names[i]@;
        let b = names[j]@;
        if stands_after(a, b) {
            let k = choose|k: int|
                #[trigger] agree_upto(a, b, k) && k < a.len() && (k == b.len() || b[k] < a[k]);
            lemma_order(a, b, k);
        }
    }
    assert forall|name: Seq<char>| #[trigger] occurrences(names, name) == if proper(name) {
        occurrences(files, name + ".json"@)
    } else {
        0
    } by {
        lemma_occurrences_count(names, name);
        lemma_profiles_count(files, name);
    }
}

proof fn lemma_occurrences_count(all: Seq<String>, text: Seq<char>)
    ensures
        occurrences(all, text) == texts(all).to_multiset().count(text),
    decreases all.len(),
{
    if all.len() == 0 {
        texts(all).to_multiset_ensures();
        assert(texts(all) =~= Seq::empty());
        assert(texts(all).to_multiset().count(text) == 0) by {
            assert(!texts(all).contains(text));
        }
    } else {
        let before = all.drop_last();
        lemma_occurrences_count(before, text);
        assert(texts(all) =~= texts(before).push(all.last()@));
        vstd::seq_lib::to_multiset_build(texts(before), all.last()@);
    }
}

proof fn lemma_profiles_count(files: Seq<String>, name: Seq<char>)
    ensures
        profiles(texts(files)).to_multiset().count(name) == if proper(name) {
            occurrences(files, name + ".json"@)
        } else {
            0
        },
    decreases files.len(),
{
    if files.len() == 0 {
        assert(texts(files) =~= Seq::empty());
        profiles(texts(files)).to_multiset_ensures();
        assert(!profiles(texts(files)).contains(name));
    } else {
        let before = files.drop_last();
        let file = files.last()@;
        lemma_profiles_count(before, name);
        assert(texts(files) =~= texts(before).push(file));
        assert(texts(files).drop_last() =~= texts(before));
        lemma_listed(file, name);
        if listed(file) is Some {
            vstd::seq_lib::to_multiset_build(profiles(texts(before)), listed(file)->0);
        }
    }
}

proof fn lemma_listed(file: Seq<char>, name: Seq<char>)
    ensures
        listed(file) == Some(name) <==> proper(name) && file == name + ".json"@,
{
    reveal_strlit(".json");
    let ending = ".json"@;
    let length = file.len() - ending.len();
    if listed(file) == Some(name) {
        assert(file =~= file.take(length) + file.skip(length));
        assert(sanitized(name) == Ok::<Seq<char>, NameError>(name));
        lemma_sanitized_is_proper(name);
    }
    if proper(name) && file == name + ending {
        lemma_proper(name);
        assert(file.skip(name.len() as int) =~= ending);
        assert(file.take(name.len() as int) =~= name);
    }
}

} // verus!
