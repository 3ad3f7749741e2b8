//! Names of profiles and the files they are kept in.

use crate::commands::config_name::{
    config_file_name, is_white_space, name_may_hold, profile_of_file, sanitize_name, sanitized,
    trim_end, trim_start, trimmed, unicode_alphanumeric, NameError, ProfileName,
};
use vstd::prelude::*;

verus! {

/// Nothing but white space.
pub open spec fn blank(s: Seq<char>) -> bool {
    forall|i: int| 0 <= i < s.len() ==> is_white_space(#[trigger] s[i])
}

/// No white space at either end.
pub open spec fn tight(s: Seq<char>) -> bool {
    s.len() > 0 ==> !is_white_space(s[0]) && !is_white_space(s[s.len() - 1])
}

/// The text could lead out of a directory: it holds a separator, or two dots in a row.
pub open spec fn could_escape(s: Seq<char>) -> bool {
    ||| exists|i: int| 0 <= i < s.len() && (#[trigger] s[i] == '/' || s[i] == '\\')
    ||| exists|i: int| 0 <= i < s.len() - 1 && #[trigger] s[i] == '.' && s[i + 1] == '.'
}

/// Letters and digits of any script, spaces, hyphens and underscores, and nothing else.
pub open spec fn permitted(s: Seq<char>) -> bool {
    forall|i: int|
        0 <= i < s.len() ==> unicode_alphanumeric(#[trigger] s[i]) || s[i] == ' ' || s[i] == '-'
            || s[i] == '_'
}

/// A text that is a name as it stands.
pub open spec fn proper(s: Seq<char>) -> bool {
    s.len() > 0 && tight(s) && !could_escape(s) && permitted(s)
}

proof fn lemma_blank_start(before: Seq<char>, rest: Seq<char>)
    requires
        blank(before),
    ensures
        trim_start(before + rest) == trim_start(rest),
    decreases before.len(),
{
    if before.len() == 0 {
        assert(before + rest =~= rest);
    } else {
        assert((before + rest)[0] == before[0]);
        assert((before + rest).skip(1) =~= before.skip(1) + rest);
        assert forall|i: int| 0 <= i < before.skip(1).len() implies is_white_space(
            #[trigger] before.skip(1)[i],
        ) by {
            assert(is_white_space(before[i + 1]));
        }
        lemma_blank_start(before.skip(1), rest);
    }
}

proof fn lemma_blank_end(rest: Seq<char>, after: Seq<char>)
    requires
        blank(after),
    ensures
        trim_end(rest + after) == trim_end(rest),
    decreases after.len(),
{
    if after.len() == 0 {
        assert(rest + after =~= rest);
    } else {
        assert((rest + after).last() == after.last());
        assert(is_white_space(after[after.len() - 1]));
        assert((rest + after).drop_last() =~= rest + after.drop_last());
        assert forall|i: int| 0 <= i < after.drop_last().len() implies is_white_space(
            #[trigger] after.drop_last()[i],
        ) by {
            assert(is_white_space(after[i]));
        }
        lemma_blank_end(rest, after.drop_last());
    }
}

proof fn lemma_trimmed(before: Seq<char>, kept: Seq<char>, after: Seq<char>)
    requires
        blank(before),
        blank(after),
        tight(kept),
    ensures
        trimmed(before + kept + after) == kept,
{
    assert(before + kept + after =~= before + (kept + after));
    lemma_blank_start(before, kept + after);
    if kept.len() == 0 {
        assert(kept + after =~= after + Seq::<char>::empty());
        lemma_blank_start(after, Seq::empty());
        assert(trim_end(Seq::<char>::empty()) =~= kept);
    } else {
        assert((kept + after)[0] == kept[0]);
        lemma_blank_end(kept, after);
    }
}

pub(crate) proof fn lemma_sanitized(before: Seq<char>, kept: Seq<char>, after: Seq<char>)
    requires
        blank(before),
        blank(after),
        tight(kept),
    ensures
        sanitized(before + kept + after) == if kept.len() == 0 {
            Err::<Seq<char>, NameError>(NameError::Empty)
        } else if could_escape(kept) {
            Err(NameError::Traversal)
        } else if !permitted(kept) {
            Err(NameError::Characters)
        } else {
            Ok(kept)
        },
{
    lemma_trimmed(before, kept, after);
    assert(could_escape(kept) == crate::commands::config_name::leads_elsewhere(kept)) by {
        if could_escape(kept) {
            if exists|i: int| 0 <= i < kept.len() && (#[trigger] kept[i] == '/' || kept[i] == '\\') {
                let i = choose|i: int|
                    0 <= i < kept.len() && (#[trigger] kept[i] == '/' || kept[i] == '\\');
                assert(kept.contains(kept[i]));
            }
        }
    }
}

/// The outcome of sanitizing: the text without the white space around it, if that is a
/// name, or the text of what is wrong with it.
pub open spec fn sanitizes_to(kept: Seq<char>, text: Result<Seq<char>, Seq<char>>) -> bool {
    if kept.len() == 0 {
        text == Err::<Seq<char>, Seq<char>>("Configuration name cannot be empty"@)
    } else if could_escape(kept) {
        text == Err::<Seq<char>, Seq<char>>("Invalid configuration name"@)
    } else if !permitted(kept) {
        text == Err::<Seq<char>, Seq<char>>("Configuration name contains invalid characters"@)
    } else {
        text == Ok::<Seq<char>, Seq<char>>(kept)
    }
}

/// What the user typed, with white space around it, becomes the text inside that white
/// space, unchanged, if that is a name; otherwise the first thing wrong with it is named:
/// that it is empty, that it could lead out of the directory, or that it holds something
/// that names do not hold.
pub proof fn names_are_sanitized(
    before: Seq<char>,
    kept: Seq<char>,
    after: Seq<char>,
    name: &str,
    r: Result<String, String>,
    p: Result<ProfileName, String>,
)
    requires
        name@ == before + kept + after,
        blank(before),
        blank(after),
        tight(kept),
        call_ensures(sanitize_name, (name,), r),
        call_ensures(ProfileName::new, (name,), p),
    ensures
        sanitizes_to(
            kept,
            match r {
                Ok(clean) => Ok(clean@),
                Err(text) => Err(text@),
            },
        ),
        sanitizes_to(
            kept,
            match p {
                Ok(clean) => Ok(clean@),
                Err(text) => Err(text@),
            },
        ),
{
    lemma_sanitized(before, kept, after);
}

/// No name holds a separator, a dot, a colon or a control character: of ASCII a name holds
/// letters, digits, spaces, hyphens and underscores only.
pub proof fn names_are_harmless(name: &str, r: Result<String, String>)
    requires
        call_ensures(sanitize_name, (name,), r),
        r is Ok,
    ensures
        forall|i: int|
            0 <= i < r->Ok_0@.len() && (#[trigger] r->Ok_0@[i] as int) < 0x80 ==> {
                ||| '0' <= r->Ok_0@[i] <= '9'
                ||| 'A' <= r->Ok_0@[i] <= 'Z'
                ||| 'a' <= r->Ok_0@[i] <= 'z'
                ||| r->Ok_0@[i] == ' '
                ||| r->Ok_0@[i] == '-'
                ||| r->Ok_0@[i] == '_'
            },
{
    let kept = r->Ok_0@;
    assert(crate::commands::config_name::plain_in_ascii(kept));
    assert forall|i: int| 0 <= i < kept.len() && (#[trigger] kept[i] as int) < 0x80 implies {
        ||| '0' <= kept[i] <= '9'
        ||| 'A' <= kept[i] <= 'Z'
        ||| 'a' <= kept[i] <= 'z'
        ||| kept[i] == ' '
        ||| kept[i] == '-'
        ||| kept[i] == '_'
    } by {
        assert(crate::commands::config_name::allowed(
            kept[i],
            crate::commands::config_name::ascii_alphanumeric(kept[i]),
        ));
    }
}

/// A character may stand in a name if it is a letter or a digit, a space, a hyphen or an
/// underscore.
pub proof fn characters_of_names(c: char, alphanumeric: bool, r: bool)
    requires
        call_ensures(name_may_hold, (c, alphanumeric), r),
    ensures
        r <==> alphanumeric || c == ' ' || c == '-' || c == '_',
{
}

/// The text of a profile name is the name.
pub proof fn profile_name_reads_as_it_is(name: &ProfileName, text: &str)
    requires
        call_ensures(ProfileName::as_str, (name,), text),
    ensures
        text@ == name@,
{
}

/// A profile is kept in the file of its name with the ending `.json`.
pub proof fn files_bear_the_name(name: &str, file: String)
    requires
        call_ensures(config_file_name, (name,), file),
    ensures
        file@ == name@ + ".json"@,
{
}

/// A file holds a profile if and only if its name is a name with the ending `.json`, and
/// the profile has that name.
pub proof fn files_hold_profiles(name: Seq<char>, file: &str, r: Option<String>)
    requires
        call_ensures(profile_of_file, (file,), r),
    ensures
        r is Some ==> file@ == r->0@ + ".json"@ && proper(r->0@),
        file@ == name + ".json"@ && proper(name) ==> r is Some && r->0@ == name,
{
    reveal_strlit(".json");
    let ending = ".json"@;
    if r is Some {
        let length = file@.len() - ending.len();
        assert(file@ =~= file@.take(length) + file@.skip(length));
        lemma_sanitized_is_proper(r->0@);
    }
    if file@ == name + ending && proper(name) {
        assert(file@.skip(name.len() as int) =~= ending);
        assert(file@.take(name.len() as int) =~= name);
        lemma_proper(name);
    }
}

/// A name is sanitized to itself.
pub(crate) proof fn lemma_proper(name: Seq<char>)
    requires
        proper(name),
    ensures
        sanitized(name) == Ok::<Seq<char>, NameError>(name),
{
    assert(Seq::<char>::empty() + name + Seq::<char>::empty() =~= name);
    lemma_sanitized(Seq::empty(), name, Seq::empty());
}

/// What is sanitized to itself is a name.
pub(crate) proof fn lemma_sanitized_is_proper(name: Seq<char>)
    requires
        sanitized(name) == Ok::<Seq<char>, NameError>(name),
    ensures
        proper(name),
{
    lemma_tight(name);
    assert(Seq::<char>::empty() + name + Seq::<char>::empty() =~= name);
    lemma_sanitized(Seq::empty(), name, Seq::empty());
}

proof fn lemma_tight(name: Seq<char>)
    requires
        trimmed(name) == name,
    ensures
        tight(name),
{
    lemma_shorter_start(name);
    lemma_shorter_end(trim_start(name));
}

proof fn lemma_shorter_start(s: Seq<char>)
    ensures
        trim_start(s).len() <= s.len(),
        s.len() > 0 && is_white_space(s[0]) ==> trim_start(s).len() < s.len(),
    decreases s.len(),
{
    if s.len() > 0 && is_white_space(s[0]) {
        lemma_shorter_start(s.skip(1));
    }
}

proof fn lemma_shorter_end(s: Seq<char>)
    ensures
        trim_end(s).len() <= s.len(),
        s.len() > 0 && is_white_space(s.last()) ==> trim_end(s).len() < s.len(),
    decreases s.len(),
{
    if s.len() > 0 && is_white_space(s.last()) {
        lemma_shorter_end(s.drop_last());
    }
}

/// What is saved under a name is found again under the same name: the file of a sanitized
/// name holds the profile of that name, and sanitizing the name once more changes nothing.
pub proof fn saved_names_are_found_again(
    typed: &str,
    name: String,
    file: String,
    found: Option<String>,
    again: Result<String, String>,
    name_text: &str,
    file_text: &str,
)
    requires
        call_ensures(sanitize_name, (typed,), Ok::<String, String>(name)),
        name_text@ == name@,
        call_ensures(config_file_name, (name_text,), file),
        file_text@ == file@,
        call_ensures(profile_of_file, (file_text,), found),
        call_ensures(sanitize_name, (name_text,), again),
    ensures
        found is Some && found->0@ == name@,
        again is Ok && again->Ok_0@ == name@,
{
    assert(sanitized(name@) == Ok::<Seq<char>, NameError>(name@));
    lemma_sanitized_is_proper(name@);
    files_hold_profiles(name@, file_text, found);
}

} // verus!
