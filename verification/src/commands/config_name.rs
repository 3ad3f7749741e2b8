//! Names of configuration profiles, and the files they are kept in.
//!
//! A profile is kept in a file named after it, so a name must never lead out of the
//! directory of the profiles.

use crate::text::same_text;
use vstd::prelude::*;

verus! {

/// What the Unicode database calls white space.
pub open spec fn is_white_space(c: char) -> bool {
    let code = c as int;
    ||| 0x09 <= code <= 0x0d
    ||| code == 0x20
    ||| code == 0x85
    ||| code == 0xa0
    ||| code == 0x1680
    ||| 0x2000 <= code <= 0x200a
    ||| code == 0x2028
    ||| code == 0x2029
    ||| code == 0x202f
    ||| code == 0x205f
    ||| code == 0x3000
}

pub open spec fn trim_start(s: Seq<char>) -> Seq<char>
    decreases s.len(),
{
    if s.len() > 0 && is_white_space(s[0]) {
        trim_start(s.skip(1))
    } else {
        s
    }
}

pub open spec fn trim_end(s: Seq<char>) -> Seq<char>
    decreases s.len(),
{
    if s.len() > 0 && is_white_space(s.last()) {
        trim_end(s.drop_last())
    } else {
        s
    }
}

/// A text without the white space around it.
pub open spec fn trimmed(s: Seq<char>) -> Seq<char> {
    trim_end(trim_start(s))
}

/// `str::trim` takes away leading and trailing white space, as the Unicode property
/// `White_Space` defines it.
pub assume_specification[ str::trim ](s: &str) -> (r: &str)
    ensures
        r@ == trimmed(s@),
;

/// What `char::is_alphanumeric` says of a character: whether Unicode counts it among the
/// alphabetic or the numeric ones.
pub uninterp spec fn unicode_alphanumeric(c: char) -> bool;

/// A letter or a digit of ASCII.
pub open spec fn ascii_alphanumeric(c: char) -> bool {
    ||| '0' <= c <= '9'
    ||| 'A' <= c <= 'Z'
    ||| 'a' <= c <= 'z'
}

/// `char::is_alphanumeric` depends on the character alone. Among the characters of ASCII
/// it picks the letters and the digits.
pub assume_specification[ char::is_alphanumeric ](c: char) -> (r: bool)
    ensures
        r == unicode_alphanumeric(c),
        (c as int) < 0x80 ==> r == ascii_alphanumeric(c),
;

/// Why a name is refused.
pub enum NameError {
    Empty,
    /// The name could lead out of the directory.
    Traversal,
    /// The name holds something else than letters, digits, spaces, hyphens and
    /// underscores.
    Characters,
}

pub open spec fn name_error_text(error: NameError) -> Seq<char> {
    match error {
        NameError::Empty => "Configuration name cannot be empty"@,
        NameError::Traversal => "Invalid configuration name"@,
        NameError::Characters => "Configuration name contains invalid characters"@,
    }
}

pub open spec fn has_double_dot(s: Seq<char>) -> bool {
    exists|i: int| 0 <= i < s.len() - 1 && #[trigger] s[i] == '.' && s[i + 1] == '.'
}

/// The name could lead out of the directory.
pub open spec fn leads_elsewhere(s: Seq<char>) -> bool {
    has_double_dot(s) || s.contains('/') || s.contains('\\')
}

/// A name may hold the character, given what Unicode says of it.
pub open spec fn allowed(c: char, alphanumeric: bool) -> bool {
    alphanumeric || c == ' ' || c == '-' || c == '_'
}

pub open spec fn all_allowed(s: Seq<char>) -> bool {
    forall|i: int| 0 <= i < s.len() ==> allowed(#[trigger] s[i], unicode_alphanumeric(s[i]))
}

/// The name that is used for what the user typed, or why there is none.
pub open spec fn sanitized(name: Seq<char>) -> Result<Seq<char>, NameError> {
    let kept = trimmed(name);
    if kept.len() == 0 {
        Err(NameError::Empty)
    } else if leads_elsewhere(kept) {
        Err(NameError::Traversal)
    } else if !all_allowed(kept) {
        Err(NameError::Characters)
    } else {
        Ok(kept)
    }
}

/// Of ASCII, only letters, digits, spaces, hyphens and underscores: no separator, no dot,
/// no colon, no control character.
pub open spec fn plain_in_ascii(s: Seq<char>) -> bool {
    forall|i: int|
        0 <= i < s.len() && (s[i] as int) < 0x80 ==> allowed(
            #[trigger] s[i],
            ascii_alphanumeric(s[i]),
        )
}

/// A name that is used as it stands.
pub open spec fn is_clean(name: Seq<char>) -> bool {
    sanitized(name) == Ok::<Seq<char>, NameError>(name) && plain_in_ascii(name)
}

/// Whether a name may hold a character, given what Unicode says of it.
pub fn name_may_hold(c: char, alphanumeric: bool) -> (r: bool)
    ensures
        r == allowed(c, alphanumeric),
{
    alphanumeric || c == ' ' || c == '-' || c == '_'
}

fn may_lead_elsewhere(s: &str) -> (r: bool)
    ensures
        r == leads_elsewhere(s@),
{
    let length: usize = s.unicode_len();
    let mut after_dot: bool = false;
    let mut i: usize = 0;
    while i < length
        invariant
            i <= length,
            length == s@.len(),
            after_dot == (i > 0 && s@[i - 1] == '.'),
            forall|j: int| 0 <= j < i ==> s@[j] != '/' && s@[j] != '\\',
            forall|j: int| 0 <= j < i - 1 ==> !(#[trigger] s@[j] == '.' && s@[j + 1] == '.'),
        decreases length - i,
    {
        let c: char = s.get_char(i);
        if c == '/' || c == '\\' {
            assert(s@.contains(c));
            return true;
        }
        if c == '.' && after_dot {
            assert(s@[i - 1] == '.' && s@[i - 1 + 1] == '.');
            return true;
        }
        after_dot = c == '.';
        i = i + 1;
    }
    false
}

fn holds_only_allowed(s: &str) -> (r: bool)
    ensures
        r == all_allowed(s@),
        r ==> plain_in_ascii(s@),
{
    let length: usize = s.unicode_len();
    let mut i: usize = 0;
    while i < length
        invariant
            i <= length,
            length == s@.len(),
            forall|j: int|
                0 <= j < i ==> allowed(#[trigger] s@[j], unicode_alphanumeric(s@[j])),
            forall|j: int|
                0 <= j < i && (s@[j] as int) < 0x80 ==> allowed(
                    #[trigger] s@[j],
                    ascii_alphanumeric(s@[j]),
                ),
        decreases length - i,
    {
        let c: char = s.get_char(i);
        let alphanumeric: bool = c.is_alphanumeric();
        if !name_may_hold(c, alphanumeric) {
            assert(!allowed(s@[i as int], unicode_alphanumeric(s@[i as int])));
            return false;
        }
        i = i + 1;
    }
    true
}

/// Turn what the user typed into the name of a profile, or say why it cannot be one.
pub fn sanitize_name(name: &str) -> (r: Result<String, String>)
    ensures
        match sanitized(name@) {
            Ok(kept) => r matches Ok(clean) && clean@ == kept && is_clean(clean@),
            Err(error) => r matches Err(text) && text@ == name_error_text(error),
        },
{
    let kept: &str = name.trim();
    proof {
        lemma_trimmed_twice(name@);
    }
    if kept.is_empty() {
        return Err("Configuration name cannot be empty".to_owned());
    }
    if may_lead_elsewhere(kept) {
        return Err("Invalid configuration name".to_owned());
    }
    if !holds_only_allowed(kept) {
        return Err("Configuration name contains invalid characters".to_owned());
    }
    Ok(kept.to_owned())
}

/// A name that was sanitized.
#[derive(Debug)]
pub struct ProfileName {
    text: String,
}

impl ProfileName {
    pub closed spec fn view(&self) -> Seq<char> {
        self.text@
    }

    #[verifier::type_invariant]
    spec fn clean(self) -> bool {
        is_clean(self.text@)
    }

    /// Sanitize what the user typed.
    pub fn new(name: &str) -> (r: Result<ProfileName, String>)
        ensures
            match sanitized(name@) {
                Ok(kept) => r matches Ok(clean) && clean@ == kept && is_clean(clean@),
                Err(error) => r matches Err(text) && text@ == name_error_text(error),
            },
    {
        match sanitize_name(name) {
            Ok(text) => Ok(ProfileName { text }),
            Err(text) => Err(text),
        }
    }

    pub fn as_str(&self) -> (r: &str)
        ensures
            r@ == self@,
            is_clean(r@),
    {
        proof {
            use_type_invariant(self);
        }
        self.text.as_str()
    }
}

proof fn lemma_trim_start(s: Seq<char>)
    ensures
        trim_start(s).len() == 0 || !is_white_space(trim_start(s)[0]),
    decreases s.len(),
{
    if s.len() > 0 && is_white_space(s[0]) {
        lemma_trim_start(s.skip(1));
    }
}

proof fn lemma_trim_end(s: Seq<char>)
    ensures
        trim_end(s).len() <= s.len(),
        trim_end(s) == s.take(trim_end(s).len() as int),
        trim_end(s).len() == 0 || !is_white_space(trim_end(s).last()),
    decreases s.len(),
{
    if s.len() > 0 && is_white_space(s.last()) {
        lemma_trim_end(s.drop_last());
        assert(s.drop_last().take(trim_end(s).len() as int) =~= s.take(trim_end(s).len() as int));
    } else {
        assert(s.take(s.len() as int) =~= s);
    }
}

proof fn lemma_trimmed_twice(s: Seq<char>)
    ensures
        trimmed(trimmed(s)) == trimmed(s),
{
    let started = trim_start(s);
    lemma_trim_start(s);
    lemma_trim_end(started);
    let kept = trimmed(s);
    if kept.len() > 0 {
        assert(kept[0] == started[0]);
    }
}

/// The file that a profile is kept in.
pub open spec fn file_of(name: Seq<char>) -> Seq<char> {
    name + ".json"@
}

/// The name of the file that a profile is kept in.
pub fn config_file_name(name: &str) -> (file: String)
    ensures
        file@ == file_of(name@),
{
    let mut file: String = name.to_owned();
    file.append(".json");
    file
}

/// Sanitizing a name that has been sanitized changes nothing: what the program shows as a
/// name finds the same profile again.
pub proof fn sanitizing_twice_changes_nothing(name: Seq<char>)
    requires
        sanitized(name) is Ok,
    ensures
        sanitized(sanitized(name)->Ok_0) == sanitized(name),
{
    lemma_trimmed_twice(name);
}

/// A file name that does not lead out of the directory.
pub open spec fn stays_inside(file: Seq<char>) -> bool {
    file.len() > 0 && !leads_elsewhere(file)
}

/// No name leads out of the directory of the profiles: the file of a clean name holds no
/// separator, and no dot but the one of its ending.
pub proof fn clean_name_stays_inside(name: Seq<char>)
    requires
        is_clean(name),
    ensures
        stays_inside(file_of(name)),
        !name.contains('.'),
        name.len() > 0,
{
    reveal_strlit(".json");
    let file = file_of(name);
    assert forall|i: int| 0 <= i < name.len() implies #[trigger] name[i] != '/' && name[i] != '\\'
        && name[i] != '.' by {
        assert((name[i] as int) < 0x80 ==> allowed(name[i], ascii_alphanumeric(name[i])));
    }
    assert forall|i: int| 0 <= i < file.len() implies #[trigger] file[i] != '/' && file[i] != '\\'
        && (file[i] == '.' ==> i == name.len()) by {
        if i >= name.len() {
            assert(file[i] == ".json"@[i - name.len()]);
        }
    }
}

/// Different profiles are kept in different files.
pub proof fn files_tell_names_apart(a: Seq<char>, b: Seq<char>)
    requires
        file_of(a) == file_of(b),
    ensures
        a == b,
{
    assert(file_of(a).len() == a.len() + ".json"@.len());
    assert(file_of(b).len() == b.len() + ".json"@.len());
    assert(a =~= file_of(a).take(a.len() as int));
    assert(b =~= file_of(b).take(b.len() as int));
}

/// The part of a file name before the ending of a profile.
pub open spec fn stem(file: Seq<char>) -> Option<Seq<char>> {
    let ending = ".json"@;
    let length = file.len() - ending.len();
    if length > 0 && file.skip(length) == ending {
        Some(file.take(length))
    } else {
        None
    }
}

/// The profile that a file holds. Files with other endings, and files whose names would
/// not survive sanitizing, hold none.
pub open spec fn listed(file: Seq<char>) -> Option<Seq<char>> {
    match stem(file) {
        Some(name) => if sanitized(name) == Ok::<Seq<char>, NameError>(name) {
            Some(name)
        } else {
            None
        },
        None => None,
    }
}

/// The name of the profile that a file holds, if it holds one.
pub fn profile_of_file(file: &str) -> (r: Option<String>)
    ensures
        match listed(file@) {
            Some(name) => r matches Some(found) && found@ == name && is_clean(found@),
            None => r is None,
        },
{
    proof {
        reveal_strlit(".json");
    }
    let length: usize = file.unicode_len();
    if length <= 5 {
        return None;
    }
    let ending: &str = file.substring_char(length - 5, length);
    assert(ending@ == file@.skip(length - 5));
    if !same_text(ending, ".json") {
        return None;
    }
    let name: &str = file.substring_char(0, length - 5);
    assert(name@ == file@.take(length - 5));
    match sanitize_name(name) {
        Ok(clean) => {
            if same_text(clean.as_str(), name) {
                Some(clean)
            } else {
                None
            }
        },
        Err(_) => None,
    }
}

/// A profile that was saved under a clean name is found again under that name.
pub proof fn saved_profile_is_listed(name: Seq<char>)
    requires
        is_clean(name),
    ensures
        listed(file_of(name)) == Some(name),
{
    assert(file_of(name).skip(name.len() as int) =~= ".json"@);
    assert(file_of(name).take(name.len() as int) =~= name);
}

} // verus!
