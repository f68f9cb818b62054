//! File-name rules and the error type of the on-disk stores.
use vstd::prelude::*;
use vstd::string::StringSliceAdditionalSpecFns;
use vstd::utf8::encode_utf8;
use crate::text::{char_is_control, is_control, is_white_space, char_is_whitespace, push_char, push_str};

verus! {

/// Failure of a load, save or delete on the local data directory.
/// Paths and underlying causes are carried as their display text.
#[derive(Debug)]
pub enum FileIoError {
    Io { path: String, source: String },
    NotFound { path: String },
    Serde { path: String, source: String },
    Validation { message: String },
}

/// Longest accepted name, in UTF-8 bytes.
pub const MAX_NAME_BYTES: usize = 240;

/// The message for a character that may not appear in a name, if it is one.
pub open spec fn char_violation(c: char) -> Option<Seq<char>> {
    if c == '/' || c == '\\' {
        Some("Name cannot contain path separators ('/' or '\\')"@)
    } else if c == '\0' {
        Some("Name cannot contain null bytes"@)
    } else if c == '<' || c == '>' || c == ':' || c == '"' || c == '|' || c == '?' || c == '*' {
        Some("Name cannot contain '"@ + seq![c] + "'"@)
    } else if is_control(c) {
        Some("Name cannot contain control characters"@)
    } else {
        None
    }
}

/// The message for the first offending character of `s`, scanning from the front.
pub open spec fn first_char_violation(s: Seq<char>) -> Option<Seq<char>>
    decreases s.len(),
{
    if s.len() == 0 {
        None
    } else if char_violation(s[0]) is Some {
        char_violation(s[0])
    } else {
        first_char_violation(s.drop_first())
    }
}

/// Why a name with characters `s` and UTF-8 length `byte_len` is refused, if it is.
pub open spec fn name_violation(s: Seq<char>, byte_len: nat) -> Option<Seq<char>> {
    if s.len() == 0 {
        Some("Name cannot be empty"@)
    } else if byte_len > MAX_NAME_BYTES {
        Some("Name too long (maximum 240 characters)"@)
    } else if is_white_space(s[0]) || is_white_space(s.last()) {
        Some("Name cannot start or end with whitespace"@)
    } else if s == seq!['.'] || s == seq!['.', '.'] {
        Some("Invalid name"@)
    } else {
        first_char_violation(s)
    }
}

proof fn lemma_first_violation_prefix(s: Seq<char>, i: int)
    requires
        0 <= i < s.len(),
        forall|k: int| 0 <= k < i ==> char_violation(#[trigger] s[k]) is None,
    ensures
        first_char_violation(s) == first_char_violation(s.subrange(i, s.len() as int)),
    decreases i,
{
    if i > 0 {
        let t = s.drop_first();
        assert forall|k: int| 0 <= k < i - 1 implies char_violation(#[trigger] t[k]) is None by {
            assert(t[k] == s[k + 1]);
        }
        assert(char_violation(s[0]) is None);
        lemma_first_violation_prefix(t, i - 1);
        assert(t.subrange(i - 1, t.len() as int) =~= s.subrange(i, s.len() as int));
    } else {
        assert(s.subrange(0, s.len() as int) =~= s);
    }
}

proof fn lemma_no_violation(s: Seq<char>)
    requires
        forall|k: int| 0 <= k < s.len() ==> char_violation(#[trigger] s[k]) is None,
    ensures
        first_char_violation(s) is None,
    decreases s.len(),
{
    if s.len() > 0 {
        let t = s.drop_first();
        assert forall|k: int| 0 <= k < t.len() implies char_violation(#[trigger] t[k]) is None by {
            assert(t[k] == s[k + 1]);
        }
        assert(char_violation(s[0]) is None);
        lemma_no_violation(t);
    }
}

/// The characters a name may not hold: path separators, NUL, `<>:"|?*` and control
/// characters. Every other character is accepted, and each refused one is refused with
/// its own message; one of `<>:"|?*` is named in the message.
pub proof fn law_refused_characters(c: char)
    ensures
        char_violation(c) is Some <==> (c == '/' || c == '\\' || c == '\0' || c == '<' || c == '>' || c == ':'
            || c == '"' || c == '|' || c == '?' || c == '*' || (c as u32) <= 0x1f || (0x7f <= (c as u32)
            && (c as u32) <= 0x9f)),
        (c == '/' || c == '\\') ==> char_violation(c) == Some(
            "Name cannot contain path separators ('/' or '\\')"@,
        ),
        c == '\0' ==> char_violation(c) == Some("Name cannot contain null bytes"@),
        (c == '<' || c == '>' || c == ':' || c == '"' || c == '|' || c == '?' || c == '*') ==> char_violation(c)
            == Some("Name cannot contain '"@ + seq![c] + "'"@),
        c != '\0' && ((c as u32) <= 0x1f || (0x7f <= (c as u32) && (c as u32) <= 0x9f)) ==> char_violation(c)
            == Some("Name cannot contain control characters"@),
{
}

/// A name of the right shape (not empty, at most 240 bytes, no white space at either
/// end, not `.` or `..`) is accepted exactly when each of its characters is accepted on
/// its own; otherwise the refusal names the first refused character.
pub proof fn law_name_characters(s: Seq<char>, byte_len: nat)
    requires
        s.len() > 0,
        byte_len <= MAX_NAME_BYTES,
        !is_white_space(s[0]),
        !is_white_space(s.last()),
        s != seq!['.'],
        s != seq!['.', '.'],
    ensures
        name_violation(s, byte_len) is None <==> forall|k: int| 0 <= k < s.len() ==> char_violation(#[trigger] s[k]) is None,
        forall|i: int|
            0 <= i < s.len() && char_violation(#[trigger] s[i]) is Some && (forall|k: int| 0 <= k < i ==> char_violation(#[trigger] s[k]) is None)
                ==> name_violation(s, byte_len) == char_violation(s[i]),
{
    if forall|k: int| 0 <= k < s.len() ==> char_violation(#[trigger] s[k]) is None {
        lemma_no_violation(s);
    }
    assert forall|i: int|
        0 <= i < s.len() && char_violation(#[trigger] s[i]) is Some && (forall|k: int| 0 <= k < i ==> char_violation(#[trigger] s[k]) is None)
            implies name_violation(s, byte_len) == char_violation(s[i]) by {
        lemma_first_violation_prefix(s, i);
        assert(s.subrange(i, s.len() as int)[0] == s[i]);
    }
    if exists|i: int| 0 <= i < s.len() && char_violation(#[trigger] s[i]) is Some {
        lemma_some_violation(s);
    }
}

/// The characters no name may hold: `/`, `\`, NUL, `<>:"|?*` and the control characters.
pub open spec fn is_refused_char(c: char) -> bool {
    ||| c == '/' || c == '\\' || c == '\0'
    ||| c == '<' || c == '>' || c == ':' || c == '"' || c == '|' || c == '?' || c == '*'
    ||| (c as u32) <= 0x1f
    ||| 0x7f <= (c as u32) && (c as u32) <= 0x9f
}

/// A name is accepted exactly when it is not empty, takes at most 240 bytes, has no white
/// space at either end, is neither `.` nor `..`, and holds no refused character. The
/// rules are tried in that order and the first that fails gives the message.
pub proof fn law_name_accepted(s: Seq<char>, byte_len: nat)
    ensures
        name_violation(s, byte_len) is None <==> {
            &&& s.len() > 0
            &&& byte_len <= 240
            &&& !is_white_space(s[0]) && !is_white_space(s[s.len() - 1])
            &&& s != seq!['.'] && s != seq!['.', '.']
            &&& forall|k: int| 0 <= k < s.len() ==> !is_refused_char(#[trigger] s[k])
        },
        s.len() == 0 ==> name_violation(s, byte_len) == Some("Name cannot be empty"@),
        s.len() > 0 && byte_len > 240 ==> name_violation(s, byte_len) == Some(
            "Name too long (maximum 240 characters)"@,
        ),
        s.len() > 0 && byte_len <= 240 && (is_white_space(s[0]) || is_white_space(s[s.len() - 1]))
            ==> name_violation(s, byte_len) == Some("Name cannot start or end with whitespace"@),
        s.len() > 0 && byte_len <= 240 && !is_white_space(s[0]) && !is_white_space(s[s.len() - 1]) && (s
            == seq!['.'] || s == seq!['.', '.']) ==> name_violation(s, byte_len) == Some("Invalid name"@),
{
    if s.len() > 0 && byte_len <= 240 && !is_white_space(s[0]) && !is_white_space(s[s.len() - 1])
        && s != seq!['.'] && s != seq!['.', '.'] {
        law_name_characters(s, byte_len);
        assert forall|k: int| 0 <= k < s.len() implies (char_violation(#[trigger] s[k]) is None <==> !is_refused_char(s[k])) by {
            law_refused_characters(s[k]);
        }
    }
}

proof fn lemma_some_violation(s: Seq<char>)
    requires
        exists|i: int| 0 <= i < s.len() && char_violation(#[trigger] s[i]) is Some,
    ensures
        first_char_violation(s) is Some,
    decreases s.len(),
{
    if char_violation(s[0]) is None {
        let i = choose|i: int| 0 <= i < s.len() && char_violation(#[trigger] s[i]) is Some;
        let t = s.drop_first();
        assert(char_violation(t[i - 1]) is Some);
        lemma_some_violation(t);
    }
}

fn validation(message: String) -> (e: FileIoError)
    ensures
        e == (FileIoError::Validation { message }),
{
    FileIoError::Validation { message }
}

fn char_message(c: char) -> (r: Option<String>)
    ensures
        match r {
            Some(m) => char_violation(c) == Some(m@),
            None => char_violation(c) is None,
        },
{
    if c == '/' || c == '\\' {
        Some(String::from_str("Name cannot contain path separators ('/' or '\\')"))
    } else if c == '\0' {
        Some(String::from_str("Name cannot contain null bytes"))
    } else if c == '<' || c == '>' || c == ':' || c == '"' || c == '|' || c == '?' || c == '*' {
        let mut m = String::from_str("Name cannot contain '");
        push_char(&mut m, c);
        push_str(&mut m, "'");
        Some(m)
    } else if char_is_control(c) {
        Some(String::from_str("Name cannot contain control characters"))
    } else {
        None
    }
}

/// Checks that `name` can serve as the stem of a file in a data directory:
/// not empty, at most 240 UTF-8 bytes, no white space at either end, not `.`
/// or `..`, and free of path separators, NUL, `<>:"|?*` and control characters.
/// The error names the first rule that fails.
pub fn validate_filename(name: &str) -> (r: Result<(), FileIoError>)
    ensures
        match r {
            Ok(()) => name_violation(name@, name.spec_bytes().len()) is None,
            Err(FileIoError::Validation { message }) => name_violation(
                name@,
                name.spec_bytes().len(),
            ) == Some(message@),
            Err(_) => false,
        },
{
    let n = name.unicode_len();
    if n == 0 {
        return Err(validation(String::from_str("Name cannot be empty")));
    }
    if name.as_bytes().len() > MAX_NAME_BYTES {
        return Err(validation(String::from_str("Name too long (maximum 240 characters)")));
    }
    if char_is_whitespace(name.get_char(0)) || char_is_whitespace(name.get_char(n - 1)) {
        return Err(validation(String::from_str("Name cannot start or end with whitespace")));
    }
    let is_dot = n == 1 && name.get_char(0) == '.';
    let is_dot_dot = n == 2 && name.get_char(0) == '.' && name.get_char(1) == '.';
    proof {
        if name@ == seq!['.'] {
            assert(name@[0] == '.');
        }
        if name@ == seq!['.', '.'] {
            assert(name@[0] == '.' && name@[1] == '.');
        }
        if is_dot {
            assert(name@ =~= seq!['.']);
        }
        if is_dot_dot {
            assert(name@ =~= seq!['.', '.']);
        }
    }
    if is_dot || is_dot_dot {
        return Err(validation(String::from_str("Invalid name")));
    }
    let mut i: usize = 0;
    while i < n
        invariant
            n == name@.len(),
            i <= n,
            n > 0,
            name.spec_bytes().len() <= MAX_NAME_BYTES,
            !is_white_space(name@[0]) && !is_white_space(name@.last()),
            name@ != seq!['.'] && name@ != seq!['.', '.'],
            forall|k: int| 0 <= k < i ==> char_violation(#[trigger] name@[k]) is None,
        decreases n - i,
    {
        let c = name.get_char(i);
        match char_message(c) {
            Some(m) => {
                proof {
                    lemma_first_violation_prefix(name@, i as int);
                    assert(name@.subrange(i as int, n as int)[0] == c);
                }
                return Err(validation(m));
            },
            None => {},
        }
        i = i + 1;
    }
    proof {
        lemma_no_violation(name@);
    }
    Ok(())
}

impl FileIoError {
    /// The text this error displays.
    pub open spec fn spec_message(&self) -> Seq<char> {
        match self {
            FileIoError::Io { path, source } => "I/O error at "@ + path@ + ": "@ + source@,
            FileIoError::NotFound { path } => "File not found: "@ + path@,
            FileIoError::Serde { path, source } => "Failed to parse JSON at "@ + path@ + ": "@
                + source@,
            FileIoError::Validation { message } => "Validation error: "@ + message@,
        }
    }

    /// Renders the error for a user.
    pub fn message(&self) -> (s: String)
        ensures
            s@ == self.spec_message(),
    {
        match self {
            FileIoError::Io { path, source } => {
                let mut s = String::from_str("I/O error at ");
                push_str(&mut s, path.as_str());
                push_str(&mut s, ": ");
                push_str(&mut s, source.as_str());
                s
            },
            FileIoError::NotFound { path } => {
                let mut s = String::from_str("File not found: ");
                push_str(&mut s, path.as_str());
                s
            },
            FileIoError::Serde { path, source } => {
                let mut s = String::from_str("Failed to parse JSON at ");
                push_str(&mut s, path.as_str());
                push_str(&mut s, ": ");
                push_str(&mut s, source.as_str());
                s
            },
            FileIoError::Validation { message } => {
                let mut s = String::from_str("Validation error: ");
                push_str(&mut s, message.as_str());
                s
            },
        }
    }
}


/// One entry of a data directory as read: its file name and whether it is a regular file.
#[derive(Debug, Clone)]
pub struct DirEntryInfo {
    pub file_name: String,
    pub is_file: bool,
}

/// The index of the last `.` in `s`.
pub open spec fn last_dot(s: Seq<char>) -> Option<int>
    decreases s.len(),
{
    if s.len() == 0 {
        None
    } else if s.last() == '.' {
        Some(s.len() - 1)
    } else {
        last_dot(s.drop_last())
    }
}

/// Stem and extension of a file name, split as `Path::file_stem` and `Path::extension`
/// split it: at the last dot, unless that dot opens the name (a hidden file) or the name
/// is `..`; without such a dot there is no extension.
pub open spec fn split_extension(name: Seq<char>) -> (Seq<char>, Option<Seq<char>>) {
    if name == seq!['.', '.'] {
        (name, None)
    } else {
        match last_dot(name) {
            Some(i) if i > 0 => (name.take(i), Some(name.skip(i + 1))),
            _ => (name, None),
        }
    }
}

/// Whether `s` passes `validate_filename`.
pub open spec fn is_valid_name(s: Seq<char>) -> bool {
    name_violation(s, encode_utf8(s).len()) is None
}

/// The name under which a directory entry is listed: the stem of a regular file with
/// the store's extension, when the stem is a valid name.
pub open spec fn listed_stem(file_name: Seq<char>, is_file: bool, ext: Seq<char>) -> Option<Seq<char>> {
    let (stem, x) = split_extension(file_name);
    if x == Some(ext) && is_file && is_valid_name(stem) {
        Some(stem)
    } else {
        None
    }
}

/// The listed names of `entries`, in directory order.
pub open spec fn spec_listed(entries: Seq<DirEntryInfo>, ext: Seq<char>) -> Seq<Seq<char>>
    decreases entries.len(),
{
    if entries.len() == 0 {
        Seq::empty()
    } else {
        let rest = spec_listed(entries.drop_last(), ext);
        match listed_stem(entries.last().file_name@, entries.last().is_file, ext) {
            Some(stem) => rest.push(stem),
            None => rest,
        }
    }
}

/// What `str::to_lowercase` makes of a string.
pub uninterp spec fn lowercase(s: Seq<char>) -> Seq<char>;

/// Lower-cases a string (std `str::to_lowercase`).
#[verifier::external_body]
fn to_lowercase_string(s: &str) -> (r: String)
    ensures
        r@ == lowercase(s@),
{
    s.to_lowercase()
}

/// Strict order of strings by code points, first difference first, a proper prefix
/// before the longer string: the order of their UTF-8 bytes, which is how `String`
/// compares.
pub open spec fn key_less(a: Seq<char>, b: Seq<char>) -> bool
    decreases a.len(),
{
    if b.len() == 0 {
        false
    } else if a.len() == 0 {
        true
    } else if a[0] != b[0] {
        (a[0] as u32) < (b[0] as u32)
    } else {
        key_less(a.drop_first(), b.drop_first())
    }
}

/// The position at which `x` goes into `sorted`: after every name whose lower-cased form
/// does not come after that of `x`, up to the first one that does.
pub open spec fn insertion_point(sorted: Seq<Seq<char>>, x: Seq<char>) -> int
    decreases sorted.len(),
{
    if sorted.len() == 0 {
        0
    } else if key_less(lowercase(x), lowercase(sorted[0])) {
        0
    } else {
        1 + insertion_point(sorted.drop_first(), x)
    }
}

/// `names` sorted by their lower-cased forms; names whose lower-cased forms are equal
/// keep their order (a stable sort).
pub open spec fn sort_by_lowercase(names: Seq<Seq<char>>) -> Seq<Seq<char>>
    decreases names.len(),
{
    if names.len() == 0 {
        Seq::empty()
    } else {
        let sorted = sort_by_lowercase(names.drop_last());
        sorted.insert(insertion_point(sorted, names.last()), names.last())
    }
}

pub open spec fn views(s: Seq<String>) -> Seq<Seq<char>> {
    s.map_values(|x: String| x@)
}

/// Whether `a` comes before `b` in code point order.
fn chars_less(a: &str, b: &str) -> (r: bool)
    ensures
        r == key_less(a@, b@),
{
    let n = a.unicode_len();
    let m = b.unicode_len();
    let mut i: usize = 0;
    proof {
        assert(a@.skip(0) =~= a@);
        assert(b@.skip(0) =~= b@);
    }
    while i < n && i < m
        invariant
            n == a@.len(),
            m == b@.len(),
            i <= n,
            i <= m,
            key_less(a@, b@) == key_less(a@.skip(i as int), b@.skip(i as int)),
        decreases n - i,
    {
        let ca = a.get_char(i);
        let cb = b.get_char(i);
        proof {
            assert(a@.skip(i as int)[0] == ca);
            assert(b@.skip(i as int)[0] == cb);
        }
        if ca != cb {
            return (ca as u32) < (cb as u32);
        }
        proof {
            assert(a@.skip(i as int).drop_first() =~= a@.skip(i + 1));
            assert(b@.skip(i as int).drop_first() =~= b@.skip(i + 1));
        }
        i = i + 1;
    }
    i < m
}

proof fn lemma_insertion_point(sorted: Seq<Seq<char>>, x: Seq<char>, p: int)
    requires
        0 <= p <= sorted.len(),
        forall|j: int| 0 <= j < p ==> !key_less(lowercase(x), #[trigger] lowercase(sorted[j])),
        p < sorted.len() ==> key_less(lowercase(x), lowercase(sorted[p])),
    ensures
        insertion_point(sorted, x) == p,
    decreases p,
{
    if p > 0 {
        let t = sorted.drop_first();
        assert forall|j: int| 0 <= j < p - 1 implies !key_less(lowercase(x), #[trigger] lowercase(t[j])) by {
            assert(t[j] == sorted[j + 1]);
        }
        assert(!key_less(lowercase(x), lowercase(sorted[0])));
        if p < sorted.len() {
            assert(t[p - 1] == sorted[p]);
        }
        lemma_insertion_point(t, x, p - 1);
    }
}

/// Sorts names by their lower-cased forms, keeping the order of names that compare equal.
pub fn sort_names_case_insensitive(names: Vec<String>) -> (r: Vec<String>)
    ensures
        views(r@) == sort_by_lowercase(views(names@)),
{
    let ghost v = views(names@);
    let mut out: Vec<String> = Vec::new();
    let mut keys: Vec<String> = Vec::new();
    let mut i: usize = 0;
    while i < names.len()
        invariant
            i <= names@.len(),
            v == views(names@),
            keys@.len() == out@.len(),
            forall|j: int| 0 <= j < out@.len() ==> #[trigger] keys@[j]@ == lowercase(out@[j]@),
            views(out@) == sort_by_lowercase(v.take(i as int)),
        decreases names.len() - i,
    {
        let name = names[i].clone();
        let key = to_lowercase_string(name.as_str());
        let ghost sorted = views(out@);
        let mut p: usize = 0;
        while p < out.len() && !chars_less(key.as_str(), keys[p].as_str())
            invariant
                p <= out@.len(),
                keys@.len() == out@.len(),
                sorted == views(out@),
                key@ == lowercase(name@),
                forall|j: int| 0 <= j < out@.len() ==> #[trigger] keys@[j]@ == lowercase(out@[j]@),
                forall|j: int| 0 <= j < p ==> !key_less(lowercase(name@), #[trigger] lowercase(sorted[j])),
            decreases out.len() - p,
        {
            proof {
                assert(sorted[p as int] == out@[p as int]@);
            }
            p = p + 1;
        }
        proof {
            if p < out@.len() {
                assert(sorted[p as int] == out@[p as int]@);
            }
            lemma_insertion_point(sorted, name@, p as int);
            assert(v.take(i + 1).drop_last() =~= v.take(i as int));
            assert(v.take(i + 1).last() == name@);
        }
        let ghost old_out = out@;
        let ghost old_keys = keys@;
        out.insert(p, name);
        keys.insert(p, key);
        proof {
            assert(views(out@) =~= sorted.insert(p as int, name@));
            assert forall|j: int| 0 <= j < out@.len() implies #[trigger] keys@[j]@ == lowercase(out@[j]@) by {
                if j < p {
                    assert(keys@[j] == old_keys[j] && out@[j] == old_out[j]);
                } else if j > p {
                    assert(keys@[j] == old_keys[j - 1] && out@[j] == old_out[j - 1]);
                }
            }
        }
        i = i + 1;
    }
    proof {
        assert(v.take(names@.len() as int) =~= v);
    }
    out
}

/// The stem of a file name and whether it has the extension `ext`.
fn split_stem(file_name: &str, ext: &str) -> (r: (String, bool))
    ensures
        r.0@ == split_extension(file_name@).0,
        r.1 == (split_extension(file_name@).1 == Some(ext@)),
{
    let n = file_name.unicode_len();
    let mut i = n;
    proof {
        assert(file_name@.take(n as int) =~= file_name@);
    }
    while i > 0 && file_name.get_char(i - 1) != '.'
        invariant
            i <= n,
            n == file_name@.len(),
            last_dot(file_name@) == last_dot(file_name@.take(i as int)),
        decreases i,
    {
        proof {
            assert(file_name@.take(i as int).drop_last() =~= file_name@.take(i - 1));
        }
        i = i - 1;
    }
    let is_dotdot = n == 2 && file_name.get_char(0) == '.' && file_name.get_char(1) == '.';
    proof {
        if is_dotdot {
            assert(file_name@ =~= seq!['.', '.']);
        }
        if n == 2 && file_name@ == seq!['.', '.'] {
            assert(file_name@[0] == '.' && file_name@[1] == '.');
        }
    }
    if is_dotdot || i <= 1 {
        proof {
            if i == 1 {
                assert(file_name@.take(1).last() == file_name@[0]);
            }
        }
        return (String::from_str(file_name), false);
    }
    let dot = i - 1;
    proof {
        assert(file_name@.take(i as int).last() == file_name@[dot as int]);
        assert(last_dot(file_name@) == Some(dot as int));
    }
    let stem = file_name.substring_char(0, dot);
    let x = file_name.substring_char(i, n);
    proof {
        assert(x@ =~= file_name@.skip(i as int));
    }
    let has_ext = crate::text::str_eq(x, ext);
    proof {
        assert(stem@ =~= file_name@.take(dot as int));
    }
    (String::from_str(stem), has_ext)
}

/// The names a store lists for the entries of its directory: the stems of the regular
/// files with its extension that are valid names, sorted case-insensitively.
pub fn listed_names(entries: &Vec<DirEntryInfo>, ext: &str) -> (names: Vec<String>)
    ensures
        views(names@) == sort_by_lowercase(spec_listed(entries@, ext@)),
{
    let mut stems: Vec<String> = Vec::new();
    let mut i: usize = 0;
    while i < entries.len()
        invariant
            i <= entries@.len(),
            views(stems@) == spec_listed(entries@.take(i as int), ext@),
        decreases entries.len() - i,
    {
        let e = &entries[i];
        let (stem, has_ext) = split_stem(e.file_name.as_str(), ext);
        let ghost before = views(stems@);
        proof {
            assert(entries@.take(i + 1).drop_last() =~= entries@.take(i as int));
            assert(entries@.take(i + 1).last() == entries@[i as int]);
        }
        if has_ext && e.is_file {
            match validate_filename(stem.as_str()) {
                Ok(()) => {
                    stems.push(stem);
                    proof {
                        assert(views(stems@) =~= before.push(stems@.last()@));
                    }
                },
                Err(_) => {},
            }
        }
        i = i + 1;
    }
    proof {
        assert(entries@.take(entries@.len() as int) =~= entries@);
    }
    sort_names_case_insensitive(stems)
}

proof fn lemma_key_less_transitive(a: Seq<char>, b: Seq<char>, c: Seq<char>)
    requires
        key_less(a, b),
        key_less(b, c),
    ensures
        key_less(a, c),
    decreases a.len(),
{
    if a.len() > 0 && b.len() > 0 && c.len() > 0 && a[0] == b[0] && b[0] == c[0] {
        lemma_key_less_transitive(a.drop_first(), b.drop_first(), c.drop_first());
    }
}

proof fn lemma_key_less_irreflexive(a: Seq<char>)
    ensures
        !key_less(a, a),
    decreases a.len(),
{
    if a.len() > 0 {
        lemma_key_less_irreflexive(a.drop_first());
    }
}

pub open spec fn sorted_by_lowercase(s: Seq<Seq<char>>) -> bool {
    forall|i: int, j: int| 0 <= i < j < s.len() ==> !key_less(#[trigger] lowercase(s[j]), #[trigger] lowercase(s[i]))
}

proof fn lemma_insert_keeps_sorted(sorted: Seq<Seq<char>>, x: Seq<char>)
    requires
        sorted_by_lowercase(sorted),
    ensures
        0 <= insertion_point(sorted, x) <= sorted.len(),
        sorted_by_lowercase(sorted.insert(insertion_point(sorted, x), x)),
    decreases sorted.len(),
{
    if sorted.len() > 0 && !key_less(lowercase(x), lowercase(sorted[0])) {
        let t = sorted.drop_first();
        assert forall|i: int, j: int| 0 <= i < j < t.len() implies !key_less(#[trigger] lowercase(t[j]), #[trigger] lowercase(t[i])) by {
            assert(t[i] == sorted[i + 1] && t[j] == sorted[j + 1]);
        }
        lemma_insert_keeps_sorted(t, x);
        let p = insertion_point(t, x);
        let r = sorted.insert(p + 1, x);
        assert(r =~= seq![sorted[0]] + t.insert(p, x));
        let tr = t.insert(p, x);
        assert forall|i: int, j: int| 0 <= i < j < r.len() implies !key_less(#[trigger] lowercase(r[j]), #[trigger] lowercase(r[i])) by {
            if i == 0 {
                if j <= p {
                    assert(r[j] == sorted[j]);
                } else if j == p + 1 {
                    assert(r[j] == x);
                } else {
                    assert(r[j] == sorted[j - 1]);
                }
            } else {
                assert(r[i] == tr[i - 1] && r[j] == tr[j - 1]);
            }
        }
    } else if sorted.len() > 0 {
        let r = sorted.insert(0, x);
        assert forall|i: int, j: int| 0 <= i < j < r.len() implies !key_less(#[trigger] lowercase(r[j]), #[trigger] lowercase(r[i])) by {
            if i == 0 {
                assert(r[j] == sorted[j - 1]);
                if key_less(lowercase(sorted[j - 1]), lowercase(x)) {
                    lemma_key_less_transitive(lowercase(sorted[j - 1]), lowercase(x), lowercase(sorted[0]));
                    lemma_key_less_irreflexive(lowercase(sorted[0]));
                }
            } else {
                assert(r[i] == sorted[i - 1] && r[j] == sorted[j - 1]);
            }
        }
    }
}

/// A store's listing is in case-insensitive order.
pub proof fn law_listing_sorted(names: Seq<Seq<char>>)
    ensures
        sorted_by_lowercase(sort_by_lowercase(names)),
    decreases names.len(),
{
    if names.len() > 0 {
        law_listing_sorted(names.drop_last());
        lemma_insert_keeps_sorted(sort_by_lowercase(names.drop_last()), names.last());
    }
}

/// Sorting a listing neither drops nor adds a name.
pub proof fn law_listing_is_permutation(names: Seq<Seq<char>>)
    ensures
        sort_by_lowercase(names).to_multiset() == names.to_multiset(),
    decreases names.len(),
{
    broadcast use vstd::seq_lib::group_to_multiset_ensures;
    if names.len() > 0 {
        let sorted = sort_by_lowercase(names.drop_last());
        law_listing_is_permutation(names.drop_last());
        lemma_insertion_point_bounds(sorted, names.last());
        assert(names.drop_last().push(names.last()) =~= names);
    }
}

proof fn lemma_insertion_point_bounds(sorted: Seq<Seq<char>>, x: Seq<char>)
    ensures
        0 <= insertion_point(sorted, x) <= sorted.len(),
    decreases sorted.len(),
{
    if sorted.len() > 0 {
        lemma_insertion_point_bounds(sorted.drop_first(), x);
    }
}

/// Every listed name is a valid file name with the store's extension behind it.
pub proof fn law_listed_names_valid(entries: Seq<DirEntryInfo>, ext: Seq<char>, k: int)
    requires
        0 <= k < spec_listed(entries, ext).len(),
    ensures
        is_valid_name(spec_listed(entries, ext)[k]),
    decreases entries.len(),
{
    let rest = spec_listed(entries.drop_last(), ext);
    if k < rest.len() {
        law_listed_names_valid(entries.drop_last(), ext, k);
    }
}


/// The error of a failed file operation on `path`: `NotFound` when the file or directory
/// does not exist, otherwise an I/O error carrying the cause's text.
pub fn map_io_error(path: String, not_found: bool, cause: String) -> (e: FileIoError)
    ensures
        not_found ==> e == (FileIoError::NotFound { path }),
        !not_found ==> e == (FileIoError::Io { path, source: cause }),
{
    if not_found {
        FileIoError::NotFound { path }
    } else {
        FileIoError::Io { path, source: cause }
    }
}

/// The file that a named store keeps `name` in: `<dir>/<name>.<ext>`. A name that
/// `validate_filename` refuses gets its error and no path.
pub fn named_file_path(dir: &str, name: &str, ext: &str) -> (r: Result<String, FileIoError>)
    ensures
        match r {
            Ok(p) => is_valid_name(name@) && p@ == crate::paths::join_relative(
                dir@,
                name@ + "."@ + ext@,
            ),
            Err(FileIoError::Validation { message }) => name_violation(
                name@,
                encode_utf8(name@).len(),
            ) == Some(message@),
            Err(_) => false,
        },
{
    match validate_filename(name) {
        Ok(()) => {},
        Err(e) => {
            return Err(e);
        },
    }
    let mut file = String::from_str(name);
    push_str(&mut file, ".");
    push_str(&mut file, ext);
    Ok(crate::paths::join_path(dir, file.as_str()))
}


proof fn lemma_no_violation_each(s: Seq<char>, k: int)
    requires
        first_char_violation(s) is None,
        0 <= k < s.len(),
    ensures
        char_violation(s[k]) is None,
    decreases k,
{
    if k > 0 {
        assert(s.drop_first()[k - 1] == s[k]);
        lemma_no_violation_each(s.drop_first(), k - 1);
    }
}

/// A name `validate_filename` accepts names a file directly inside its directory: it is
/// neither empty, `.` nor `..`, and holds no path separator.
pub proof fn law_valid_names_stay_in_directory(name: Seq<char>)
    requires
        is_valid_name(name),
    ensures
        name.len() > 0,
        name != seq!['.'] && name != seq!['.', '.'],
        forall|k: int| 0 <= k < name.len() ==> name[k] != '/' && name[k] != '\\',
{
    assert forall|k: int| 0 <= k < name.len() implies name[k] != '/' && name[k] != '\\' by {
        lemma_no_violation_each(name, k);
    }
}

} // verus!
