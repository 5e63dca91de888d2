//! Character-level rules: brace escaping, path detection, argument joining
//! and the normalisation of converted paths.
use vstd::prelude::*;
use vstd::string::{StrSliceExecFns, StringExecFns};
use vstd::utf8::{decode_utf8, valid_utf8};

verus! {

/// What one character becomes when braces are escaped.
pub open spec fn escape_char(c: char) -> Seq<char> {
    if c == '{' {
        seq!['\\', '{']
    } else if c == '}' {
        seq!['\\', '}']
    } else {
        seq![c]
    }
}

/// `s` with every `{` replaced by `\{` and every `}` by `\}`.
pub open spec fn escaped(s: Seq<char>) -> Seq<char>
    decreases s.len(),
{
    if s.len() == 0 {
        seq![]
    } else {
        escaped(s.drop_last()) + escape_char(s.last())
    }
}

/// `p` occurs in `s` starting at position `i`.
pub open spec fn occurs_at(s: Seq<char>, p: Seq<char>, i: int) -> bool {
    0 <= i && i + p.len() <= s.len() && s.subrange(i, i + p.len()) == p
}

/// `p` is a substring of `s`.
pub open spec fn contains(s: Seq<char>, p: Seq<char>) -> bool {
    exists|i: int| occurs_at(s, p, i)
}

/// A drive-letter path: the text holds `:/` or `:\`.
pub open spec fn is_foreign_path(s: Seq<char>) -> bool {
    contains(s, seq![':', '/']) || contains(s, seq![':', '\\'])
}

/// The arguments joined with single spaces.
pub open spec fn joined(args: Seq<Seq<char>>) -> Seq<char>
    decreases args.len(),
{
    if args.len() == 0 {
        seq![]
    } else if args.len() == 1 {
        args[0]
    } else {
        joined(args.drop_last()) + seq![' '] + args.last()
    }
}

/// The character views of a list of strings.
pub open spec fn views(v: Seq<String>) -> Seq<Seq<char>> {
    v.map_values(|s: String| s@)
}

/// A backslash becomes a forward slash; other characters stay.
pub open spec fn slash(c: char) -> char {
    if c == '\\' {
        '/'
    } else {
        c
    }
}

/// ASCII upper-case letters map to lower case; other characters stay.
pub open spec fn ascii_lower(c: char) -> char {
    if 'A' <= c && c <= 'Z' {
        ((c as u32) + 32) as char
    } else {
        c
    }
}

/// A converted path as it is handed back: backslashes become slashes and,
/// where the second character is `:`, the drive letter is lower-cased.
pub open spec fn normalized(s: Seq<char>) -> Seq<char> {
    let t = s.map_values(|c: char| slash(c));
    if t.len() >= 2 && t[1] == ':' {
        t.update(0, ascii_lower(t[0]))
    } else {
        t
    }
}

/// Relies on `String::push`: appends one character.
#[verifier::external_body]
pub(crate) fn push_char(s: &mut String, c: char)
    ensures
        final(s)@ == old(s)@.push(c),
{
    s.push(c)
}

/// Copies the characters of `s` into a vector.
fn char_vec(s: &str) -> (r: Vec<char>)
    ensures
        r@ == s@,
{
    let n = s.unicode_len();
    let mut r: Vec<char> = Vec::new();
    let mut i: usize = 0;
    while i < n
        invariant
            n == s@.len(),
            i <= n,
            r@ == s@.subrange(0, i as int),
        decreases n - i,
    {
        r.push(s.get_char(i));
        i = i + 1;
        assert(r@ == s@.subrange(0, i as int));
    }
    r
}

/// Escapes every `{` as `\{` and every `}` as `\}`.
pub fn escape_braces(s: &str) -> (r: String)
    ensures
        r@ == escaped(s@),
{
    let cs = char_vec(s);
    let mut r = String::new();
    let mut i: usize = 0;
    while i < cs.len()
        invariant
            cs@ == s@,
            i <= cs.len(),
            r@ == escaped(s@.subrange(0, i as int)),
        decreases cs.len() - i,
    {
        let c = cs[i];
        if c == '{' || c == '}' {
            push_char(&mut r, '\\');
        }
        push_char(&mut r, c);
        assert(s@.subrange(0, i + 1).drop_last() == s@.subrange(0, i as int));
        i = i + 1;
    }
    assert(s@.subrange(0, cs.len() as int) == s@);
    r
}

/// Whether `p` occurs in `s`.
pub fn contains_text(s: &str, p: &str) -> (r: bool)
    ensures
        r == contains(s@, p@),
{
    let cs = char_vec(s);
    let ps = char_vec(p);
    if ps.len() > cs.len() {
        return false;
    }
    let last = cs.len() - ps.len();
    let mut i: usize = 0;
    while i <= last
        invariant
            cs@ == s@,
            ps@ == p@,
            last == cs.len() - ps.len(),
            ps.len() <= cs.len(),
            i <= last + 1,
            forall|k: int| 0 <= k < i ==> !occurs_at(s@, p@, k),
        decreases last + 1 - i,
    {
        let mut j: usize = 0;
        let mut same = true;
        while j < ps.len()
            invariant
                cs@ == s@,
                ps@ == p@,
                i <= last,
                last == cs.len() - ps.len(),
                j <= ps.len(),
                same == (forall|k: int| 0 <= k < j ==> cs@[i + k] == ps@[k]),
            decreases ps.len() - j,
        {
            if cs[i + j] != ps[j] {
                same = false;
            }
            j = j + 1;
        }
        if same {
            assert(s@.subrange(i as int, i + p@.len()) =~= p@);
            assert(occurs_at(s@, p@, i as int));
            return true;
        }
        assert(!occurs_at(s@, p@, i as int)) by {
            let k = choose|k: int| 0 <= k < ps.len() && cs@[i + k] != ps@[k];
            assert(s@.subrange(i as int, i + p@.len())[k] != p@[k]);
        }
        i = i + 1;
    }
    proof {
        assert forall|k: int| !occurs_at(s@, p@, k) by {
            if 0 <= k && k + p@.len() <= s@.len() {
                assert(k < i);
            }
        }
    }
    false
}

/// Whether `s` names a drive-letter path, that is holds `:/` or `:\`.
pub fn is_drive_path(s: &str) -> (r: bool)
    ensures
        r == is_foreign_path(s@),
{
    proof {
        reveal_strlit(":/");
        reveal_strlit(":\\");
        assert(":/"@ =~= seq![':', '/']);
        assert(":\\"@ =~= seq![':', '\\']);
    }
    contains_text(s, ":/") || contains_text(s, ":\\")
}

/// The arguments joined with single spaces.
pub fn join_args(args: &Vec<String>) -> (r: String)
    ensures
        r@ == joined(views(args@)),
{
    let mut r = String::new();
    let mut i: usize = 0;
    while i < args.len()
        invariant
            i <= args.len(),
            r@ == joined(views(args@.subrange(0, i as int))),
        decreases args.len() - i,
    {
        let ghost before = args@.subrange(0, i as int);
        let ghost after = args@.subrange(0, i + 1);
        assert(views(after).drop_last() =~= views(before));
        if i > 0 {
            push_char(&mut r, ' ');
        }
        r.append(args[i].as_str());
        i = i + 1;
    }
    assert(args@.subrange(0, args.len() as int) =~= args@);
    r
}

/// Turns backslashes into slashes and lower-cases a leading drive letter.
pub fn normalize_drive_path(s: &str) -> (r: String)
    ensures
        r@ == normalized(s@),
{
    let cs = char_vec(s);
    let drive = cs.len() >= 2 && cs[1] == ':';
    let mut r = String::new();
    let mut i: usize = 0;
    let ghost t = s@.map_values(|c: char| slash(c));
    while i < cs.len()
        invariant
            cs@ == s@,
            i <= cs.len(),
            t == s@.map_values(|c: char| slash(c)),
            drive == (t.len() >= 2 && t[1] == ':'),
            r@.len() == i,
            forall|k: int|
                0 <= k < i ==> r@[k] == if drive && k == 0 {
                    ascii_lower(t[0])
                } else {
                    t[k]
                },
        decreases cs.len() - i,
    {
        let mut c = cs[i];
        if c == '\\' {
            c = '/';
        }
        if drive && i == 0 && 'A' <= c && c <= 'Z' {
            let b: u8 = c as u8;
            c = (b + 32) as char;
        }
        push_char(&mut r, c);
        i = i + 1;
    }
    assert(r@ =~= normalized(s@));
    r
}

/// The text of a captured output stream: its UTF-8 decoding, or nothing
/// where the bytes are not valid UTF-8.
pub open spec fn stream_text(b: Seq<u8>) -> Seq<char> {
    if valid_utf8(b) {
        decode_utf8(b)
    } else {
        seq![]
    }
}

/// Relies on `String::from_utf8`: it succeeds exactly on valid UTF-8, and
/// then holds the decoded characters.
#[verifier::external_body]
fn from_utf8(b: Vec<u8>) -> (r: Option<String>)
    ensures
        r is Some <==> valid_utf8(b@),
        r matches Some(s) ==> s@ == decode_utf8(b@),
{
    String::from_utf8(b).ok()
}

/// Decodes a captured output stream; bytes that are not valid UTF-8 give an
/// empty string.
pub fn decode_stream(b: Vec<u8>) -> (r: String)
    ensures
        r@ == stream_text(b@),
{
    match from_utf8(b) {
        Some(s) => s,
        None => String::new(),
    }
}

/// A copy of a list of strings.
pub fn copy_strings(v: &Vec<String>) -> (r: Vec<String>)
    ensures
        r@ == v@,
{
    let mut r: Vec<String> = Vec::new();
    let mut i: usize = 0;
    while i < v.len()
        invariant
            i <= v.len(),
            r@ == v@.subrange(0, i as int),
        decreases v.len() - i,
    {
        let s = v[i].clone();
        r.push(s);
        i = i + 1;
        assert(r@ =~= v@.subrange(0, i as int));
    }
    assert(v@.subrange(0, v.len() as int) =~= v@);
    r
}

} // verus!
