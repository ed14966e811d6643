use vstd::prelude::*;
use vstd::utf8::{decode_utf8, valid_utf8};

verus! {

/// What the mod-profile manager prints before the directory a profile
/// installs into.
pub const OUTPUT_DIR_PREFIX: &'static str = "        \r  Output directory:   ";

/// Relies on `String::from_utf8`: the text that valid UTF-8 bytes encode,
/// and nothing for invalid ones.
#[verifier::external_body]
pub(crate) fn text_of_bytes(bytes: Vec<u8>) -> (r: Option<String>)
    ensures
        r is Some <==> valid_utf8(bytes@),
        r matches Some(s) ==> s@ == decode_utf8(bytes@),
{
    String::from_utf8(bytes).ok()
}

/// `p` is the directory `d`, a slash, and a last component `f`, in a form
/// that every platform's path rules split there: `f` holds no separator and
/// is neither `.` nor `..`; `d` holds no backslash or colon (so no drive or
/// network prefix), does not start with two slashes, and does not end with
/// a slash or a dot.
pub open spec fn plain_split(p: Seq<char>, d: Seq<char>, f: Seq<char>) -> bool {
    &&& p == d + seq!['/'] + f
    &&& d.len() > 0
    &&& f.len() > 0
    &&& forall|k: int| 0 <= k < f.len() ==> f[k] != '/' && f[k] != '\\'
    &&& f != seq!['.']
    &&& f != seq!['.', '.']
    &&& forall|k: int| 0 <= k < d.len() ==> d[k] != '\\' && d[k] != ':'
    &&& d.last() != '/'
    &&& d.last() != '.'
    &&& !(d.len() >= 2 && d[0] == '/' && d[1] == '/')
}

/// Relies on `PathBuf::pop`: the path without its last component. The
/// result is a prefix of the path; in the plain form that every platform
/// splits alike, it is the directory part. What is cut otherwise depends on
/// the platform's path rules.
#[verifier::external_body]
pub(crate) fn parent_path(path: String) -> (r: String)
    ensures
        r@.len() <= path@.len(),
        r@ == path@.subrange(0, r@.len() as int),
        forall|d: Seq<char>, f: Seq<char>| plain_split(path@, d, f) ==> r@ == d,
{
    let mut p = std::path::PathBuf::from(path);
    p.pop();
    p.into_os_string().into_string().unwrap_or_default()
}

/// Whether `s` starts with `p`.
pub open spec fn starts_with(s: Seq<char>, p: Seq<char>) -> bool {
    p.len() <= s.len() && s.subrange(0, p.len() as int) == p
}

/// The first position from `i` on of a line feed byte, or the end of `b`.
pub open spec fn line_end(b: Seq<u8>, i: int) -> int
    decreases b.len() - i,
{
    if i >= b.len() {
        b.len() as int
    } else if b[i] == 10u8 {
        i
    } else {
        line_end(b, i + 1)
    }
}

proof fn lemma_line_end_bounds(b: Seq<u8>, i: int)
    requires
        0 <= i,
    ensures
        i <= b.len() ==> i <= line_end(b, i) <= b.len(),
        line_end(b, i) < b.len() ==> b[line_end(b, i)] == 10u8,
        forall|k: int| i <= k < line_end(b, i) ==> b[k] != 10u8,
    decreases b.len() - i,
{
    if i < b.len() && b[i] != 10u8 {
        lemma_line_end_bounds(b, i + 1);
    }
}

/// The bytes of the line that starts at `i`, without its line break (a
/// carriage return before the line feed belongs to the break).
pub open spec fn line_at(b: Seq<u8>, i: int) -> Seq<u8> {
    let e = line_end(b, i);
    let t = b.subrange(i, e);
    if e < b.len() && t.len() > 0 && t.last() == 13u8 {
        t.drop_last()
    } else {
        t
    }
}

/// Whether a line starts at position `i` of `b`.
pub open spec fn is_line_start(b: Seq<u8>, i: int) -> bool {
    i == 0 || (0 < i <= b.len() && b[i - 1] == 10u8)
}

/// Whether the line starting at `i` is text that starts with the
/// output-directory prefix.
pub open spec fn is_output_dir_line(b: Seq<u8>, i: int) -> bool {
    is_line_start(b, i) && valid_utf8(line_at(b, i)) && starts_with(decode_utf8(line_at(b, i)), OUTPUT_DIR_PREFIX@)
}

/// The rest of the first line starting at or after `i` that is text and
/// starts with the output-directory prefix; lines that are not text are
/// passed over.
pub open spec fn output_dir_from(b: Seq<u8>, i: int) -> Option<Seq<char>>
    decreases b.len() - i,
{
    if i < 0 || i >= b.len() {
        None
    } else if is_output_dir_line(b, i) {
        let t = decode_utf8(line_at(b, i));
        Some(t.subrange(OUTPUT_DIR_PREFIX@.len() as int, t.len() as int))
    } else {
        output_dir_from(b, i + 1)
    }
}

proof fn lemma_output_dir_skip(b: Seq<u8>, x: int, y: int)
    requires
        0 < x <= y <= b.len(),
        forall|k: int| x - 1 <= k < y - 1 ==> b[k] != 10u8,
    ensures
        output_dir_from(b, x) == output_dir_from(b, y),
    decreases y - x,
{
    if x < y {
        assert(!is_line_start(b, x));
        lemma_output_dir_skip(b, x + 1, y);
    }
}

/// The position of the first `" *"` in `s` from `i` on.
pub open spec fn star_mark_from(s: Seq<char>, i: int) -> Option<int>
    decreases s.len() - i,
{
    if i < 0 || i + 1 >= s.len() {
        None
    } else if s[i] == ' ' && s[i + 1] == '*' {
        Some(i)
    } else {
        star_mark_from(s, i + 1)
    }
}

/// The profile name in a status line: the text before the first `" *"`.
pub open spec fn marked_profile_name(s: Seq<char>) -> Option<Seq<char>> {
    match star_mark_from(s, 0) {
        Some(i) => Some(s.subrange(0, i)),
        None => None,
    }
}

/// Whether `p` occurs in `s` at position `i`.
fn occurs_at(s: &str, n: usize, i: usize, p: &str) -> (r: bool)
    requires
        n == s@.len(),
        i <= n,
    ensures
        r == (i + p@.len() <= n && s@.subrange(i as int, i + p@.len()) == p@),
{
    let m = p.unicode_len();
    if m > n - i {
        return false;
    }
    let mut k: usize = 0;
    while k < m
        invariant
            m == p@.len(),
            i + m <= n,
            n == s@.len(),
            k <= m,
            forall|j: int| 0 <= j < k ==> s@[i + j] == p@[j],
        decreases m - k,
    {
        if s.get_char(i + k) != p.get_char(k) {
            assert(s@.subrange(i as int, i + m)[k as int] != p@[k as int]);
            return false;
        }
        k += 1;
    }
    assert(s@.subrange(i as int, i + m) =~= p@);
    true
}

/// The profile name that a status line of the mod-profile manager marks
/// as active: the text before the first `" *"`, if there is one.
pub fn profile_name_of(line: &String) -> (r: Option<String>)
    ensures
        match r {
            Some(name) => marked_profile_name(line@) == Some(name@),
            None => marked_profile_name(line@) is None,
        },
{
    let s = line.as_str();
    let n = s.unicode_len();
    let mut i: usize = 0;
    while i < n && i + 1 < n
        invariant
            n == s@.len(),
            s@ == line@,
            star_mark_from(s@, 0) == star_mark_from(s@, i as int),
        decreases n - i,
    {
        if s.get_char(i) == ' ' && s.get_char(i + 1) == '*' {
            return Some(String::from_str(s.substring_char(0, i)));
        }
        i += 1;
    }
    None
}

/// The text after the output-directory prefix on the first line of a
/// profile report that carries it; lines that are not UTF-8 are passed
/// over.
pub fn output_dir_line(report: &Vec<u8>) -> (r: Option<String>)
    ensures
        match r {
            Some(rest) => output_dir_from(report@, 0) == Some(rest@),
            None => output_dir_from(report@, 0) is None,
        },
{
    let n = report.len();
    let ghost t = report@;
    let m = OUTPUT_DIR_PREFIX.unicode_len();
    let mut i: usize = 0;
    while i < n
        invariant
            n == t.len(),
            t == report@,
            m == OUTPUT_DIR_PREFIX@.len(),
            i <= n,
            is_line_start(t, i as int),
            output_dir_from(t, 0) == output_dir_from(t, i as int),
        decreases n - i,
    {
        let mut e = i;
        while e < n && report[e] != 10u8
            invariant
                i <= e <= n,
                n == t.len(),
                t == report@,
                line_end(t, i as int) == line_end(t, e as int),
                forall|k: int| i <= k < e ==> t[k] != 10u8,
            decreases n - e,
        {
            e += 1;
        }
        proof {
            lemma_line_end_bounds(t, i as int);
            assert(line_end(t, i as int) == e);
        }
        let mut le = e;
        if e < n && e > i && report[e - 1] == 13u8 {
            le = e - 1;
        }
        let mut bytes: Vec<u8> = Vec::new();
        let mut k = i;
        while k < le
            invariant
                i <= k <= le,
                le <= n,
                n == t.len(),
                t == report@,
                bytes@ == t.subrange(i as int, k as int),
            decreases le - k,
        {
            bytes.push(report[k]);
            proof {
                assert(bytes@ =~= t.subrange(i as int, k + 1));
            }
            k += 1;
        }
        proof {
            assert(bytes@ =~= line_at(t, i as int));
        }
        match text_of_bytes(bytes) {
            Some(text) => {
                let s = text.as_str();
                let len = s.unicode_len();
                if occurs_at(s, len, 0, OUTPUT_DIR_PREFIX) {
                    let rest = s.substring_char(m, len);
                    proof {
                        assert(s@.subrange(0, m as int) == OUTPUT_DIR_PREFIX@);
                        assert(is_output_dir_line(t, i as int));
                    }
                    return Some(String::from_str(rest));
                }
            },
            None => {},
        }
        proof {
            assert(!is_output_dir_line(t, i as int));
            assert(output_dir_from(t, i as int) == output_dir_from(t, i + 1));
        }
        if e == n {
            proof {
                lemma_output_dir_skip(t, i + 1, n as int);
            }
            return None;
        }
        proof {
            lemma_output_dir_skip(t, i + 1, e + 1);
        }
        i = e + 1;
    }
    None
}

} // verus!
