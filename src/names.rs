//! Stored file names: a random identifier plus the client's extension, and
//! the check that keeps every storage path inside the upload directory.
use vstd::prelude::*;

verus! {

/// The upload directory, as a path prefix.
pub open spec fn upload_dir() -> Seq<char> {
    seq!['.', '/', 'u', 'p', 'l', 'o', 'a', 'd', 's', '/']
}

/// Index of the last `c` in `s`, or -1 where `s` holds none.
pub open spec fn last_index(s: Seq<char>, c: char) -> int
    decreases s.len(),
{
    if s.len() == 0 {
        -1
    } else if s.last() == c {
        s.len() - 1
    } else {
        last_index(s.drop_last(), c)
    }
}

/// Whether a path ends in a separator or in a `.` component, which path
/// syntax disregards when it looks for the final component.
pub open spec fn ends_in_ignored(t: Seq<char>) -> bool {
    t.len() > 0 && (t.last() == '/' || (t.last() == '.' && (t.len() == 1 || t[t.len() - 2] == '/')))
}

/// A path with its trailing separators and `.` components removed.
pub open spec fn trim_tail(s: Seq<char>) -> Seq<char>
    decreases s.len(),
{
    if ends_in_ignored(s) {
        trim_tail(s.drop_last())
    } else {
        s
    }
}

/// The final component of a client-supplied name: what follows the last `/`
/// once trailing separators and `.` components are dropped.
pub open spec fn base_name(s: Seq<char>) -> Seq<char> {
    let t = trim_tail(s);
    t.subrange(last_index(t, '/') + 1, t.len() as int)
}

/// The extension of a client-supplied name: what follows the last `.` of its
/// final segment, where that dot is not the segment's first character.
/// Empty where there is none.
pub open spec fn extension_of(s: Seq<char>) -> Seq<char> {
    let b = base_name(s);
    let d = last_index(b, '.');
    if d > 0 {
        b.subrange(d + 1, b.len() as int)
    } else {
        Seq::empty()
    }
}

/// The name under which an upload is stored: the identifier, followed by a
/// dot and the extension where the client's name has one.
pub open spec fn stored_name_of(id: Seq<char>, original: Seq<char>) -> Seq<char> {
    let e = extension_of(original);
    if e.len() == 0 {
        id
    } else {
        id + seq!['.'] + e
    }
}

/// A character of the URL-safe identifier alphabet.
pub open spec fn id_char(c: char) -> bool {
    ('a' <= c <= 'z') || ('A' <= c <= 'Z') || ('0' <= c <= '9') || c == '_' || c == '-'
}

/// An identifier as the generator makes them: eight alphabet characters.
pub open spec fn valid_id(id: Seq<char>) -> bool {
    id.len() == 8 && forall|i: int| 0 <= i < id.len() ==> id_char(#[trigger] id[i])
}

/// A name that addresses a file directly inside the upload directory: not
/// empty, not `.`, with no path separator (`/` or `\`) and no `..`
/// anywhere in it.
pub open spec fn safe_name(s: Seq<char>) -> bool {
    &&& s.len() > 0
    &&& s != seq!['.']
    &&& forall|i: int| 0 <= i < s.len() ==> #[trigger] s[i] != '/' && s[i] != '\\'
    &&& forall|i: int| 0 <= i < s.len() - 1 ==> !(#[trigger] s[i] == '.' && s[i + 1] == '.')
}

/// `last_index` finds an occurrence, and nothing after it matches.
pub proof fn lemma_last_index(s: Seq<char>, c: char)
    ensures
        -1 <= last_index(s, c) < s.len(),
        last_index(s, c) >= 0 ==> s[last_index(s, c)] == c,
        forall|k: int| last_index(s, c) < k < s.len() ==> s[k] != c,
    decreases s.len(),
{
    if s.len() > 0 && s.last() != c {
        lemma_last_index(s.drop_last(), c);
        assert(forall|k: int| 0 <= k < s.len() - 1 ==> s.drop_last()[k] == s[k]);
    }
}

/// `last_index` is fixed by those two facts.
proof fn lemma_last_index_unique(s: Seq<char>, c: char, i: int)
    requires
        -1 <= i < s.len(),
        i >= 0 ==> s[i] == c,
        forall|k: int| i < k < s.len() ==> s[k] != c,
    ensures
        last_index(s, c) == i,
{
    lemma_last_index(s, c);
    if last_index(s, c) < i {
        assert(s[i] == c);
    } else if last_index(s, c) > i {
        assert(s[last_index(s, c)] == c);
    }
}

/// Trimming leaves a prefix of the path.
pub proof fn lemma_trim_tail_prefix(s: Seq<char>)
    ensures
        trim_tail(s).len() <= s.len(),
        trim_tail(s) == s.subrange(0, trim_tail(s).len() as int),
        !ends_in_ignored(trim_tail(s)),
    decreases s.len(),
{
    if ends_in_ignored(s) {
        lemma_trim_tail_prefix(s.drop_last());
        assert(trim_tail(s) =~= s.subrange(0, trim_tail(s).len() as int));
    } else {
        assert(s =~= s.subrange(0, s.len() as int));
    }
}

/// Relies on nanoid::format with nanoid's default random source and its SAFE
/// alphabet, which is what `nanoid!(8)` expands to: eight characters, each
/// taken from that alphabet.
#[verifier::external_body]
fn random_id() -> (r: String)
    ensures
        valid_id(r@),
{
    nanoid::format(nanoid::rngs::default, &nanoid::alphabet::SAFE, 8)
}

/// Position of the last `c` in `s[lo..hi]`, counted from `lo`.
fn rfind(s: &str, lo: usize, hi: usize, c: char) -> (r: Option<usize>)
    requires
        lo <= hi <= s@.len(),
    ensures
        match r {
            Some(i) => i == last_index(s@.subrange(lo as int, hi as int), c) && lo + i < hi,
            None => last_index(s@.subrange(lo as int, hi as int), c) == -1,
        },
{
    let ghost sub = s@.subrange(lo as int, hi as int);
    let mut j: usize = hi;
    while j > lo
        invariant
            lo <= j <= hi <= s@.len(),
            sub == s@.subrange(lo as int, hi as int),
            forall|k: int| j - lo <= k < sub.len() ==> sub[k] != c,
        decreases j,
    {
        if s.get_char(j - 1) == c {
            proof {
                lemma_last_index_unique(sub, c, j - 1 - lo);
            }
            return Some(j - 1 - lo);
        }
        j = j - 1;
    }
    proof {
        lemma_last_index_unique(sub, c, -1);
    }
    None
}

/// Whether `s[..end]` ends in a separator or a `.` component.
fn ends_in_ignored_at(s: &str, end: usize) -> (r: bool)
    requires
        end <= s@.len(),
    ensures
        r == ends_in_ignored(s@.subrange(0, end as int)),
{
    if end == 0 {
        return false;
    }
    let c = s.get_char(end - 1);
    c == '/' || (c == '.' && (end == 1 || s.get_char(end - 2) == '/'))
}

/// The extension of a client-supplied file name (see `extension_of`), or
/// `None` where it has none or it is empty.
pub fn file_extension(original: &str) -> (r: Option<&str>)
    ensures
        match r {
            Some(e) => e@ == extension_of(original@) && e@.len() > 0,
            None => extension_of(original@).len() == 0,
        },
{
    let n = original.unicode_len();
    let mut end: usize = n;
    assert(original@.subrange(0, n as int) =~= original@);
    while ends_in_ignored_at(original, end)
        invariant
            end <= n,
            n == original@.len(),
            trim_tail(original@.subrange(0, end as int)) == trim_tail(original@),
        decreases end,
    {
        assert(original@.subrange(0, end as int).drop_last() =~= original@.subrange(
            0,
            end - 1,
        ));
        end = end - 1;
    }
    let ghost t = trim_tail(original@);
    assert(t == original@.subrange(0, end as int));
    let start: usize = match rfind(original, 0, end, '/') {
        Some(i) => i + 1,
        None => 0,
    };
    proof {
        lemma_last_index(t, '/');
    }
    let ghost b = base_name(original@);
    assert(b =~= original@.subrange(start as int, end as int));
    match rfind(original, start, end, '.') {
        Some(d) => {
            if d > 0 && start + d + 1 < end {
                let e = original.substring_char(start + d + 1, end);
                assert(e@ =~= b.subrange(d + 1, b.len() as int));
                Some(e)
            } else {
                None
            }
        },
        None => None,
    }
}

/// The stored name for an upload with identifier `id` whose client-side
/// name was `original`: `id.ext`, or `id` alone where there is no extension.
pub fn stored_filename(id: &str, original: &str) -> (r: String)
    ensures
        r@ == stored_name_of(id@, original@),
{
    let mut r = id.to_owned();
    match file_extension(original) {
        Some(e) => {
            r.append(".");
            r.append(e);
            proof {
                reveal_strlit(".");
                assert(r@ =~= id@ + seq!['.'] + e@);
            }
        },
        None => {},
    }
    r
}

/// Names a new upload: a fresh random identifier, with the extension of the
/// client-side name kept.
pub fn new_stored_filename(original: &str) -> (r: String)
    ensures
        exists|id: Seq<char>| valid_id(id) && r@ == stored_name_of(id, original@),
{
    let id = random_id();
    let r = stored_filename(id.as_str(), original);
    assert(valid_id(id@) && r@ == stored_name_of(id@, original@));
    r
}

/// No extension holds a `/` or a `.`.
pub proof fn lemma_extension_chars(original: Seq<char>)
    ensures
        forall|i: int|
            0 <= i < extension_of(original).len() ==> #[trigger] extension_of(original)[i] != '/'
                && extension_of(original)[i] != '.',
{
    let s = original;
    let t = trim_tail(s);
    lemma_last_index(t, '/');
    let b = base_name(s);
    let d = last_index(b, '.');
    lemma_last_index(b, '.');
    if d > 0 {
        let e = extension_of(s);
        assert forall|i: int| 0 <= i < e.len() implies #[trigger] e[i] != '/' && e[i] != '.' by {
            assert(e[i] == b[d + 1 + i]);
            assert(b[d + 1 + i] == t[last_index(t, '/') + 1 + d + 1 + i]);
        }
    }
}

/// Extensions survive naming: where the client's name has an extension the
/// stored name ends in a dot and that extension; where it has none the
/// stored name holds no dot at all.
pub proof fn lemma_extension_preserved(id: Seq<char>, original: Seq<char>)
    requires
        valid_id(id),
    ensures
        ({
            let e = extension_of(original);
            let r = stored_name_of(id, original);
            &&& e.len() > 0 ==> r.subrange(r.len() - e.len() - 1, r.len() as int) == seq!['.']
                + e
            &&& e.len() == 0 ==> forall|i: int| 0 <= i < r.len() ==> #[trigger] r[i] != '.'
        }),
{
    let e = extension_of(original);
    let r = stored_name_of(id, original);
    if e.len() > 0 {
        assert(r.subrange(r.len() - e.len() - 1, r.len() as int) =~= seq!['.'] + e);
    } else {
        assert forall|i: int| 0 <= i < r.len() implies #[trigger] r[i] != '.' by {
            assert(id_char(id[i]));
        }
    }
}

/// Every name the service hands out passes the storage path check, where
/// the client's extension holds no backslash.
pub proof fn lemma_stored_names_safe(id: Seq<char>, original: Seq<char>)
    requires
        valid_id(id),
        forall|i: int|
            0 <= i < extension_of(original).len() ==> #[trigger] extension_of(original)[i]
                != '\\',
    ensures
        safe_name(stored_name_of(id, original)),
{
    let e = extension_of(original);
    let r = stored_name_of(id, original);
    lemma_extension_chars(original);
    assert(id_char(id[0]));
    assert forall|i: int| 0 <= i < r.len() implies #[trigger] r[i] != '/' && r[i] != '\\' by {
        if i < 8 {
            assert(id_char(id[i]));
        } else if i > 8 {
            assert(r[i] == e[i - 9]);
        }
    }
    assert forall|i: int| 0 <= i < r.len() - 1 implies !(#[trigger] r[i] == '.' && r[i + 1]
        == '.') by {
        if i < 8 {
            assert(id_char(id[i]));
        } else {
            assert(r[i + 1] == e[i + 1 - 9]);
        }
    }
}

/// Whether `name` may address a file of the upload directory (see `safe_name`).
pub fn is_safe_name(name: &str) -> (r: bool)
    ensures
        r == safe_name(name@),
{
    let n = name.unicode_len();
    if n == 0 {
        return false;
    }
    if n == 1 && name.get_char(0) == '.' {
        assert(name@ =~= seq!['.']);
        return false;
    }
    assert(name@ != seq!['.']) by {
        if n == 1 {
            assert(name@[0] != '.');
        }
    }
    let mut i: usize = 0;
    while i < n
        invariant
            n == name@.len(),
            i <= n,
            forall|k: int| 0 <= k < i ==> #[trigger] name@[k] != '/' && name@[k] != '\\',
            forall|k: int| 0 <= k < i - 1 ==> !(#[trigger] name@[k] == '.' && name@[k + 1] == '.'),
        decreases n - i,
    {
        let c = name.get_char(i);
        if c == '/' || c == '\\' {
            return false;
        }
        if c == '.' && i > 0 && name.get_char(i - 1) == '.' {
            assert(name@[i - 1] == '.' && name@[(i - 1) + 1] == '.');
            return false;
        }
        i = i + 1;
    }
    true
}

/// The path of a stored file inside the upload directory, or `None` where
/// the name could reach outside it.
pub fn storage_path(name: &str) -> (r: Option<String>)
    ensures
        match r {
            Some(p) => safe_name(name@) && p@ == upload_dir() + name@,
            None => !safe_name(name@),
        },
{
    if !is_safe_name(name) {
        return None;
    }
    let mut p = "./uploads/".to_owned();
    p.append(name);
    proof {
        reveal_strlit("./uploads/");
        assert(p@ =~= upload_dir() + name@);
    }
    Some(p)
}

} // verus!
