use vstd::prelude::*;

verus! {

/// The last segment of a '/'-separated path: the text after its last '/'.
pub open spec fn last_segment(p: Seq<char>) -> Seq<char> {
    if exists|s: int| 0 <= s < p.len() && p[s] == '/' && (forall|k: int| s < k < p.len() ==> p[k] != '/') {
        let s = choose|s: int| 0 <= s < p.len() && p[s] == '/' && (forall|k: int| s < k < p.len() ==> p[k] != '/');
        p.subrange(s + 1, p.len() as int)
    } else {
        p
    }
}

/// The file name of a '/'-separated path, as `Path::file_name` reads it:
/// trailing '/' and `.` parts are passed over, and a path that then ends in
/// `..`, is empty, is the root, or is `.` alone names no file.
pub open spec fn file_name(p: Seq<char>) -> Option<Seq<char>>
    decreases p.len(),
{
    if p.len() == 0 {
        None
    } else if p.last() == '/' {
        file_name(p.drop_last())
    } else if p.last() == '.' && p.len() == 1 {
        None
    } else if p.last() == '.' && p[p.len() - 2] == '/' {
        file_name(p.drop_last())
    } else if last_segment(p) == seq!['.', '.'] {
        None
    } else {
        Some(last_segment(p))
    }
}

/// `name` placed inside directory `dir`.
pub open spec fn join(dir: Seq<char>, name: Seq<char>) -> Seq<char> {
    if dir.len() == 0 || dir.last() == '/' {
        dir + name
    } else {
        dir + seq!['/'] + name
    }
}

/// The last segment of the first `i` characters of `path`.
fn segment_before(path: &str, i: usize) -> (r: String)
    requires
        i <= path@.len(),
    ensures
        r@ == last_segment(path@.take(i as int)),
{
    let ghost p = path@.take(i as int);
    let mut j: usize = i;
    while j > 0 && path.get_char(j - 1) != '/'
        invariant
            j <= i,
            i <= path@.len(),
            p == path@.take(i as int),
            forall|k: int| j <= k < i ==> p[k] != '/',
        decreases j,
    {
        j = j - 1;
    }
    proof {
        if j > 0 {
            let s0 = j as int - 1;
            assert(0 <= s0 < p.len() && p[s0] == '/' && (forall|k: int| s0 < k < p.len() ==> p[k] != '/'));
            let s = choose|s: int| 0 <= s < p.len() && p[s] == '/' && (forall|k: int| s < k < p.len() ==> p[k] != '/');
            assert(s == s0) by {
                if s < s0 { assert(p[s0] != '/'); }
                if s > s0 { assert(p[s] != '/'); }
            }
            assert(p.subrange(j as int, i as int) =~= path@.subrange(j as int, i as int));
        } else {
            assert(p =~= path@.subrange(0, i as int));
        }
    }
    String::from_str(path.substring_char(j, i))
}

/// The file name of `path`, if it has one.
pub fn file_name_of(path: &str) -> (r: Option<String>)
    ensures
        r matches Some(s) ==> file_name(path@) == Some(s@),
        r is None ==> file_name(path@) is None,
{
    let ghost p = path@;
    let n = path.unicode_len();
    let mut i: usize = n;
    assert(p.take(n as int) =~= p);
    while i > 0 && (path.get_char(i - 1) == '/' || (path.get_char(i - 1) == '.' && i >= 2 && path.get_char(
        i - 2,
    ) == '/'))
        invariant
            i <= n,
            n == p.len(),
            p == path@,
            file_name(p) == file_name(p.take(i as int)),
        decreases i,
    {
        let ghost t = p.take(i as int);
        assert(t.drop_last() =~= p.take(i - 1));
        i = i - 1;
    }
    let ghost t = p.take(i as int);
    if i == 0 {
        return None;
    }
    if i == 1 && path.get_char(0) == '.' {
        return None;
    }
    let seg = segment_before(path, i);
    let len = seg.as_str().unicode_len();
    if len == 2 && seg.as_str().get_char(0) == '.' && seg.as_str().get_char(1) == '.' {
        assert(seg@ =~= seq!['.', '.']);
        return None;
    }
    proof {
        if seg@ == seq!['.', '.'] {
            assert(seg@[0] == '.' && seg@[1] == '.');
        }
    }
    Some(seg)
}

/// `name` placed inside directory `dir`, with one '/' between them.
pub fn join_path(dir: &str, name: &str) -> (r: String)
    ensures
        r@ == join(dir@, name@),
{
    let n = dir.unicode_len();
    if n == 0 || dir.get_char(n - 1) == '/' {
        String::from_str(dir).concat(name)
    } else {
        proof {
            reveal_strlit("/");
        }
        let r = String::from_str(dir).concat("/").concat(name);
        assert(r@ =~= join(dir@, name@));
        r
    }
}

} // verus!
