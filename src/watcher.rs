use vstd::prelude::*;

use crate::paths::{file_name, file_name_of};

verus! {

/// The extension of a file name: the text after its last '.', where that '.'
/// is not the name's first character; a name without such a '.' has none.
pub open spec fn extension(name: Seq<char>) -> Option<Seq<char>> {
    if exists|d: int| 0 < d < name.len() && name[d] == '.' && (forall|k: int| d < k < name.len() ==> name[k] != '.') {
        let d = choose|d: int| 0 < d < name.len() && name[d] == '.' && (forall|k: int| d < k < name.len() ==> name[k] != '.');
        Some(name.subrange(d + 1, name.len() as int))
    } else {
        None
    }
}

/// `csv` in any mix of ASCII upper and lower case.
pub open spec fn is_csv_word(e: Seq<char>) -> bool {
    &&& e.len() == 3
    &&& (e[0] == 'c' || e[0] == 'C')
    &&& (e[1] == 's' || e[1] == 'S')
    &&& (e[2] == 'v' || e[2] == 'V')
}

/// A path names a CSV file when the extension of its file name is `csv`,
/// ignoring ASCII case.
pub open spec fn is_csv_path(p: Seq<char>) -> bool {
    match file_name(p) {
        Some(n) => match extension(n) {
            Some(e) => is_csv_word(e),
            None => false,
        },
        None => false,
    }
}

/// Whether the file name `name` has the extension `csv`, in any case.
pub fn has_csv_extension(name: &str) -> (r: bool)
    ensures
        r == (extension(name@) matches Some(e) && is_csv_word(e)),
{
    let ghost p = name@;
    let n = name.unicode_len();
    let mut i: usize = n;
    while i > 0 && name.get_char(i - 1) != '.'
        invariant
            i <= n,
            n == p.len(),
            p == name@,
            forall|k: int| i <= k < n ==> p[k] != '.',
        decreases i,
    {
        i = i - 1;
    }
    if i <= 1 {
        proof {
            assert forall|d: int| 0 < d < p.len() && p[d] == '.' implies !(forall|k: int| d < k < p.len() ==> p[k] != '.') by {
                assert(d < i);
            }
        }
        return false;
    }
    proof {
        let d0 = i - 1;
        assert(0 < d0 < p.len() && p[d0] == '.' && (forall|k: int| d0 < k < p.len() ==> p[k] != '.'));
        let d = choose|d: int| 0 < d < p.len() && p[d] == '.' && (forall|k: int| d < k < p.len() ==> p[k] != '.');
        assert(d == d0) by {
            if d < d0 { assert(p[d0] != '.'); }
            if d > d0 { assert(p[d] != '.'); }
        }
        assert(extension(p) == Some(p.subrange(i as int, n as int)));
    }
    n - i == 3 && {
        let a = name.get_char(i);
        a == 'c' || a == 'C'
    } && {
        let b = name.get_char(i + 1);
        b == 's' || b == 'S'
    } && {
        let c = name.get_char(i + 2);
        c == 'v' || c == 'V'
    }
}

/// Whether `path` names a CSV file.
pub fn is_csv_file(path: &str) -> (r: bool)
    ensures
        r == is_csv_path(path@),
{
    match file_name_of(path) {
        Some(name) => has_csv_extension(name.as_str()),
        None => false,
    }
}

/// What a change notification reports of its paths, as far as this library
/// reads it.
#[derive(Clone, Copy, Debug, PartialEq, Eq, Structural)]
pub enum ChangeKind {
    /// A file opened for writing was closed: its contents are final.
    WriteClosed,
    /// Any other change (creation, modification in progress, removal, ...).
    Other,
}

/// The CSV paths among `ps`, in their order.
pub open spec fn csv_only(ps: Seq<Seq<char>>) -> Seq<Seq<char>>
    decreases ps.len(),
{
    if ps.len() == 0 {
        ps
    } else if is_csv_path(ps.last()) {
        csv_only(ps.drop_last()).push(ps.last())
    } else {
        csv_only(ps.drop_last())
    }
}

/// The paths that a notification hands on as file events: on a closed write,
/// each CSV path once, in the notification's order; on any other change, none.
pub open spec fn accepted(kind: ChangeKind, ps: Seq<Seq<char>>) -> Seq<Seq<char>> {
    match kind {
        ChangeKind::WriteClosed => csv_only(ps),
        ChangeKind::Other => Seq::empty(),
    }
}

/// The file events that one change notification gives.
pub fn csv_events(kind: ChangeKind, paths: &Vec<String>) -> (r: Vec<String>)
    ensures
        r.deep_view() == accepted(kind, paths.deep_view()),
{
    let mut r: Vec<String> = Vec::new();
    if kind == ChangeKind::Other {
        assert(r.deep_view() =~= Seq::<Seq<char>>::empty());
        return r;
    }
    let ghost ps = paths.deep_view();
    let mut i: usize = 0;
    while i < paths.len()
        invariant
            i <= paths.len(),
            ps == paths.deep_view(),
            r.deep_view() == csv_only(ps.take(i as int)),
        decreases paths.len() - i,
    {
        let p = &paths[i];
        let ok = is_csv_file(p.as_str());
        assert(ps.take(i + 1).drop_last() =~= ps.take(i as int));
        assert(ps[i as int] == p@);
        if ok {
            let ghost before = r.deep_view();
            r.push(p.clone());
            assert(r.deep_view() =~= before.push(p@));
        }
        i = i + 1;
    }
    assert(ps.take(paths.len() as int) =~= ps);
    r
}

/// A CSV file whose write completes gives exactly one file event: its own path.
pub proof fn law_csv_file_gives_one_event(p: Seq<char>)
    requires
        is_csv_path(p),
    ensures
        accepted(ChangeKind::WriteClosed, seq![p]) == seq![p],
{
    let ps = seq![p];
    assert(ps.drop_last() =~= Seq::<Seq<char>>::empty());
    assert(csv_only(ps.drop_last()).push(p) =~= ps);
}

/// A path that does not name a CSV file gives no file event, whatever the
/// change reported.
pub proof fn law_other_file_gives_none(kind: ChangeKind, p: Seq<char>)
    requires
        !is_csv_path(p),
    ensures
        accepted(kind, seq![p]).len() == 0,
{
    let ps = seq![p];
    assert(ps.drop_last() =~= Seq::<Seq<char>>::empty());
    assert(ps.last() == p);
    assert(csv_only(ps) == csv_only(ps.drop_last()));
}

/// Every file event of a notification is a CSV path that the notification
/// reported, and none comes of a change other than a completed write.
pub proof fn law_events_are_reported_csv_paths(kind: ChangeKind, ps: Seq<Seq<char>>)
    ensures
        forall|i: int| 0 <= i < accepted(kind, ps).len() ==> is_csv_path(#[trigger] accepted(kind, ps)[i])
            && ps.contains(accepted(kind, ps)[i]),
        kind == ChangeKind::Other ==> accepted(kind, ps).len() == 0,
    decreases ps.len(),
{
    if kind == ChangeKind::WriteClosed && ps.len() > 0 {
        law_events_are_reported_csv_paths(kind, ps.drop_last());
        let r = accepted(kind, ps);
        let r0 = accepted(kind, ps.drop_last());
        assert forall|i: int| 0 <= i < r.len() implies is_csv_path(#[trigger] r[i]) && ps.contains(r[i]) by {
            if i < r0.len() {
                assert(r[i] == r0[i]);
                let j = choose|j: int| 0 <= j < ps.drop_last().len() && ps.drop_last()[j] == r0[i];
                assert(ps[j] == r[i]);
            } else {
                assert(r[i] == ps.last());
                assert(ps[ps.len() - 1] == r[i]);
            }
        }
    }
}

} // verus!
