//! Which files of a directory listing are ESP policies, and in what order
//! they are scanned.
//!
//! A policy file is a regular file whose extension is `esp`. Files are
//! scanned in path order, component by component, so that a run over the
//! same directory always visits them in the same order.

use vstd::prelude::*;
use crate::output::{sort_texts, text_le, text_order};
use crate::text::{chars_eq, chars_of, string_from_chars, views};

verus! {

/// Why policy files could not be found.
#[derive(Debug)]
pub enum DiscoveryError {
    /// The path is neither a file nor a directory
    InvalidPath(String),
    /// A directory could not be read: its path and the reason
    ReadDir(String, String),
    /// An entry of a directory could not be read: the directory and the reason
    ReadEntry(String, String),
}

impl DiscoveryError {
    /// The error as a message.
    pub fn message(&self) -> (res: String)
        ensures
            res@ == match self {
                DiscoveryError::InvalidPath(p) => "Invalid path: "@ + p@,
                DiscoveryError::ReadDir(p, e) => "Failed to read directory "@ + p@ + ": "@ + e@,
                DiscoveryError::ReadEntry(p, e) => "Failed to read entry in "@ + p@ + ": "@ + e@,
            },
    {
        proof {
            reveal_strlit("");
        }
        match self {
            DiscoveryError::InvalidPath(p) => crate::model::concat3("Invalid path: ", p.as_str(), ""),
            DiscoveryError::ReadDir(p, e) => {
                let head = crate::model::concat3("Failed to read directory ", p.as_str(), ": ");
                crate::model::concat3(head.as_str(), e.as_str(), "")
            },
            DiscoveryError::ReadEntry(p, e) => {
                let head = crate::model::concat3("Failed to read entry in ", p.as_str(), ": ");
                crate::model::concat3(head.as_str(), e.as_str(), "")
            },
        }
    }
}

/// Position of the last `.` in a file name, or `-1`.
pub open spec fn last_dot(name: Seq<char>) -> int
    decreases name.len(),
{
    if name.len() == 0 {
        -1
    } else if name.last() == '.' {
        name.len() - 1
    } else {
        last_dot(name.drop_last())
    }
}

/// The extension of a file name, as `Path::extension` gives it: the part
/// after the last `.`, unless there is no `.` or the only one begins the
/// name.
pub open spec fn extension(name: Seq<char>) -> Option<Seq<char>> {
    let k = last_dot(name);
    if k <= 0 {
        None
    } else {
        Some(name.subrange(k + 1, name.len() as int))
    }
}

/// Whether a file name has the extension `esp`.
pub open spec fn is_esp_name(name: Seq<char>) -> bool {
    extension(name) == Some("esp"@)
}

proof fn lemma_last_dot_range(name: Seq<char>)
    ensures
        -1 <= last_dot(name) < name.len(),
    decreases name.len(),
{
    if name.len() > 0 && name.last() != '.' {
        lemma_last_dot_range(name.drop_last());
    }
}

/// Whether a file name has the extension `esp`.
pub fn has_esp_extension(file_name: &str) -> (res: bool)
    ensures
        res == is_esp_name(file_name@),
{
    let n = chars_of(file_name);
    let mut i = n.len();
    assert(n@.take(i as int) =~= n@);
    while i > 0
        invariant
            i <= n@.len(),
            n@ == file_name@,
            last_dot(n@) == last_dot(n@.take(i as int)),
        decreases i,
    {
        assert(n@.take(i as int).drop_last() =~= n@.take(i - 1));
        if n[i - 1] == '.' {
            let k = i - 1;
            if k == 0 {
                return false;
            }
            let ext = crate::text::slice_range(&n, k + 1, n.len());
            proof {
                reveal_strlit("esp");
            }
            return chars_eq(&ext, &chars_of("esp"));
        }
        i = i - 1;
    }
    assert(n@.take(0) =~= Seq::<char>::empty());
    false
}

/// The path a key sorts by: the separator `/` becomes the character that
/// comes before all others, so that keys sort component by component.
pub open spec fn sort_key(path: Seq<char>) -> Seq<char> {
    path.map_values(|c: char| if c == '/' {
        '\u{0}'
    } else {
        c
    })
}

/// A key back to its path.
pub open spec fn from_key(key: Seq<char>) -> Seq<char> {
    key.map_values(|c: char| if c == '\u{0}' {
        '/'
    } else {
        c
    })
}

/// The policy files among directory entries (a name and whether it is a
/// regular file), in order.
pub open spec fn esp_entries(entries: Seq<(Seq<char>, bool)>) -> Seq<Seq<char>>
    decreases entries.len(),
{
    if entries.len() == 0 {
        Seq::empty()
    } else {
        esp_entries(entries.drop_last()) + if entries.last().1 && is_esp_name(
            file_name_of(entries.last().0),
        ) {
            seq![entries.last().0]
        } else {
            Seq::empty()
        }
    }
}

/// The last component of a path.
pub open spec fn file_name_of(path: Seq<char>) -> Seq<char> {
    let k = crate::collectors::command::last_index(path, '/');
    path.subrange(k + 1, path.len() as int)
}

/// Paths in scan order: sorted by their keys.
pub open spec fn scan_order(paths: Seq<Seq<char>>) -> Seq<Seq<char>> {
    paths.map_values(|p: Seq<char>| sort_key(p)).sort_by(text_order()).map_values(
        |k: Seq<char>| from_key(k),
    )
}

fn key_of(path: &[char], to_key: bool) -> (res: Vec<char>)
    ensures
        res@ == if to_key {
            sort_key(path@)
        } else {
            from_key(path@)
        },
{
    let mut res: Vec<char> = Vec::new();
    let mut i: usize = 0;
    while i < path.len()
        invariant
            i <= path@.len(),
            res@ == if to_key {
                sort_key(path@.take(i as int))
            } else {
                from_key(path@.take(i as int))
            },
        decreases path.len() - i,
    {
        let c = path[i];
        let d = if to_key {
            if c == '/' {
                '\u{0}'
            } else {
                c
            }
        } else {
            if c == '\u{0}' {
                '/'
            } else {
                c
            }
        };
        res.push(d);
        assert(res@ =~= if to_key {
            sort_key(path@.take(i + 1))
        } else {
            from_key(path@.take(i + 1))
        });
        i = i + 1;
    }
    assert(path@.take(path@.len() as int) =~= path@);
    res
}

/// The last component of a path.
fn file_name_exec(path: &[char]) -> (res: Vec<char>)
    ensures
        res@ == file_name_of(path@),
{
    let mut i = path.len();
    assert(path@.take(i as int) =~= path@);
    while i > 0
        invariant
            i <= path@.len(),
            crate::collectors::command::last_index(path@, '/')
                == crate::collectors::command::last_index(path@.take(i as int), '/'),
            forall|j: int| i <= j < path@.len() ==> path@[j] != '/',
        decreases i,
    {
        assert(path@.take(i as int).drop_last() =~= path@.take(i - 1));
        if path[i - 1] == '/' {
            return crate::text::slice_range(path, i, path.len());
        }
        i = i - 1;
    }
    assert(path@.take(0) =~= Seq::<char>::empty());
    crate::text::slice_range(path, 0, path.len())
}

/// Puts paths in scan order.
pub fn sort_paths(paths: &Vec<String>) -> (res: Vec<String>)
    ensures
        res@.map_values(|s: String| s@) == scan_order(paths@.map_values(|s: String| s@)),
{
    let ghost pv = paths@.map_values(|s: String| s@);
    let mut keys: Vec<Vec<char>> = Vec::new();
    let mut i: usize = 0;
    while i < paths.len()
        invariant
            i <= paths@.len(),
            pv == paths@.map_values(|s: String| s@),
            views(keys@) == pv.map_values(|p: Seq<char>| sort_key(p)).take(i as int),
        decreases paths.len() - i,
    {
        let ghost before = views(keys@);
        let k = key_of(&chars_of(paths[i].as_str()), true);
        assert(k@ == pv.map_values(|p: Seq<char>| sort_key(p))[i as int]);
        keys.push(k);
        assert(views(keys@) =~= before.push(pv.map_values(|p: Seq<char>| sort_key(p))[i as int]));
        assert(views(keys@) =~= pv.map_values(|p: Seq<char>| sort_key(p)).take(i + 1));
        i = i + 1;
    }
    assert(pv.map_values(|p: Seq<char>| sort_key(p)).take(paths@.len() as int) =~= pv.map_values(
        |p: Seq<char>| sort_key(p),
    ));
    let sorted = sort_texts(&keys);
    let ghost sv = views(sorted@);
    let mut res: Vec<String> = Vec::new();
    let mut j: usize = 0;
    while j < sorted.len()
        invariant
            j <= sorted@.len(),
            sv == views(sorted@),
            res@.map_values(|s: String| s@) == sv.map_values(|k: Seq<char>| from_key(k)).take(
                j as int,
            ),
        decreases sorted.len() - j,
    {
        let ghost before = res@.map_values(|s: String| s@);
        let p = string_from_chars(&key_of(&sorted[j], false));
        assert(p@ == sv.map_values(|k: Seq<char>| from_key(k))[j as int]);
        res.push(p);
        assert(res@.map_values(|s: String| s@) =~= before.push(
            sv.map_values(|k: Seq<char>| from_key(k))[j as int],
        ));
        assert(res@.map_values(|s: String| s@) =~= sv.map_values(|k: Seq<char>| from_key(k)).take(
            j + 1,
        ));
        j = j + 1;
    }
    assert(sv.map_values(|k: Seq<char>| from_key(k)).take(sorted@.len() as int) =~= sv.map_values(
        |k: Seq<char>| from_key(k),
    ));
    res
}

/// The policy files among directory entries, in scan order: the paths of
/// regular files whose name has the extension `esp`.
pub fn select_esp_files(entries: &Vec<(String, bool)>) -> (res: Vec<String>)
    ensures
        res@.map_values(|s: String| s@) == scan_order(
            esp_entries(entries@.map_values(|e: (String, bool)| (e.0@, e.1))),
        ),
{
    let ghost ev = entries@.map_values(|e: (String, bool)| (e.0@, e.1));
    let mut chosen: Vec<String> = Vec::new();
    let mut i: usize = 0;
    while i < entries.len()
        invariant
            i <= entries@.len(),
            ev == entries@.map_values(|e: (String, bool)| (e.0@, e.1)),
            chosen@.map_values(|s: String| s@) == esp_entries(ev.take(i as int)),
        decreases entries.len() - i,
    {
        assert(ev.take(i + 1).drop_last() =~= ev.take(i as int));
        assert(ev.take(i + 1).last() == (entries@[i as int].0@, entries@[i as int].1));
        let ghost before = chosen@.map_values(|s: String| s@);
        let path = &entries[i].0;
        let name = string_from_chars(&file_name_exec(&chars_of(path.as_str())));
        if entries[i].1 && has_esp_extension(name.as_str()) {
            chosen.push(path.clone());
            assert(chosen@.map_values(|s: String| s@) =~= before + seq![path@]);
        } else {
            assert(chosen@.map_values(|s: String| s@) =~= before + Seq::<Seq<char>>::empty());
        }
        i = i + 1;
    }
    assert(ev.take(entries@.len() as int) =~= ev);
    sort_paths(&chosen)
}

/// What a path names.
#[derive(Clone, Copy, PartialEq, Eq, Structural, Debug)]
pub enum PathKind {
    File,
    Directory,
    Missing,
}

/// The policy files for an input path: a file is scanned as given, a
/// directory by its policy files in scan order (its `entries` are its
/// listing, each path with whether it is a regular file), and anything
/// else is an invalid path.
pub fn discover_esp_files(input_path: &str, kind: PathKind, entries: &Vec<(String, bool)>) -> (res:
    Result<Vec<String>, DiscoveryError>)
    ensures
        kind == PathKind::File ==> (res matches Ok(v) && v@.len() == 1 && v@[0]@ == input_path@),
        kind == PathKind::Directory ==> (res matches Ok(v) && v@.map_values(|s: String| s@)
            == scan_order(esp_entries(entries@.map_values(|e: (String, bool)| (e.0@, e.1))))),
        kind == PathKind::Missing ==> (res matches Err(DiscoveryError::InvalidPath(p)) && p@
            == input_path@),
{
    match kind {
        PathKind::File => {
            let mut v = Vec::new();
            v.push(input_path.to_string());
            Ok(v)
        },
        PathKind::Directory => Ok(select_esp_files(entries)),
        PathKind::Missing => Err(DiscoveryError::InvalidPath(input_path.to_string())),
    }
}

/// The policy files of a directory tree, in scan order; `entries` lists
/// every entry found under the directory, at any depth.
pub fn discover_esp_files_recursive(entries: &Vec<(String, bool)>) -> (res: Result<
    Vec<String>,
    DiscoveryError,
>)
    ensures
        res matches Ok(v) && v@.map_values(|s: String| s@) == scan_order(
            esp_entries(entries@.map_values(|e: (String, bool)| (e.0@, e.1))),
        ),
{
    Ok(select_esp_files(entries))
}


// ---------------------------------------------------------------------------
// Laws
// ---------------------------------------------------------------------------

/// A file name with a non-empty stem and the extension `.esp` is a policy
/// file name, and a policy file name ends in `.esp`.
pub proof fn law_esp_names(stem: Seq<char>, name: Seq<char>)
    ensures
        stem.len() > 0 ==> is_esp_name(stem + ".esp"@),
        is_esp_name(name) ==> name.len() >= 5 && name.subrange(name.len() - 4, name.len() as int)
            == ".esp"@,
{
    reveal_strlit(".esp");
    reveal_strlit("esp");
    let e = ".esp"@;
    assert(e.len() == 4 && e[0] == '.' && e[1] == 'e' && e[2] == 's' && e[3] == 'p');
    assert("esp"@.len() == 3 && "esp"@[0] == 'e' && "esp"@[1] == 's' && "esp"@[2] == 'p');
    if stem.len() > 0 {
        let n = stem + e;
        let n1 = n.drop_last();
        let n2 = n1.drop_last();
        let n3 = n2.drop_last();
        assert(n.last() == 'p' && n1.last() == 's' && n2.last() == 'e' && n3.last() == '.');
        assert(last_dot(n3) == stem.len());
        assert(last_dot(n2) == stem.len());
        assert(last_dot(n1) == stem.len());
        assert(last_dot(n) == stem.len());
        assert(n.subrange((stem.len() + 1) as int, n.len() as int) =~= "esp"@);
    }
    lemma_last_dot_range(name);
    if is_esp_name(name) {
        let k = last_dot(name);
        lemma_last_dot_is_dot(name);
        let x = name.subrange(k + 1, name.len() as int);
        assert(x == "esp"@);
        assert(k == name.len() - 4);
        assert(name[k] == '.');
        assert(name[k + 1] == x[0] && name[k + 2] == x[1] && name[k + 3] == x[2]);
        assert(name.subrange(name.len() - 4, name.len() as int) =~= e);
    }
}

proof fn lemma_last_dot_is_dot(name: Seq<char>)
    ensures
        last_dot(name) >= 0 ==> name[last_dot(name)] == '.',
    decreases name.len(),
{
    if name.len() > 0 && name.last() != '.' {
        lemma_last_dot_is_dot(name.drop_last());
        lemma_last_dot_range(name.drop_last());
    }
}

/// The policy files among entries are exactly the regular files whose name
/// has the extension `esp`: a path is selected if and only if some entry is
/// that path, is a regular file, and has such a name.
pub proof fn law_esp_entries(entries: Seq<(Seq<char>, bool)>, p: Seq<char>)
    ensures
        esp_entries(entries).contains(p) <==> exists|i: int|
            0 <= i < entries.len() && #[trigger] entries[i] == (p, true) && is_esp_name(
                file_name_of(p),
            ),
    decreases entries.len(),
{
    if entries.len() > 0 {
        let d = entries.drop_last();
        law_esp_entries(d, p);
        let last = entries.last();
        let tail = if last.1 && is_esp_name(file_name_of(last.0)) {
            seq![last.0]
        } else {
            Seq::<Seq<char>>::empty()
        };
        let r = esp_entries(d) + tail;
        if r.contains(p) {
            let j = choose|j: int| 0 <= j < r.len() && r[j] == p;
            if j < esp_entries(d).len() {
                assert(esp_entries(d)[j] == p);
                let i = choose|i: int|
                    0 <= i < d.len() && #[trigger] d[i] == (p, true) && is_esp_name(file_name_of(p));
                assert(entries[i] == d[i]);
            } else {
                assert(entries[entries.len() - 1] == (p, true));
            }
        }
        if exists|i: int|
            0 <= i < entries.len() && #[trigger] entries[i] == (p, true) && is_esp_name(
                file_name_of(p),
            ) {
            let i = choose|i: int|
                0 <= i < entries.len() && #[trigger] entries[i] == (p, true) && is_esp_name(
                    file_name_of(p),
                );
            if i < entries.len() - 1 {
                assert(d[i] == entries[i]);
                let j = choose|j: int| 0 <= j < esp_entries(d).len() && esp_entries(d)[j] == p;
                assert(r[j] == p);
            } else {
                assert(r[r.len() - 1] == p);
            }
        }
    }
}

/// Whether a path holds no NUL character (no file path does).
pub open spec fn nul_free(p: Seq<char>) -> bool {
    forall|i: int| 0 <= i < p.len() ==> p[i] != '\u{0}'
}

proof fn lemma_key_round_trip(p: Seq<char>)
    ensures
        nul_free(p) ==> from_key(sort_key(p)) == p,
        forall|i: int| 0 <= i < sort_key(p).len() ==> sort_key(p)[i] != '/',
        sort_key(from_key(sort_key(p))) == sort_key(p),
{
    if nul_free(p) {
        assert(from_key(sort_key(p)) =~= p);
    }
    assert(sort_key(from_key(sort_key(p))) =~= sort_key(p));
}

/// Scan order puts the same paths in order: it holds every given path and
/// no other, as many as were given, and each path comes before the ones
/// after it component by component (`/` before any other character).
pub proof fn law_scan_order(paths: Seq<Seq<char>>)
    requires
        forall|i: int| 0 <= i < paths.len() ==> nul_free(#[trigger] paths[i]),
    ensures
        scan_order(paths).len() == paths.len(),
        forall|p: Seq<char>| scan_order(paths).contains(p) <==> paths.contains(p),
        forall|i: int, j: int|
            0 <= i < j < paths.len() ==> text_le(
                sort_key(#[trigger] scan_order(paths)[i]),
                sort_key(#[trigger] scan_order(paths)[j]),
            ),
{
    let keys = paths.map_values(|p: Seq<char>| sort_key(p));
    crate::output::lemma_text_order_total();
    keys.lemma_sort_by_ensures(text_order());
    let sorted = keys.sort_by(text_order());
    let r = scan_order(paths);
    assert(r == sorted.map_values(|k: Seq<char>| from_key(k)));
    keys.to_multiset_ensures();
    sorted.to_multiset_ensures();
    assert(sorted.len() == keys.len());
    // Each sorted key is the key of a given path.
    assert forall|j: int| 0 <= j < sorted.len() implies exists|i: int|
        0 <= i < paths.len() && #[trigger] sorted[j] == sort_key(paths[i]) by {
        assert(sorted.contains(sorted[j]));
        assert(keys.to_multiset().count(sorted[j]) > 0);
        assert(keys.contains(sorted[j]));
        let i = choose|i: int| 0 <= i < keys.len() && keys[i] == sorted[j];
        assert(keys[i] == sort_key(paths[i]));
    }
    assert forall|p: Seq<char>| r.contains(p) <==> paths.contains(p) by {
        if r.contains(p) {
            let j = choose|j: int| 0 <= j < r.len() && r[j] == p;
            let i = choose|i: int| 0 <= i < paths.len() && #[trigger] sorted[j] == sort_key(paths[i]);
            lemma_key_round_trip(paths[i]);
            assert(p == paths[i]);
        }
        if paths.contains(p) {
            let i = choose|i: int| 0 <= i < paths.len() && paths[i] == p;
            assert(keys[i] == sort_key(p));
            assert(keys.contains(sort_key(p)));
            assert(sorted.to_multiset().count(sort_key(p)) > 0);
            assert(sorted.contains(sort_key(p)));
            let j = choose|j: int| 0 <= j < sorted.len() && sorted[j] == sort_key(p);
            lemma_key_round_trip(p);
            assert(r[j] == p);
        }
    }
    assert forall|i: int, j: int| 0 <= i < j < paths.len() implies text_le(
        sort_key(#[trigger] r[i]),
        sort_key(#[trigger] r[j]),
    ) by {
        let a = choose|k: int| 0 <= k < paths.len() && #[trigger] sorted[i] == sort_key(paths[k]);
        let b = choose|k: int| 0 <= k < paths.len() && #[trigger] sorted[j] == sort_key(paths[k]);
        lemma_key_round_trip(paths[a]);
        lemma_key_round_trip(paths[b]);
        assert((text_order())(sorted[i], sorted[j]));
    }
}

} // verus!
