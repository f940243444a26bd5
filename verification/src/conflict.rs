use vstd::prelude::*;

use crate::protocol::{EntryView, RemoteEntry};
use crate::text::{chars_of, push_char, push_chars, str_eq};
use crate::transfer::TransferDirection;

verus! {

broadcast use vstd::string::group_string_axioms;

/// What to do when a destination file already exists.
#[derive(Debug, Clone, Copy, PartialEq, Eq, Structural)]
pub enum ConflictAction {
    Overwrite,
    OverwriteIfSizeDiffers,
    OverwriteIfNewer,
    Skip,
    Rename,
}

/// The answer of the overwrite confirmation dialog.
#[derive(Debug, Clone, Copy, PartialEq, Eq, Structural)]
pub struct ConflictResolution {
    pub action: ConflictAction,
    pub apply_to_queue: bool,
}

/// The last position of `c` in `s`.
pub open spec fn last_index_of(s: Seq<char>, c: char) -> Option<int>
    decreases s.len(),
{
    if s.len() == 0 {
        None
    } else if s.last() == c {
        Some(s.len() - 1)
    } else {
        last_index_of(s.drop_last(), c)
    }
}

/// A found last position lies in `s` and holds `c`; no later one does.
pub proof fn lemma_last_index_of(s: Seq<char>, c: char)
    ensures
        match last_index_of(s, c) {
            Some(i) => 0 <= i < s.len() && s[i] == c && forall|j: int|
                i < j < s.len() ==> s[j] != c,
            None => forall|j: int| 0 <= j < s.len() ==> s[j] != c,
        },
    decreases s.len(),
{
    if s.len() > 0 && s.last() != c {
        let t = s.drop_last();
        lemma_last_index_of(t, c);
        assert forall|j: int| 0 <= j < t.len() implies t[j] == s[j] by {}
        match last_index_of(t, c) {
            Some(i) => {
                assert forall|j: int| i < j < s.len() implies s[j] != c by {
                    if j < t.len() {
                        assert(t[j] == s[j]);
                    }
                }
            },
            None => {
                assert forall|j: int| 0 <= j < s.len() implies s[j] != c by {
                    if j < t.len() {
                        assert(t[j] == s[j]);
                    }
                }
            },
        }
    }
}

/// The last position of `c` in `v`.
pub fn rfind_char(v: &Vec<char>, c: char) -> (r: Option<usize>)
    ensures
        match r {
            Some(i) => last_index_of(v@, c) == Some(i as int),
            None => last_index_of(v@, c) is None,
        },
{
    let mut i: usize = v.len();
    assert(v@.subrange(0, v@.len() as int) == v@);
    while i > 0
        invariant
            i <= v@.len(),
            last_index_of(v@, c) == last_index_of(v@.subrange(0, i as int), c),
        decreases i,
    {
        assert(v@.subrange(0, i as int).drop_last() =~= v@.subrange(0, i - 1));
        if v[i - 1] == c {
            return Some(i - 1);
        }
        i -= 1;
    }
    None
}

/// The text ` (1)` that a rename inserts.
pub open spec fn rename_marker() -> Seq<char> {
    seq![' ', '(', '1', ')']
}

/// The directory part of a path: up to and including its last `/`.
pub open spec fn dir_part(p: Seq<char>) -> Seq<char> {
    match last_index_of(p, '/') {
        Some(i) => p.take(i + 1),
        None => Seq::empty(),
    }
}

/// The file name part of a path: after its last `/`.
pub open spec fn file_part(p: Seq<char>) -> Seq<char> {
    match last_index_of(p, '/') {
        Some(i) => p.skip(i + 1),
        None => p,
    }
}

/// A file name without its extension.
pub open spec fn stem_part(f: Seq<char>) -> Seq<char> {
    match last_index_of(f, '.') {
        Some(i) => f.take(i),
        None => f,
    }
}

/// The extension of a file name, its last `.` included.
pub open spec fn ext_part(f: Seq<char>) -> Seq<char> {
    match last_index_of(f, '.') {
        Some(i) => f.skip(i),
        None => Seq::empty(),
    }
}

/// The renamed path: `file.txt` becomes `file (1).txt`.
pub open spec fn renamed_path(p: Seq<char>) -> Seq<char> {
    dir_part(p) + stem_part(file_part(p)) + rename_marker() + ext_part(file_part(p))
}

/// Builds a renamed path: `dir/file.txt` becomes `dir/file (1).txt`.
pub fn generate_rename(path: &str) -> (r: String)
    ensures
        r@ == renamed_path(path@),
{
    let v = chars_of(path);
    proof {
        lemma_last_index_of(v@, '/');
    }
    let (dir_end, file): (usize, Vec<char>) = match rfind_char(&v, '/') {
        Some(i) => {
            assert(last_index_of(v@, '/') == Some(i as int));
            assert(i < v.len());
            let mut f: Vec<char> = Vec::new();
            let mut k: usize = i + 1;
            while k < v.len()
                invariant
                    i + 1 <= k <= v@.len(),
                    f@ == v@.subrange(i + 1, k as int),
                decreases v.len() - k,
            {
                f.push(v[k]);
                k += 1;
            }
            assert(f@ =~= v@.skip(i + 1));
            (i + 1, f)
        },
        None => {
            let mut f: Vec<char> = Vec::new();
            let mut k: usize = 0;
            while k < v.len()
                invariant
                    k <= v@.len(),
                    f@ == v@.subrange(0, k as int),
                decreases v.len() - k,
            {
                f.push(v[k]);
                k += 1;
            }
            assert(f@ =~= v@);
            (0, f)
        },
    };
    assert(file@ == file_part(v@));
    assert(v@.subrange(0, dir_end as int) == dir_part(v@));
    let mut out = String::new();
    push_chars(&mut out, &v, 0, dir_end);
    proof {
        lemma_last_index_of(file@, '.');
    }
    match rfind_char(&file, '.') {
        Some(j) => {
            push_chars(&mut out, &file, 0, j);
            push_char(&mut out, ' ');
            push_char(&mut out, '(');
            push_char(&mut out, '1');
            push_char(&mut out, ')');
            push_chars(&mut out, &file, j, file.len());
        },
        None => {
            push_chars(&mut out, &file, 0, file.len());
            push_char(&mut out, ' ');
            push_char(&mut out, '(');
            push_char(&mut out, '1');
            push_char(&mut out, ')');
        },
    }
    assert(file@.subrange(0, file@.len() as int) == file@);
    assert(out@ =~= renamed_path(v@));
    out
}

/// A found last position lies within the sequence.
pub proof fn lemma_last_index_in_range(s: Seq<char>, c: char)
    ensures
        last_index_of(s, c) matches Some(i) ==> 0 <= i < s.len(),
    decreases s.len(),
{
    if s.len() > 0 && s.last() != c {
        lemma_last_index_in_range(s.drop_last(), c);
    }
}

/// The directory part and the file part make up the path.
pub proof fn lemma_dir_file_split(p: Seq<char>)
    ensures
        dir_part(p) + file_part(p) == p,
        stem_part(file_part(p)) + ext_part(file_part(p)) == file_part(p),
{
    lemma_last_index_in_range(p, '/');
    lemma_last_index_in_range(file_part(p), '.');
    assert(dir_part(p) + file_part(p) =~= p);
    assert(stem_part(file_part(p)) + ext_part(file_part(p)) =~= file_part(p));
}

/// A renamed path is four characters longer than the path, so it always
/// differs from it; it keeps the directory and the extension.
pub proof fn law_rename_changes_path(p: Seq<char>)
    ensures
        renamed_path(p).len() == p.len() + 4,
        renamed_path(p) != p,
        renamed_path(p).take(dir_part(p).len() as int) == dir_part(p),
        renamed_path(p).skip(renamed_path(p).len() - ext_part(file_part(p)).len())
            == ext_part(file_part(p)),
{
    lemma_dir_file_split(p);
    let d = dir_part(p);
    let f = file_part(p);
    let st = stem_part(f);
    let e = ext_part(f);
    let r = renamed_path(p);
    assert(d.len() + f.len() == p.len());
    assert(st.len() + e.len() == f.len());
    assert(r.len() == d.len() + st.len() + 4 + e.len());
    assert(r.take(d.len() as int) =~= d);
    assert(r.skip(r.len() - e.len()) =~= e);
}

/// Whether a transfer goes ahead, and to which destination, under `action`.
pub open spec fn transfer_decision(
    action: ConflictAction,
    source_size: u64,
    source_modified: Option<i64>,
    dest_size: u64,
    dest_modified: Option<i64>,
    dest_path: Seq<char>,
) -> (bool, Seq<char>) {
    match action {
        ConflictAction::Overwrite => (true, dest_path),
        ConflictAction::OverwriteIfSizeDiffers => (source_size != dest_size, dest_path),
        ConflictAction::OverwriteIfNewer => match (source_modified, dest_modified) {
            (Some(src), Some(dst)) => (src > dst, dest_path),
            _ => (true, dest_path),
        },
        ConflictAction::Skip => (false, dest_path),
        ConflictAction::Rename => (true, renamed_path(dest_path)),
    }
}

/// Decides whether a transfer should proceed, given the conflict action and
/// the source and destination metadata. Returns the decision and the
/// destination path, which a rename changes.
pub fn should_transfer(
    action: ConflictAction,
    source_size: u64,
    source_modified: Option<i64>,
    dest_size: u64,
    dest_modified: Option<i64>,
    dest_path: &str,
) -> (r: (bool, String))
    ensures
        (r.0, r.1@) == transfer_decision(
            action,
            source_size,
            source_modified,
            dest_size,
            dest_modified,
            dest_path@,
        ),
{
    match action {
        ConflictAction::Overwrite => (true, dest_path.to_owned()),
        ConflictAction::OverwriteIfSizeDiffers => (source_size != dest_size, dest_path.to_owned()),
        ConflictAction::OverwriteIfNewer => match (source_modified, dest_modified) {
            (Some(src), Some(dst)) => (src > dst, dest_path.to_owned()),
            _ => (true, dest_path.to_owned()),
        },
        ConflictAction::Skip => (false, dest_path.to_owned()),
        ConflictAction::Rename => (true, generate_rename(dest_path)),
    }
}

/// What is known when a transfer's destination already exists: the action
/// chosen, and the size and modification time of source and destination.
#[derive(Debug, Clone, Copy)]
pub struct ConflictFacts {
    pub action: ConflictAction,
    pub source_size: u64,
    pub source_modified: Option<i64>,
    pub dest_size: u64,
    pub dest_modified: Option<i64>,
}

/// Where a queued transfer goes.
#[derive(Debug)]
pub enum TransferTarget {
    /// Nowhere: the transfer is skipped.
    Skip,
    /// From or to these paths.
    Go { local_path: String, remote_path: String },
}

/// Whether `t` is where a transfer in direction `d` between `local` and
/// `remote` goes: unchanged when the destination does not exist; otherwise
/// as the conflict action decides for the destination (the remote path of
/// an upload, the local path of a download).
pub open spec fn is_target(
    t: TransferTarget,
    d: TransferDirection,
    local: Seq<char>,
    remote: Seq<char>,
    conflict: Option<ConflictFacts>,
) -> bool {
    match conflict {
        None => t matches TransferTarget::Go { local_path, remote_path } && local_path@ == local
            && remote_path@ == remote,
        Some(f) => {
            let dest = if d == TransferDirection::Upload {
                remote
            } else {
                local
            };
            let decision = transfer_decision(
                f.action,
                f.source_size,
                f.source_modified,
                f.dest_size,
                f.dest_modified,
                dest,
            );
            if !decision.0 {
                t is Skip
            } else if d == TransferDirection::Upload {
                t matches TransferTarget::Go { local_path, remote_path } && local_path@ == local
                    && remote_path@ == decision.1
            } else {
                t matches TransferTarget::Go { local_path, remote_path } && local_path@
                    == decision.1 && remote_path@ == remote
            }
        },
    }
}

/// Decides where a queued transfer goes, given what the conflict check
/// found (`None`: the destination does not exist).
pub fn transfer_target(
    direction: TransferDirection,
    local_path: &str,
    remote_path: &str,
    conflict: Option<ConflictFacts>,
) -> (t: TransferTarget)
    ensures
        is_target(t, direction, local_path@, remote_path@, conflict),
{
    match conflict {
        None => TransferTarget::Go {
            local_path: local_path.to_owned(),
            remote_path: remote_path.to_owned(),
        },
        Some(f) => {
            let dest = match direction {
                TransferDirection::Upload => remote_path,
                TransferDirection::Download => local_path,
            };
            let (proceed, new_dest) = should_transfer(
                f.action,
                f.source_size,
                f.source_modified,
                f.dest_size,
                f.dest_modified,
                dest,
            );
            if !proceed {
                TransferTarget::Skip
            } else {
                match direction {
                    TransferDirection::Upload => TransferTarget::Go {
                        local_path: local_path.to_owned(),
                        remote_path: new_dest,
                    },
                    TransferDirection::Download => TransferTarget::Go {
                        local_path: new_dest,
                        remote_path: remote_path.to_owned(),
                    },
                }
            }
        },
    }
}

/// A conflict only ever changes the destination of a transfer: an upload
/// keeps its local file, a download its remote file.
pub proof fn law_conflict_keeps_source(
    t: TransferTarget,
    d: TransferDirection,
    local: Seq<char>,
    remote: Seq<char>,
    conflict: Option<ConflictFacts>,
)
    requires
        is_target(t, d, local, remote, conflict),
    ensures
        t matches TransferTarget::Go { local_path, remote_path } ==> (d
            == TransferDirection::Upload ==> local_path@ == local) && (d
            == TransferDirection::Download ==> remote_path@ == remote),
        conflict is None ==> (t matches TransferTarget::Go { local_path, remote_path }
            && local_path@ == local && remote_path@ == remote),
        conflict matches Some(f) && f.action == ConflictAction::Skip ==> t is Skip,
        conflict matches Some(f) && f.action == ConflictAction::Overwrite ==> (
        t matches TransferTarget::Go { local_path, remote_path } && local_path@ == local
            && remote_path@ == remote),
        conflict matches Some(f) && f.action == ConflictAction::Rename ==> (
        t matches TransferTarget::Go { local_path, remote_path } && (if d
            == TransferDirection::Upload {
            remote_path@ != remote && remote_path@.len() == remote.len() + 4
        } else {
            local_path@ != local && local_path@.len() == local.len() + 4
        })),
{
    law_rename_changes_path(remote);
    law_rename_changes_path(local);
}

/// Skip never transfers and keeps the destination; Overwrite always
/// transfers to the destination; Rename always transfers, to a different path.
pub proof fn law_conflict_actions(
    source_size: u64,
    source_modified: Option<i64>,
    dest_size: u64,
    dest_modified: Option<i64>,
    dest_path: Seq<char>,
)
    ensures
        transfer_decision(
            ConflictAction::Skip,
            source_size,
            source_modified,
            dest_size,
            dest_modified,
            dest_path,
        ) == (false, dest_path),
        transfer_decision(
            ConflictAction::Overwrite,
            source_size,
            source_modified,
            dest_size,
            dest_modified,
            dest_path,
        ) == (true, dest_path),
        transfer_decision(
            ConflictAction::Rename,
            source_size,
            source_modified,
            dest_size,
            dest_modified,
            dest_path,
        ).0,
        transfer_decision(
            ConflictAction::Rename,
            source_size,
            source_modified,
            dest_size,
            dest_modified,
            dest_path,
        ).1 != dest_path,
        transfer_decision(
            ConflictAction::OverwriteIfSizeDiffers,
            source_size,
            source_modified,
            source_size,
            dest_modified,
            dest_path,
        ).0 == false,
{
    law_rename_changes_path(dest_path);
}

/// The conditional actions decide by comparing source and destination and
/// keep the destination: "if size differs" transfers exactly when the two
/// sizes differ (in either direction), "if newer" exactly when both times
/// are known and the source's is later, or when a time is unknown.
pub proof fn law_conditional_overwrites(
    source_size: u64,
    source_modified: Option<i64>,
    dest_size: u64,
    dest_modified: Option<i64>,
    dest_path: Seq<char>,
)
    ensures
        transfer_decision(
            ConflictAction::OverwriteIfSizeDiffers,
            source_size,
            source_modified,
            dest_size,
            dest_modified,
            dest_path,
        ).0 <==> source_size != dest_size,
        source_size < dest_size || dest_size < source_size ==> transfer_decision(
            ConflictAction::OverwriteIfSizeDiffers,
            source_size,
            source_modified,
            dest_size,
            dest_modified,
            dest_path,
        ).0,
        transfer_decision(
            ConflictAction::OverwriteIfSizeDiffers,
            source_size,
            source_modified,
            dest_size,
            dest_modified,
            dest_path,
        ).1 == dest_path,
        transfer_decision(
            ConflictAction::OverwriteIfNewer,
            source_size,
            source_modified,
            dest_size,
            dest_modified,
            dest_path,
        ).0 <==> (source_modified is None || dest_modified is None || source_modified->0
            > dest_modified->0),
        transfer_decision(
            ConflictAction::OverwriteIfNewer,
            source_size,
            source_modified,
            dest_size,
            dest_modified,
            dest_path,
        ).1 == dest_path,
{
}

/// A rename inserts ` (1)` before the extension of the file name and keeps
/// the directory: `dir/stem.ext` becomes `dir/stem (1).ext`, and a name
/// without a dot gets ` (1)` at its end.
pub proof fn law_rename_form(dir: Seq<char>, stem: Seq<char>, ext: Seq<char>)
    requires
        !stem.contains('/'),
        !stem.contains('.'),
        !ext.contains('/'),
        !ext.contains('.'),
    ensures
        renamed_path(dir + seq!['/'] + stem + seq!['.'] + ext) == dir + seq!['/'] + stem + seq![
            ' ',
            '(',
            '1',
            ')',
            '.',
        ] + ext,
        renamed_path(dir + seq!['/'] + stem) == dir + seq!['/'] + stem + seq![' ', '(', '1', ')'],
{
    let p = dir + seq!['/'] + stem + seq!['.'] + ext;
    let k = dir.len() as int;
    assert forall|j: int| k < j < p.len() implies p[j] != '/' by {
        if j < k + 1 + stem.len() {
            assert(p[j] == stem[j - k - 1]);
        } else if j > k + 1 + stem.len() {
            assert(p[j] == ext[j - k - 2 - stem.len()]);
        }
    }
    lemma_last_at(p, '/', k);
    let f = p.skip(k + 1);
    assert(f =~= stem + seq!['.'] + ext);
    let m = stem.len() as int;
    assert forall|j: int| m < j < f.len() implies f[j] != '.' by {
        assert(f[j] == ext[j - m - 1]);
    }
    lemma_last_at(f, '.', m);
    assert(p.take(k + 1) =~= dir + seq!['/']);
    assert(f.take(m) =~= stem);
    assert(f.skip(m) =~= seq!['.'] + ext);
    assert(renamed_path(p) =~= dir + seq!['/'] + stem + seq![' ', '(', '1', ')', '.'] + ext);

    let q = dir + seq!['/'] + stem;
    assert forall|j: int| k < j < q.len() implies q[j] != '/' by {
        assert(q[j] == stem[j - k - 1]);
    }
    lemma_last_at(q, '/', k);
    let g = q.skip(k + 1);
    assert(g =~= stem);
    lemma_last_index_of(g, '.');
    if let Some(i) = last_index_of(g, '.') {
        assert(stem[i] == '.');
        assert(stem.contains('.'));
    }
    assert(q.take(k + 1) =~= dir + seq!['/']);
    assert(renamed_path(q) =~= dir + seq!['/'] + stem + seq![' ', '(', '1', ')']);
}

/// The last `c` of `s` is at `k` when `s[k]` is one and none follows.
pub proof fn lemma_last_at(s: Seq<char>, c: char, k: int)
    requires
        0 <= k < s.len(),
        s[k] == c,
        forall|j: int| k < j < s.len() ==> s[j] != c,
    ensures
        last_index_of(s, c) == Some(k),
    decreases s.len(),
{
    if s.last() != c {
        let t = s.drop_last();
        assert forall|j: int| k < j < t.len() implies t[j] != c by {
            assert(t[j] == s[j]);
        }
        lemma_last_at(t, c, k);
    }
}

/// Whether `e` is a file (not a directory) named `name`.
pub open spec fn is_file_named(e: EntryView, name: Seq<char>) -> bool {
    e.name == name && !e.is_dir
}

/// Finds a file (not a directory) by name in a remote directory listing:
/// the first one so named.
pub fn remote_file_exists<'a>(entries: &'a [RemoteEntry], filename: &str) -> (r: Option<
    &'a RemoteEntry,
>)
    ensures
        match r {
            Some(e) => exists|i: int|
                0 <= i < entries@.len() && *e == entries@[i] && is_file_named(
                    entries@[i]@,
                    filename@,
                ) && forall|j: int| 0 <= j < i ==> !is_file_named(entries@[j]@, filename@),
            None => forall|j: int|
                0 <= j < entries@.len() ==> !is_file_named(entries@[j]@, filename@),
        },
{
    let mut i: usize = 0;
    while i < entries.len()
        invariant
            i <= entries@.len(),
            forall|j: int| 0 <= j < i ==> !is_file_named(entries@[j]@, filename@),
        decreases entries.len() - i,
    {
        let e = &entries[i];
        if !e.is_dir && str_eq(e.name.as_str(), filename) {
            return Some(e);
        }
        i += 1;
    }
    None
}

/// The conflict action picked in the overwrite dialog: the first chosen of
/// "if size differs", "if newer", "skip" and "rename", else overwrite.
pub open spec fn dialog_action(size_differs: bool, newer: bool, skip: bool, rename: bool) -> ConflictAction {
    if size_differs {
        ConflictAction::OverwriteIfSizeDiffers
    } else if newer {
        ConflictAction::OverwriteIfNewer
    } else if skip {
        ConflictAction::Skip
    } else if rename {
        ConflictAction::Rename
    } else {
        ConflictAction::Overwrite
    }
}

/// The answer of the overwrite dialog: none when it was not confirmed;
/// otherwise the picked action, and whether to apply it to the whole queue.
pub fn resolution_from_dialog(
    confirmed: bool,
    size_differs: bool,
    newer: bool,
    skip: bool,
    rename: bool,
    apply_to_queue: bool,
) -> (r: Option<ConflictResolution>)
    ensures
        r == (if confirmed {
            Some(
                ConflictResolution {
                    action: dialog_action(size_differs, newer, skip, rename),
                    apply_to_queue,
                },
            )
        } else {
            None
        }),
{
    if !confirmed {
        return None;
    }
    let action = if size_differs {
        ConflictAction::OverwriteIfSizeDiffers
    } else if newer {
        ConflictAction::OverwriteIfNewer
    } else if skip {
        ConflictAction::Skip
    } else if rename {
        ConflictAction::Rename
    } else {
        ConflictAction::Overwrite
    };
    Some(ConflictResolution { action, apply_to_queue })
}

} // verus!
