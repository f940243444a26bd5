use vstd::prelude::*;

use crate::conflict::{last_index_of, lemma_last_index_in_range, rfind_char};
use crate::protocol::{entry_views, EntryView, RemoteEntry};
use crate::site_manager::SerializableProtocol;
use crate::text::{chars_of, push_char, push_chars, str_eq};
use crate::transfer::TransferDirection;
use vstd::string::StringSliceAdditionalSpecFns;

verus! {

broadcast use vstd::string::group_string_axioms;

/// Whether `s` ends with `/`.
pub open spec fn ends_with_slash(s: Seq<char>) -> bool {
    s.len() > 0 && s.last() == '/'
}

/// The remote path of `name` inside the directory `dir`.
pub open spec fn remote_join(dir: Seq<char>, name: Seq<char>) -> Seq<char> {
    if ends_with_slash(dir) {
        dir + name
    } else {
        dir + seq!['/'] + name
    }
}

/// The remote path of `name` inside the directory `dir`: `dir/name`, with no
/// second `/` when `dir` already ends in one.
pub fn join_remote(dir: &str, name: &str) -> (p: String)
    ensures
        p@ == remote_join(dir@, name@),
{
    let d = chars_of(dir);
    let n = chars_of(name);
    let mut out = String::new();
    push_chars(&mut out, &d, 0, d.len());
    if !(d.len() > 0 && d[d.len() - 1] == '/') {
        push_char(&mut out, '/');
    }
    push_chars(&mut out, &n, 0, n.len());
    assert(d@.subrange(0, d@.len() as int) == d@);
    assert(n@.subrange(0, n@.len() as int) == n@);
    assert(out@ =~= remote_join(dir@, name@));
    out
}

/// `s` without its trailing `/` characters.
pub open spec fn trim_trailing_slashes(s: Seq<char>) -> Seq<char>
    decreases s.len(),
{
    if ends_with_slash(s) {
        trim_trailing_slashes(s.drop_last())
    } else {
        s
    }
}

/// The part of `s` before its last `/`, or `/` when that part is empty or
/// `s` holds no `/`.
pub open spec fn before_last_slash(s: Seq<char>) -> Seq<char> {
    match last_index_of(s, '/') {
        Some(i) => if i == 0 {
            seq!['/']
        } else {
            s.take(i)
        },
        None => seq!['/'],
    }
}

/// The parent of a remote directory: none for the root `/`; otherwise the
/// part before the last `/` once trailing ones are dropped, or `/`.
pub open spec fn remote_parent_of(cur: Seq<char>) -> Option<Seq<char>> {
    if cur == seq!['/'] {
        None
    } else {
        Some(before_last_slash(trim_trailing_slashes(cur)))
    }
}

/// The part of `v` before its last `/` (or `/`).
fn before_last_slash_of(v: &Vec<char>) -> (s: String)
    ensures
        s@ == before_last_slash(v@),
{
    proof {
        lemma_last_index_in_range(v@, '/');
    }
    match rfind_char(v, '/') {
        Some(i) => {
            let mut s = String::new();
            if i == 0 {
                push_char(&mut s, '/');
                assert(s@ =~= seq!['/']);
            } else {
                push_chars(&mut s, v, 0, i);
                assert(s@ =~= v@.take(i as int));
            }
            s
        },
        None => {
            let mut s = String::new();
            push_char(&mut s, '/');
            assert(s@ =~= seq!['/']);
            s
        },
    }
}

/// The parent of the remote directory `current`, or none at the root.
pub fn remote_parent(current: &str) -> (p: Option<String>)
    ensures
        match p {
            Some(s) => remote_parent_of(current@) == Some(s@),
            None => remote_parent_of(current@) is None,
        },
{
    let v = chars_of(current);
    if v.len() == 1 && v[0] == '/' {
        assert(v@ =~= seq!['/']);
        return None;
    }
    let mut end: usize = v.len();
    assert(v@.subrange(0, end as int) == v@);
    while end > 0 && v[end - 1] == '/'
        invariant
            end <= v@.len(),
            trim_trailing_slashes(v@) == trim_trailing_slashes(v@.subrange(0, end as int)),
        decreases end,
    {
        assert(v@.subrange(0, end as int).drop_last() =~= v@.subrange(0, end - 1));
        end -= 1;
    }
    let mut t: Vec<char> = Vec::new();
    let mut k: usize = 0;
    while k < end
        invariant
            k <= end <= v@.len(),
            t@ == v@.subrange(0, k as int),
        decreases end - k,
    {
        t.push(v[k]);
        k += 1;
    }
    assert(t@ == trim_trailing_slashes(v@));
    assert(v@ != seq!['/']);
    Some(before_last_slash_of(&t))
}

/// The directory that holds a remote file (`/` when there is none).
pub fn remote_dir_of(path: &str) -> (d: String)
    ensures
        d@ == before_last_slash(path@),
{
    let v = chars_of(path);
    before_last_slash_of(&v)
}

/// Going up from a directory entered by name leads back: the parent of
/// `dir/name` is `dir` (or `/` for an empty `dir`), for a name without `/`
/// and a `dir` that is `/` or does not end in `/`.
pub proof fn law_up_undoes_enter(dir: Seq<char>, name: Seq<char>)
    requires
        name.len() > 0,
        forall|i: int| 0 <= i < name.len() ==> name[i] != '/',
        dir == seq!['/'] || !ends_with_slash(dir),
    ensures
        remote_parent_of(remote_join(dir, name)) == Some(
            if dir.len() == 0 {
                seq!['/']
            } else {
                dir
            },
        ),
{
    let p = remote_join(dir, name);
    assert(!ends_with_slash(p));
    assert(trim_trailing_slashes(p) == p);
    let k: int = if ends_with_slash(dir) { dir.len() - 1 } else { dir.len() as int };
    assert(p[k] == '/');
    assert forall|j: int| k < j < p.len() implies p[j] != '/' by {
        assert(p[j] == name[j - k - 1]);
    }
    lemma_last_slash_at(p, k);
    if dir == seq!['/'] {
        assert(k == 0);
    } else {
        assert(p.take(k) =~= dir);
    }
    assert(p != seq!['/']);
}

/// The last `/` of `s` is at `k` when `s[k]` is one and none follows.
proof fn lemma_last_slash_at(s: Seq<char>, k: int)
    requires
        0 <= k < s.len(),
        s[k] == '/',
        forall|j: int| k < j < s.len() ==> s[j] != '/',
    ensures
        last_index_of(s, '/') == Some(k),
    decreases s.len(),
{
    if s.last() != '/' {
        let t = s.drop_last();
        assert forall|j: int| k < j < t.len() implies t[j] != '/' by {
            assert(t[j] == s[j]);
        }
        lemma_last_slash_at(t, k);
    }
}

/// Whether a file named `name` is listed: hidden (dot) files only when they
/// are to be shown.
pub open spec fn is_listed(name: Seq<char>, show_hidden: bool) -> bool {
    show_hidden || !(name.len() > 0 && name[0] == '.')
}

/// Whether a file named `name` is listed.
pub fn is_visible(name: &str, show_hidden: bool) -> (b: bool)
    ensures
        b == is_listed(name@, show_hidden),
{
    if show_hidden {
        return true;
    }
    let v = chars_of(name);
    !(v.len() > 0 && v[0] == '.')
}

/// The entries of `s` that are listed, in order.
pub open spec fn listed_entries(s: Seq<EntryView>, show_hidden: bool) -> Seq<EntryView>
    decreases s.len(),
{
    if s.len() == 0 {
        s
    } else if is_listed(s.last().name, show_hidden) {
        listed_entries(s.drop_last(), show_hidden).push(s.last())
    } else {
        listed_entries(s.drop_last(), show_hidden)
    }
}

/// With hidden files not shown, no listed entry is a hidden (dot) file;
/// with them shown, every entry is listed.
pub proof fn law_hidden_files_filtered(s: Seq<EntryView>)
    ensures
        forall|i: int|
            0 <= i < listed_entries(s, false).len() ==> !(#[trigger] listed_entries(s, false)[i].name.len()
                > 0 && listed_entries(s, false)[i].name[0] == '.'),
        listed_entries(s, true) == s,
    decreases s.len(),
{
    if s.len() > 0 {
        law_hidden_files_filtered(s.drop_last());
        let rest = listed_entries(s.drop_last(), false);
        if is_listed(s.last().name, false) {
            assert forall|i: int| 0 <= i < rest.push(s.last()).len() implies !(#[trigger] rest.push(
                s.last(),
            )[i].name.len() > 0 && rest.push(s.last())[i].name[0] == '.') by {
                if i < rest.len() {
                    assert(rest.push(s.last())[i] == rest[i]);
                }
            }
        }
        assert(s.drop_last().push(s.last()) =~= s);
    }
}

/// The entries of a remote listing that the file panel shows.
pub fn visible_entries(entries: Vec<RemoteEntry>, show_hidden: bool) -> (r: Vec<RemoteEntry>)
    ensures
        entry_views(r@) == listed_entries(entry_views(entries@), show_hidden),
{
    let ghost all = entries@;
    let mut rest = entries;
    let n: usize = rest.len();
    let mut kept: Vec<RemoteEntry> = Vec::new();
    let mut i: usize = 0;
    assert(entry_views(all.subrange(0, 0)) =~= Seq::<EntryView>::empty());
    assert(all.subrange(0, all.len() as int) == all);
    while rest.len() > 0
        invariant
            i <= all.len(),
            all.len() == n,
            rest@.len() + i == all.len(),
            rest@ == all.subrange(i as int, all.len() as int),
            entry_views(kept@) == listed_entries(entry_views(all.subrange(0, i as int)), show_hidden),
        decreases rest.len(),
    {
        let e = rest.remove(0);
        let ghost pre = entry_views(all.subrange(0, i as int));
        let ghost next = entry_views(all.subrange(0, i + 1));
        assert(next.drop_last() =~= pre);
        assert(next.last() == e@);
        let ghost before = kept@;
        if is_visible(e.name.as_str(), show_hidden) {
            kept.push(e);
            assert(entry_views(kept@) =~= entry_views(before).push(e@));
        }
        i += 1;
        assert(rest@ =~= all.subrange(i as int, all.len() as int));
    }
    assert(all.subrange(0, i as int) =~= all);
    kept
}

/// Events a panel emits when it navigates, for synchronized browsing.
#[derive(Debug, Clone)]
pub enum SyncEvent {
    /// The user went into a subdirectory by name.
    EnterDir(String),
    /// The user went to the parent directory.
    Up,
}

/// What the other panel does on a navigation event.
#[derive(Debug)]
pub enum SyncCommand {
    /// Nothing.
    Ignore,
    /// Open this remote path.
    RemoteEnter(String),
    /// Go up in the remote panel.
    RemoteUp,
    /// Go into this subdirectory of the local panel, if it exists there.
    LocalEnter(String),
    /// Go up in the local panel.
    LocalUp,
}

/// Mirrors a navigation of the local panel in the remote panel: nothing
/// while a mirrored navigation runs, when synchronized browsing is off or
/// when no server is connected; otherwise the same step from `remote_path`.
pub fn sync_local_to_remote(
    event: &SyncEvent,
    syncing: bool,
    enabled: bool,
    connected: bool,
    remote_path: &str,
) -> (c: SyncCommand)
    ensures
        syncing || !enabled || !connected ==> c is Ignore,
        !(syncing || !enabled || !connected) ==> match (event, c) {
            (SyncEvent::EnterDir(name), SyncCommand::RemoteEnter(p)) => p@ == remote_join(
                remote_path@,
                name@,
            ),
            (SyncEvent::Up, SyncCommand::RemoteUp) => true,
            _ => false,
        },
{
    if syncing || !enabled || !connected {
        return SyncCommand::Ignore;
    }
    match event {
        SyncEvent::EnterDir(name) => SyncCommand::RemoteEnter(join_remote(remote_path, name.as_str())),
        SyncEvent::Up => SyncCommand::RemoteUp,
    }
}

/// Mirrors a navigation of the remote panel in the local panel: nothing
/// while a mirrored navigation runs or when synchronized browsing is off;
/// otherwise the same step.
pub fn sync_remote_to_local(event: &SyncEvent, syncing: bool, enabled: bool) -> (c: SyncCommand)
    ensures
        syncing || !enabled ==> c is Ignore,
        !(syncing || !enabled) ==> match (event, c) {
            (SyncEvent::EnterDir(name), SyncCommand::LocalEnter(n)) => n@ == name@,
            (SyncEvent::Up, SyncCommand::LocalUp) => true,
            _ => false,
        },
{
    if syncing || !enabled {
        return SyncCommand::Ignore;
    }
    match event {
        SyncEvent::EnterDir(name) => SyncCommand::LocalEnter(name.clone()),
        SyncEvent::Up => SyncCommand::LocalUp,
    }
}

/// What a drop of dragged files on a panel does.
#[derive(Debug, Clone, Copy, PartialEq, Eq, Structural)]
pub enum DropDecision {
    /// Refused: the files come from this same panel.
    SamePanel,
    /// Refused: no server is connected.
    NotConnected,
    /// Transfer the files in this direction.
    Transfer(TransferDirection),
}

/// Decides a drop on panel `this_panel` of files dragged from `source`:
/// files from the left (local) panel are uploaded, others downloaded.
pub fn drop_decision(source: &str, this_panel: &str, connected: bool) -> (d: DropDecision)
    ensures
        d == (if source@ == this_panel@ {
            DropDecision::SamePanel
        } else if !connected {
            DropDecision::NotConnected
        } else if source@ == "left"@ {
            DropDecision::Transfer(TransferDirection::Upload)
        } else {
            DropDecision::Transfer(TransferDirection::Download)
        }),
{
    if str_eq(source, this_panel) {
        DropDecision::SamePanel
    } else if !connected {
        DropDecision::NotConnected
    } else if str_eq(source, "left") {
        DropDecision::Transfer(TransferDirection::Upload)
    } else {
        DropDecision::Transfer(TransferDirection::Download)
    }
}

/// Whether a rename of `current` to `text` can be confirmed: the new name is
/// neither empty nor unchanged.
pub fn rename_enabled(text: &str, current: &str) -> (b: bool)
    ensures
        b == (text@.len() > 0 && text@ != current@),
{
    !text.is_empty() && !str_eq(text, current)
}

/// The answer of the rename dialog: the new name when it was confirmed
/// with a name that is neither empty nor unchanged.
pub fn rename_answer(confirmed: bool, text: &str, current: &str) -> (r: Option<String>)
    ensures
        match r {
            Some(n) => confirmed && n@ == text@ && text@.len() > 0 && text@ != current@,
            None => !(confirmed && text@.len() > 0 && text@ != current@),
        },
{
    if confirmed && rename_enabled(text, current) {
        Some(text.to_owned())
    } else {
        None
    }
}

/// The last position of byte `b` in `s`.
pub open spec fn last_byte_index(s: Seq<u8>, b: u8) -> Option<int>
    decreases s.len(),
{
    if s.len() == 0 {
        None
    } else if s.last() == b {
        Some(s.len() - 1)
    } else {
        last_byte_index(s.drop_last(), b)
    }
}

/// The byte offset where the rename dialog ends its initial selection: at
/// the name's last `.`, or at its end, so the extension stays unselected.
pub fn rename_selection_end(name: &str) -> (end: usize)
    ensures
        end == (match last_byte_index(name.spec_bytes(), 0x2e) {
            Some(i) => i,
            None => name.spec_bytes().len() as int,
        }),
{
    let b = name.as_bytes();
    let mut i: usize = b.len();
    assert(b@.subrange(0, b@.len() as int) == b@);
    while i > 0
        invariant
            i <= b@.len(),
            b@ == name.spec_bytes(),
            last_byte_index(b@, 0x2e) == last_byte_index(b@.subrange(0, i as int), 0x2e),
        decreases i,
    {
        assert(b@.subrange(0, i as int).drop_last() =~= b@.subrange(0, i - 1));
        assert(b@.subrange(0, i as int).last() == b@[i - 1]);
        if b[i - 1] == 0x2eu8 {
            return i - 1;
        }
        i -= 1;
    }
    b.len()
}

/// The heading of the delete confirmation.
#[derive(Debug)]
pub enum DeleteHeading {
    /// "Delete 'name'?" for a single item.
    Single(String),
    /// "Delete n items?" otherwise.
    Count(usize),
}

/// The heading of the delete confirmation for `names`.
pub fn delete_heading(names: &Vec<String>) -> (h: DeleteHeading)
    ensures
        match h {
            DeleteHeading::Single(n) => names@.len() == 1 && n@ == names@[0]@,
            DeleteHeading::Count(k) => names@.len() != 1 && k == names@.len(),
        },
{
    if names.len() == 1 {
        DeleteHeading::Single(names[0].clone())
    } else {
        DeleteHeading::Count(names.len())
    }
}

/// Whether renaming and changing permissions apply: exactly one item is
/// selected.
pub fn single_item_actions(selected: usize) -> (b: bool)
    ensures
        b == (selected == 1),
{
    selected == 1
}

/// Which sidebar menu entries apply to a site row.
#[derive(Debug, Clone, Copy, PartialEq, Eq, Structural)]
pub struct SidebarActions {
    pub disconnect: bool,
    pub edit: bool,
    pub delete: bool,
}

/// Whether the site `row_id` is the connected one.
pub open spec fn is_connected_site(row_id: Seq<char>, connected: Option<String>) -> bool {
    match connected {
        Some(c) => c@ == row_id,
        None => false,
    }
}

/// Whether the site `row_id` is the connected one.
pub fn site_is_connected(row_id: &str, connected: &Option<String>) -> (b: bool)
    ensures
        b == is_connected_site(row_id@, *connected),
{
    match connected {
        Some(c) => str_eq(c.as_str(), row_id),
        None => false,
    }
}

/// The sidebar menu for a site row: disconnect only for the connected site,
/// edit and delete only for the others.
pub fn sidebar_actions(row_id: &str, connected: &Option<String>) -> (a: SidebarActions)
    ensures
        a.disconnect == is_connected_site(row_id@, *connected),
        a.edit == !is_connected_site(row_id@, *connected),
        a.delete == !is_connected_site(row_id@, *connected),
{
    let c = site_is_connected(row_id, connected);
    SidebarActions { disconnect: c, edit: !c, delete: !c }
}

/// The icon of a site's protocol in the sidebar.
pub fn protocol_icon(p: SerializableProtocol) -> (s: &'static str)
    ensures
        s@ == (match p {
            SerializableProtocol::Ftp => "cargo-ftp-symbolic"@,
            SerializableProtocol::Ftps => "cargo-ftps-symbolic"@,
            SerializableProtocol::Sftp => "cargo-sftp-symbolic"@,
        }),
{
    match p {
        SerializableProtocol::Ftp => "cargo-ftp-symbolic",
        SerializableProtocol::Ftps => "cargo-ftps-symbolic",
        SerializableProtocol::Sftp => "cargo-sftp-symbolic",
    }
}

} // verus!
