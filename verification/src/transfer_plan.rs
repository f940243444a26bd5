use vstd::prelude::*;

use crate::navigation::{join_remote, remote_join};
use crate::text::{chars_of, push_char, push_chars};
use crate::transfer::{fresh_item, TransferDirection, TransferItem};

verus! {

broadcast use vstd::string::group_string_axioms;

/// `base` joined with `name` as a Unix `PathBuf::join` does: an absolute
/// `name` replaces `base`; otherwise a `/` is put between them unless `base`
/// is empty or already ends in one.
pub open spec fn path_join(base: Seq<char>, name: Seq<char>) -> Seq<char> {
    if name.len() > 0 && name[0] == '/' {
        name
    } else if base.len() > 0 && base.last() != '/' {
        base + seq!['/'] + name
    } else {
        base + name
    }
}

/// Joins a local directory and a name as `PathBuf::join` does on Unix.
pub fn local_join(base: &str, name: &str) -> (p: String)
    ensures
        p@ == path_join(base@, name@),
{
    let b = chars_of(base);
    let n = chars_of(name);
    let mut out = String::new();
    if !(n.len() > 0 && n[0] == '/') {
        push_chars(&mut out, &b, 0, b.len());
        if b.len() > 0 && b[b.len() - 1] != '/' {
            push_char(&mut out, '/');
        }
    }
    push_chars(&mut out, &n, 0, n.len());
    assert(b@.subrange(0, b@.len() as int) == b@);
    assert(n@.subrange(0, n@.len() as int) == n@);
    assert(out@ =~= path_join(base@, name@));
    out
}

/// `rdir/name`, as the directory walk names remote files.
pub open spec fn slash_join(dir: Seq<char>, name: Seq<char>) -> Seq<char> {
    dir + seq!['/'] + name
}

fn slash_join_exec(dir: &str, name: &str) -> (p: String)
    ensures
        p@ == slash_join(dir@, name@),
{
    let d = chars_of(dir);
    let n = chars_of(name);
    let mut out = String::new();
    push_chars(&mut out, &d, 0, d.len());
    push_char(&mut out, '/');
    push_chars(&mut out, &n, 0, n.len());
    assert(d@.subrange(0, d@.len() as int) == d@);
    assert(n@.subrange(0, n@.len() as int) == n@);
    assert(out@ =~= slash_join(dir@, name@));
    out
}

/// One file to transfer.
#[derive(Debug, Clone)]
pub struct PlannedTransfer {
    pub filename: String,
    pub local_path: String,
    pub remote_path: String,
}

/// A pair of directories still to walk: the local one and the remote one.
#[derive(Debug, Clone)]
pub struct DirPair {
    pub local: String,
    pub remote: String,
}

/// An entry of a directory listing: its name and whether it is a directory.
#[derive(Debug, Clone)]
pub struct ListedName {
    pub name: String,
    pub is_dir: bool,
}

/// The content of a planned transfer: file name, local and remote path.
pub open spec fn planned_view(t: PlannedTransfer) -> (Seq<char>, Seq<char>, Seq<char>) {
    (t.filename@, t.local_path@, t.remote_path@)
}

/// The content of a directory pair.
pub open spec fn pair_view(p: DirPair) -> (Seq<char>, Seq<char>) {
    (p.local@, p.remote@)
}

/// The files of a listing of `ldir`/`rdir`, as planned transfers.
pub open spec fn listed_files(ldir: Seq<char>, rdir: Seq<char>, entries: Seq<ListedName>) -> Seq<
    (Seq<char>, Seq<char>, Seq<char>),
>
    decreases entries.len(),
{
    if entries.len() == 0 {
        Seq::empty()
    } else {
        let rest = listed_files(ldir, rdir, entries.drop_last());
        let e = entries.last();
        if e.is_dir {
            rest
        } else {
            rest.push((e.name@, path_join(ldir, e.name@), slash_join(rdir, e.name@)))
        }
    }
}

/// The subdirectories of a listing of `ldir`/`rdir`, as pairs to walk.
pub open spec fn listed_dirs(ldir: Seq<char>, rdir: Seq<char>, entries: Seq<ListedName>) -> Seq<
    (Seq<char>, Seq<char>),
>
    decreases entries.len(),
{
    if entries.len() == 0 {
        Seq::empty()
    } else {
        let rest = listed_dirs(ldir, rdir, entries.drop_last());
        let e = entries.last();
        if e.is_dir {
            rest.push((path_join(ldir, e.name@), slash_join(rdir, e.name@)))
        } else {
            rest
        }
    }
}

/// The number of entries of a listing that are not directories.
pub open spec fn file_count(entries: Seq<ListedName>) -> nat
    decreases entries.len(),
{
    if entries.len() == 0 {
        0
    } else {
        file_count(entries.drop_last()) + if entries.last().is_dir {
            0nat
        } else {
            1nat
        }
    }
}

/// Walking a listing plans one transfer per file and one walk per
/// directory, whatever their names: every file of the listing is planned,
/// from `ldir/name` to `rdir/name`, every directory is to be walked, and
/// nothing else is added.
pub proof fn law_listing_covers_every_entry(
    ldir: Seq<char>,
    rdir: Seq<char>,
    entries: Seq<ListedName>,
)
    ensures
        listed_files(ldir, rdir, entries).len() == file_count(entries),
        listed_files(ldir, rdir, entries).len() + listed_dirs(ldir, rdir, entries).len()
            == entries.len(),
        forall|i: int|
            0 <= i < entries.len() && !entries[i].is_dir ==> listed_files(
                ldir,
                rdir,
                entries,
            ).contains(
                (
                    #[trigger] entries[i].name@,
                    path_join(ldir, entries[i].name@),
                    rdir + seq!['/'] + entries[i].name@,
                ),
            ),
        forall|i: int|
            0 <= i < entries.len() && entries[i].is_dir ==> listed_dirs(ldir, rdir, entries).contains(
                (path_join(ldir, #[trigger] entries[i].name@), rdir + seq!['/'] + entries[i].name@),
            ),
    decreases entries.len(),
{
    if entries.len() > 0 {
        let init = entries.drop_last();
        law_listing_covers_every_entry(ldir, rdir, init);
        let files0 = listed_files(ldir, rdir, init);
        let dirs0 = listed_dirs(ldir, rdir, init);
        let files = listed_files(ldir, rdir, entries);
        let dirs = listed_dirs(ldir, rdir, entries);
        let e = entries.last();
        assert forall|i: int| 0 <= i < entries.len() && !entries[i].is_dir implies files.contains(
            (
                #[trigger] entries[i].name@,
                path_join(ldir, entries[i].name@),
                rdir + seq!['/'] + entries[i].name@,
            ),
        ) by {
            if i < init.len() {
                assert(init[i] == entries[i]);
                let t = (
                    entries[i].name@,
                    path_join(ldir, entries[i].name@),
                    rdir + seq!['/'] + entries[i].name@,
                );
                assert(files0.contains(t));
                let j = choose|j: int| 0 <= j < files0.len() && files0[j] == t;
                if !e.is_dir {
                    assert(files[j] == t);
                }
            } else {
                assert(files[files.len() - 1] == (
                    e.name@,
                    path_join(ldir, e.name@),
                    rdir + seq!['/'] + e.name@,
                ));
            }
        }
        assert forall|i: int| 0 <= i < entries.len() && entries[i].is_dir implies dirs.contains(
            (path_join(ldir, #[trigger] entries[i].name@), rdir + seq!['/'] + entries[i].name@),
        ) by {
            if i < init.len() {
                assert(init[i] == entries[i]);
                let t = (path_join(ldir, entries[i].name@), rdir + seq!['/'] + entries[i].name@);
                assert(dirs0.contains(t));
                let j = choose|j: int| 0 <= j < dirs0.len() && dirs0[j] == t;
                if e.is_dir {
                    assert(dirs[j] == t);
                }
            } else {
                assert(dirs[dirs.len() - 1] == (path_join(ldir, e.name@), rdir + seq!['/'] + e.name@));
            }
        }
    }
}

/// The plan of a batch of transfers: the files found so far, and the
/// directories still to walk (the last one first).
#[derive(Debug)]
pub struct TransferPlan {
    pub direction: TransferDirection,
    pub pending_dirs: Vec<DirPair>,
    pub transfers: Vec<PlannedTransfer>,
}

impl TransferPlan {
    /// The planned transfers.
    pub open spec fn transfer_views(&self) -> Seq<(Seq<char>, Seq<char>, Seq<char>)> {
        self.transfers@.map_values(|t: PlannedTransfer| planned_view(t))
    }

    /// The directories still to walk.
    pub open spec fn dir_views(&self) -> Seq<(Seq<char>, Seq<char>)> {
        self.pending_dirs@.map_values(|p: DirPair| pair_view(p))
    }

    /// An empty plan for transfers in `direction`.
    pub fn new(direction: TransferDirection) -> (p: Self)
        ensures
            p.direction == direction,
            p.pending_dirs@.len() == 0,
            p.transfers@.len() == 0,
    {
        TransferPlan { direction, pending_dirs: Vec::new(), transfers: Vec::new() }
    }

    /// Adds a selected item of `local_dir`/`remote_dir`: a file becomes a
    /// transfer; a directory is to be walked.
    pub fn add_selected(&mut self, name: &str, is_dir: bool, local_dir: &str, remote_dir: &str)
        ensures
            final(self).direction == old(self).direction,
            is_dir ==> final(self).transfer_views() == old(self).transfer_views()
                && final(self).dir_views() == old(self).dir_views().push(
                (path_join(local_dir@, name@), remote_join(remote_dir@, name@)),
            ),
            !is_dir ==> final(self).dir_views() == old(self).dir_views()
                && final(self).transfer_views() == old(self).transfer_views().push(
                (name@, path_join(local_dir@, name@), remote_join(remote_dir@, name@)),
            ),
    {
        let local = local_join(local_dir, name);
        let remote = join_remote(remote_dir, name);
        if is_dir {
            let ghost before = self.dir_views();
            self.pending_dirs.push(DirPair { local, remote });
            assert(self.dir_views() =~= before.push(
                (path_join(local_dir@, name@), remote_join(remote_dir@, name@)),
            ));
        } else {
            let ghost before = self.transfer_views();
            self.transfers.push(PlannedTransfer { filename: name.to_owned(), local_path: local, remote_path: remote });
            assert(self.transfer_views() =~= before.push(
                (name@, path_join(local_dir@, name@), remote_join(remote_dir@, name@)),
            ));
        }
    }

    /// The next directory to walk (the one added last), taken off the plan.
    pub fn next_dir(&mut self) -> (d: Option<DirPair>)
        ensures
            final(self).direction == old(self).direction,
            final(self).transfer_views() == old(self).transfer_views(),
            match d {
                Some(p) => old(self).dir_views().len() > 0 && pair_view(p) == old(
                    self,
                ).dir_views().last() && final(self).dir_views() == old(self).dir_views().drop_last(),
                None => old(self).dir_views().len() == 0 && final(self).dir_views().len() == 0,
            },
    {
        let ghost before = self.dir_views();
        let r = self.pending_dirs.pop();
        assert(self.dir_views() =~= match r {
            Some(_) => before.drop_last(),
            None => before,
        });
        r
    }

    /// Takes in the listing of a walked directory pair: its files become
    /// transfers and its subdirectories are to be walked, both in listing
    /// order.
    pub fn add_listing(&mut self, dir: &DirPair, entries: &Vec<ListedName>)
        ensures
            final(self).direction == old(self).direction,
            final(self).transfer_views() == old(self).transfer_views() + listed_files(
                dir.local@,
                dir.remote@,
                entries@,
            ),
            final(self).dir_views() == old(self).dir_views() + listed_dirs(
                dir.local@,
                dir.remote@,
                entries@,
            ),
    {
        let ghost t0 = self.transfer_views();
        let ghost d0 = self.dir_views();
        let mut i: usize = 0;
        assert(entries@.take(0) =~= Seq::<ListedName>::empty());
        assert(t0 + listed_files(dir.local@, dir.remote@, entries@.take(0)) =~= t0);
        assert(d0 + listed_dirs(dir.local@, dir.remote@, entries@.take(0)) =~= d0);
        while i < entries.len()
            invariant
                i <= entries@.len(),
                self.direction == old(self).direction,
                self.transfer_views() == t0 + listed_files(
                    dir.local@,
                    dir.remote@,
                    entries@.take(i as int),
                ),
                self.dir_views() == d0 + listed_dirs(dir.local@, dir.remote@, entries@.take(i as int)),
            decreases entries.len() - i,
        {
            let ghost pre = entries@.take(i as int);
            let ghost next = entries@.take(i + 1);
            assert(next.drop_last() =~= pre);
            assert(next.last() == entries@[i as int]);
            let e = &entries[i];
            let local = local_join(dir.local.as_str(), e.name.as_str());
            let remote = slash_join_exec(dir.remote.as_str(), e.name.as_str());
            if e.is_dir {
                let ghost before = self.dir_views();
                self.pending_dirs.push(DirPair { local, remote });
                assert(self.dir_views() =~= before.push(
                    (path_join(dir.local@, e.name@), slash_join(dir.remote@, e.name@)),
                ));
                assert(self.dir_views() =~= d0 + listed_dirs(dir.local@, dir.remote@, next));
            } else {
                let ghost before = self.transfer_views();
                self.transfers.push(
                    PlannedTransfer { filename: e.name.clone(), local_path: local, remote_path: remote },
                );
                assert(self.transfer_views() =~= before.push(
                    (e.name@, path_join(dir.local@, e.name@), slash_join(dir.remote@, e.name@)),
                ));
                assert(self.transfer_views() =~= t0 + listed_files(dir.local@, dir.remote@, next));
            }
            i += 1;
        }
        assert(entries@.take(entries@.len() as int) =~= entries@);
    }

    /// The queue entries of the planned transfers, in order, in the plan's
    /// direction.
    pub fn into_items(self) -> (items: Vec<TransferItem>)
        ensures
            items@.len() == self.transfers@.len(),
            forall|i: int|
                0 <= i < items@.len() ==> fresh_item(
                    #[trigger] items@[i],
                    self.transfers@[i].filename@,
                    self.transfers@[i].local_path@,
                    self.transfers@[i].remote_path@,
                    self.direction,
                ),
    {
        let mut items: Vec<TransferItem> = Vec::new();
        let mut i: usize = 0;
        while i < self.transfers.len()
            invariant
                i <= self.transfers@.len(),
                items@.len() == i,
                forall|j: int|
                    0 <= j < i ==> fresh_item(
                        #[trigger] items@[j],
                        self.transfers@[j].filename@,
                        self.transfers@[j].local_path@,
                        self.transfers@[j].remote_path@,
                        self.direction,
                    ),
            decreases self.transfers.len() - i,
        {
            let t = &self.transfers[i];
            let item = match self.direction {
                TransferDirection::Upload => TransferItem::new_upload(
                    t.filename.as_str(),
                    t.local_path.as_str(),
                    t.remote_path.as_str(),
                ),
                TransferDirection::Download => TransferItem::new_download(
                    t.filename.as_str(),
                    t.local_path.as_str(),
                    t.remote_path.as_str(),
                ),
            };
            items.push(item);
            i += 1;
        }
        items
    }
}

} // verus!
