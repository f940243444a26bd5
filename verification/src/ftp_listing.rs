use vstd::prelude::*;

use crate::numbers::parse_unsigned;
use crate::protocol::{entry_views, is_dot_entry, is_dot_name, opt_entry, EntryView, RemoteEntry};
use crate::text::{chars_of, flush, has_prefix, is_ws, join_space, join_words_from, split_from, split_whitespace, starts_with, string_from, trim, trim_chars, trim_end, trim_start, views, words};

verus! {

/// The prefix of the summary line that a Unix `ls -l` listing starts with.
pub open spec fn total_prefix() -> Seq<char> {
    seq!['t', 'o', 't', 'a', 'l', ' ']
}

/// The size field of a listing line: its decimal value, 0 when it does not
/// parse as a `u64`.
pub open spec fn listing_size(field: Seq<char>) -> u64 {
    match parse_unsigned(field, 10, u64::MAX as nat) {
        Some(n) => n as u64,
        None => 0,
    }
}

/// The entry that one line of FTP `LIST` output describes.
///
/// The line is read with surrounding white space removed. An empty line and
/// the `total ...` summary give no entry. A line of fewer than nine fields is
/// taken as a bare file name. Otherwise the first field holds the permissions
/// (a directory when it starts with `d`), the third the owner, the fifth the
/// size, and the ninth and later fields, joined by single spaces, the name;
/// the `.` and `..` entries are left out.
pub open spec fn ftp_list_entry(line: Seq<char>) -> Option<EntryView> {
    let t = trim(line);
    let parts = words(t);
    if t.len() == 0 {
        None
    } else if has_prefix(t, total_prefix()) {
        None
    } else if parts.len() < 9 {
        Some(
            EntryView {
                name: t,
                is_dir: false,
                size: 0,
                modified: None,
                permissions: None,
                owner: None,
            },
        )
    } else {
        let name = join_space(parts.subrange(8, parts.len() as int));
        if is_dot_name(name) {
            None
        } else {
            Some(
                EntryView {
                    name,
                    is_dir: parts[0].len() > 0 && parts[0][0] == 'd',
                    size: listing_size(parts[4]),
                    modified: None,
                    permissions: Some(parts[0]),
                    owner: Some(parts[2]),
                },
            )
        }
    }
}

/// The decimal value of a size field, 0 when it is no valid `u64`.
fn parse_size(field: &Vec<char>) -> (n: u64)
    ensures
        n == listing_size(field@),
{
    match crate::numbers::parse_unsigned_chars(field, 10, u64::MAX) {
        Some(n) => n,
        None => 0,
    }
}

/// Parses a single line of FTP `LIST` output into a directory entry.
///
/// Handles standard Unix-style listings such as
/// `drwxr-xr-x  2 user group  4096 Feb 23 10:30 dirname`.
pub fn parse_ftp_list_entry(line: &str) -> (r: Option<RemoteEntry>)
    ensures
        opt_entry(r) == ftp_list_entry(line@),
{
    let v = chars_of(line);
    let t = trim_chars(&v);
    if t.len() == 0 {
        return None;
    }
    let total = vec!['t', 'o', 't', 'a', 'l', ' '];
    assert(total@ =~= total_prefix());
    if starts_with(&t, &total) {
        return None;
    }
    let parts = split_whitespace(&t);
    if parts.len() < 9 {
        return Some(
            RemoteEntry {
                name: string_from(&t),
                is_dir: false,
                size: 0,
                modified: None,
                permissions: None,
                owner: None,
            },
        );
    }
    let name_chars = join_words_from(&parts, 8);
    if is_dot_entry(&name_chars) {
        return None;
    }
    let perms = &parts[0];
    assert(views(parts@)[0] == perms@);
    assert(views(parts@)[2] == parts@[2]@);
    assert(views(parts@)[4] == parts@[4]@);
    let is_dir = perms.len() > 0 && perms[0] == 'd';
    let size = parse_size(&parts[4]);
    Some(
        RemoteEntry {
            name: string_from(&name_chars),
            is_dir,
            size,
            modified: None,
            permissions: Some(string_from(perms)),
            owner: Some(string_from(&parts[2])),
        },
    )
}

/// The entries that FTP `LIST` output describes, one line at a time, in order;
/// lines that describe no entry are left out.
pub open spec fn ftp_listing(lines: Seq<Seq<char>>) -> Seq<EntryView>
    decreases lines.len(),
{
    if lines.len() == 0 {
        Seq::empty()
    } else {
        let rest = ftp_listing(lines.drop_last());
        match ftp_list_entry(lines.last()) {
            Some(e) => rest.push(e),
            None => rest,
        }
    }
}

/// An FTP listing shows no `.` or `..` entry, unless a line is just `.` or
/// `..` (such a short line is taken as a bare file name).
pub proof fn law_ftp_listing_skips_dots(lines: Seq<Seq<char>>)
    requires
        forall|j: int| 0 <= j < lines.len() ==> !is_dot_name(#[trigger] trim(lines[j])),
    ensures
        forall|i: int|
            0 <= i < ftp_listing(lines).len() ==> !is_dot_name(
                #[trigger] ftp_listing(lines)[i].name,
            ),
    decreases lines.len(),
{
    if lines.len() > 0 {
        let init = lines.drop_last();
        assert forall|j: int| 0 <= j < init.len() implies !is_dot_name(#[trigger] trim(init[j])) by {
            assert(init[j] == lines[j]);
        }
        law_ftp_listing_skips_dots(init);
        assert(!is_dot_name(trim(lines[lines.len() - 1])));
    }
}

/// Whether `w` is a non-empty run of characters that are not white space.
pub open spec fn is_field(w: Seq<char>) -> bool {
    w.len() > 0 && forall|j: int| 0 <= j < w.len() ==> !is_ws(#[trigger] w[j])
}

/// Reading a run without white space continues the current word.
proof fn lemma_split_run(w: Seq<char>, r: Seq<char>, cur: Seq<char>)
    requires
        forall|j: int| 0 <= j < w.len() ==> !is_ws(#[trigger] w[j]),
    ensures
        split_from(w + r, cur) == split_from(r, cur + w),
    decreases w.len(),
{
    if w.len() > 0 {
        assert((w + r)[0] == w[0]);
        assert((w + r).drop_first() =~= w.drop_first() + r);
        assert(!is_ws(w[0]));
        lemma_split_run(w.drop_first(), r, cur.push(w[0]));
        assert(cur.push(w[0]) + w.drop_first() =~= cur + w);
    } else {
        assert(w + r =~= r);
        assert(cur + w =~= cur);
    }
}

/// Fields joined by single spaces: the first, a space, then the others.
proof fn lemma_join_front(f: Seq<Seq<char>>)
    requires
        f.len() >= 2,
    ensures
        join_space(f) == f[0] + seq![' '] + join_space(f.drop_first()),
    decreases f.len(),
{
    let a = f.drop_last();
    let b = f.drop_first();
    if f.len() > 2 {
        lemma_join_front(a);
        assert(a.drop_first() =~= b.drop_last());
        assert(a[0] == f[0]);
        assert(b.last() == f.last());
        assert(join_space(f) == join_space(a) + seq![' '] + f.last());
        assert(join_space(b) == join_space(b.drop_last()) + seq![' '] + b.last());
        assert(join_space(f) =~= f[0] + seq![' '] + join_space(b));
    } else {
        assert(b.len() == 1);
        assert(a.len() == 1);
        assert(join_space(a) == f[0]);
        assert(join_space(b) == f[1]);
        assert(join_space(f) == join_space(a) + seq![' '] + f.last());
    }
}

/// The words of fields joined by single spaces are the fields; the joined
/// text starts with the first field's first character and ends with the
/// last field's last character.
proof fn lemma_words_of_fields(f: Seq<Seq<char>>)
    requires
        f.len() >= 1,
        forall|i: int| 0 <= i < f.len() ==> is_field(#[trigger] f[i]),
    ensures
        words(join_space(f)) == f,
        join_space(f).len() > 0,
        join_space(f)[0] == f[0][0],
        join_space(f).last() == f.last().last(),
    decreases f.len(),
{
    assert(is_field(f[0]));
    if f.len() == 1 {
        lemma_split_run(f[0], seq![], seq![]);
        assert(f[0] + Seq::<char>::empty() =~= f[0]);
        assert(Seq::<char>::empty() + f[0] =~= f[0]);
        assert(seq![f[0]] =~= f);
    } else {
        let rest = f.drop_first();
        assert forall|i: int| 0 <= i < rest.len() implies is_field(#[trigger] rest[i]) by {
            assert(rest[i] == f[i + 1]);
        }
        lemma_words_of_fields(rest);
        lemma_join_front(f);
        let j = join_space(rest);
        assert(f[0] + seq![' '] + j =~= f[0] + (seq![' '] + j));
        lemma_split_run(f[0], seq![' '] + j, seq![]);
        assert(Seq::<char>::empty() + f[0] =~= f[0]);
        assert((seq![' '] + j)[0] == ' ');
        assert((seq![' '] + j).drop_first() =~= j);
        assert(is_ws(' '));
        assert(flush(f[0]) == seq![f[0]]);
        assert(seq![f[0]] + rest =~= f);
        assert((f[0] + seq![' '] + j)[0] == f[0][0]);
        assert((f[0] + seq![' '] + j).last() == j.last());
        assert(rest.last() == f.last());
    }
}

/// A long `LIST` line, nine or more fields separated by single spaces, is
/// read field by field: the first gives the permissions (a directory when
/// it starts with `d`), the third the owner, the fifth the size, and the
/// ninth and later the name; the `.` and `..` entries give nothing. (A first
/// field starting with `t` is left out: the line could be the `total`
/// summary.)
pub proof fn law_ftp_long_line(f: Seq<Seq<char>>)
    requires
        f.len() >= 9,
        forall|i: int| 0 <= i < f.len() ==> is_field(#[trigger] f[i]),
        f[0][0] != 't',
    ensures
        ftp_list_entry(join_space(f)) == (if is_dot_name(join_space(f.subrange(8, f.len() as int))) {
            None
        } else {
            Some(
                EntryView {
                    name: join_space(f.subrange(8, f.len() as int)),
                    is_dir: f[0][0] == 'd',
                    size: listing_size(f[4]),
                    modified: None,
                    permissions: Some(f[0]),
                    owner: Some(f[2]),
                },
            )
        }),
{
    let line = join_space(f);
    lemma_words_of_fields(f);
    assert(is_field(f[0]));
    assert(is_field(f.last()));
    assert(!is_ws(line[0]));
    assert(!is_ws(line.last()));
    assert(trim_start(line) == line);
    assert(trim_end(line) == line);
    assert(trim(line) == line);
    assert(!has_prefix(line, total_prefix())) by {
        if has_prefix(line, total_prefix()) {
            assert(line.subrange(0, 6)[0] == line[0]);
        }
    }
}

/// A size field written in decimal reads back as the size.
pub proof fn law_listing_size_decimal(n: u64)
    ensures
        listing_size(crate::numbers::decimal_digits(n as nat)) == n,
{
    crate::numbers::law_decimal_round_trip(n as nat, u64::MAX as nat);
}

/// The characters of each line.
pub open spec fn line_views(lines: Seq<String>) -> Seq<Seq<char>> {
    lines.map_values(|l: String| l@)
}

/// Parses the lines of FTP `LIST` output into directory entries.
pub fn parse_ftp_listing(lines: &Vec<String>) -> (r: Vec<RemoteEntry>)
    ensures
        entry_views(r@) == ftp_listing(line_views(lines@)),
{
    let mut out: Vec<RemoteEntry> = Vec::new();
    let mut i: usize = 0;
    while i < lines.len()
        invariant
            i <= lines@.len(),
            entry_views(out@) == ftp_listing(line_views(lines@).take(i as int)),
        decreases lines.len() - i,
    {
        let ghost pre = line_views(lines@).take(i as int);
        let ghost next = line_views(lines@).take(i + 1);
        assert(next.drop_last() =~= pre);
        assert(next.last() == lines@[i as int]@);
        let ghost before = out@;
        match parse_ftp_list_entry(lines[i].as_str()) {
            Some(e) => {
                out.push(e);
                assert(entry_views(out@) =~= entry_views(before).push(out@.last()@));
            },
            None => {},
        }
        i += 1;
    }
    assert(line_views(lines@).take(lines@.len() as int) =~= line_views(lines@));
    out
}

} // verus!
