use vstd::prelude::*;

use crate::protocol::RemoteEntry;
use crate::text::chars_of;

verus! {

broadcast use vstd::string::group_string_axioms;

/// The outcome of comparing two rows of a file list.
#[derive(Debug, Clone, Copy, PartialEq, Eq, Structural)]
pub enum SortOrder {
    Smaller,
    Equal,
    Larger,
}

/// The columns a file list can be sorted by.
#[derive(Debug, Clone, Copy, PartialEq, Eq, Structural)]
pub enum SortColumn {
    Name,
    Size,
    Modified,
    Permissions,
}

/// What a file list shows of one entry.
#[derive(Debug, Clone)]
pub struct FileRow {
    pub name: String,
    pub is_dir: bool,
    pub size: u64,
    /// Seconds since the epoch; 0 when unknown.
    pub modified: i64,
    /// Empty when unknown.
    pub permissions: String,
}

/// The lowercase form of a string, as `str::to_lowercase` gives it.
pub uninterp spec fn lowercase_of(s: Seq<char>) -> Seq<char>;

/// The lowercase form of `s`.
///
/// Trusted: calls `str::to_lowercase`, which the standard library documents
/// as the string with every character replaced by its Unicode lowercase
/// mapping. The mapping depends on the string alone; the contract only names
/// it.
#[verifier::external_body]
fn lowercase(s: &str) -> (r: String)
    ensures
        r@ == lowercase_of(s@),
{
    s.to_lowercase()
}

/// The reverse of an order.
pub open spec fn flipped(o: SortOrder) -> SortOrder {
    match o {
        SortOrder::Smaller => SortOrder::Larger,
        SortOrder::Equal => SortOrder::Equal,
        SortOrder::Larger => SortOrder::Smaller,
    }
}

/// The order of two numbers.
pub open spec fn int_order(a: int, b: int) -> SortOrder {
    if a < b {
        SortOrder::Smaller
    } else if a == b {
        SortOrder::Equal
    } else {
        SortOrder::Larger
    }
}

/// The lexicographic order of two strings by code point, which is the order
/// of their UTF-8 bytes: a proper prefix comes first.
pub open spec fn text_order(a: Seq<char>, b: Seq<char>) -> SortOrder
    decreases a.len(),
{
    if a.len() == 0 {
        if b.len() == 0 {
            SortOrder::Equal
        } else {
            SortOrder::Smaller
        }
    } else if b.len() == 0 {
        SortOrder::Larger
    } else if a[0] != b[0] {
        int_order(a[0] as int, b[0] as int)
    } else {
        text_order(a.drop_first(), b.drop_first())
    }
}

/// The order of two rows by a column: by name, directories come first and
/// names compare ignoring case; sizes and times compare as numbers;
/// permissions compare as text.
pub open spec fn row_order(column: SortColumn, a: FileRow, b: FileRow) -> SortOrder {
    match column {
        SortColumn::Name => if a.is_dir && !b.is_dir {
            SortOrder::Smaller
        } else if !a.is_dir && b.is_dir {
            SortOrder::Larger
        } else {
            text_order(lowercase_of(a.name@), lowercase_of(b.name@))
        },
        SortColumn::Size => int_order(a.size as int, b.size as int),
        SortColumn::Modified => int_order(a.modified as int, b.modified as int),
        SortColumn::Permissions => text_order(a.permissions@, b.permissions@),
    }
}

/// `text_order` on suffixes starting at `i`.
proof fn lemma_text_order_step(a: Seq<char>, b: Seq<char>, i: int)
    requires
        0 <= i < a.len(),
        i < b.len(),
        a[i] == b[i],
    ensures
        text_order(a.subrange(i, a.len() as int), b.subrange(i, b.len() as int)) == text_order(
            a.subrange(i + 1, a.len() as int),
            b.subrange(i + 1, b.len() as int),
        ),
{
    assert(a.subrange(i, a.len() as int).drop_first() =~= a.subrange(i + 1, a.len() as int));
    assert(b.subrange(i, b.len() as int).drop_first() =~= b.subrange(i + 1, b.len() as int));
}

/// The lexicographic order of `a` and `b` by code point.
fn text_order_of(a: &Vec<char>, b: &Vec<char>) -> (o: SortOrder)
    ensures
        o == text_order(a@, b@),
{
    let mut i: usize = 0;
    assert(a@.subrange(0, a@.len() as int) == a@);
    assert(b@.subrange(0, b@.len() as int) == b@);
    while i < a.len() && i < b.len()
        invariant
            i <= a@.len(),
            i <= b@.len(),
            text_order(a@, b@) == text_order(
                a@.subrange(i as int, a@.len() as int),
                b@.subrange(i as int, b@.len() as int),
            ),
        decreases a.len() - i,
    {
        let x = a[i];
        let y = b[i];
        if x != y {
            assert(a@.subrange(i as int, a@.len() as int)[0] == x);
            assert(b@.subrange(i as int, b@.len() as int)[0] == y);
            return if x < y {
                SortOrder::Smaller
            } else {
                SortOrder::Larger
            };
        }
        proof {
            lemma_text_order_step(a@, b@, i as int);
        }
        i += 1;
    }
    if i < a.len() {
        SortOrder::Larger
    } else if i < b.len() {
        SortOrder::Smaller
    } else {
        SortOrder::Equal
    }
}

/// The order of two numbers.
fn u64_order(a: u64, b: u64) -> (o: SortOrder)
    ensures
        o == int_order(a as int, b as int),
{
    if a < b {
        SortOrder::Smaller
    } else if a == b {
        SortOrder::Equal
    } else {
        SortOrder::Larger
    }
}

/// The order of two numbers.
fn i64_order(a: i64, b: i64) -> (o: SortOrder)
    ensures
        o == int_order(a as int, b as int),
{
    if a < b {
        SortOrder::Smaller
    } else if a == b {
        SortOrder::Equal
    } else {
        SortOrder::Larger
    }
}

/// Compares two rows of a file list by `column`.
pub fn row_order_of(column: SortColumn, a: &FileRow, b: &FileRow) -> (o: SortOrder)
    ensures
        o == row_order(column, *a, *b),
{
    match column {
        SortColumn::Name => {
            if a.is_dir && !b.is_dir {
                SortOrder::Smaller
            } else if !a.is_dir && b.is_dir {
                SortOrder::Larger
            } else {
                let x = chars_of(lowercase(a.name.as_str()).as_str());
                let y = chars_of(lowercase(b.name.as_str()).as_str());
                text_order_of(&x, &y)
            }
        },
        SortColumn::Size => u64_order(a.size, b.size),
        SortColumn::Modified => i64_order(a.modified, b.modified),
        SortColumn::Permissions => {
            let x = chars_of(a.permissions.as_str());
            let y = chars_of(b.permissions.as_str());
            text_order_of(&x, &y)
        },
    }
}

/// The row a remote listing entry shows: time 0 and empty permissions when
/// unknown.
pub fn row_from_entry(e: &RemoteEntry) -> (r: FileRow)
    ensures
        r.name@ == e.name@,
        r.is_dir == e.is_dir,
        r.size == e.size,
        r.modified == (match e.modified {
            Some(t) => t,
            None => 0,
        }),
        r.permissions@ == (match e.permissions {
            Some(p) => p@,
            None => Seq::empty(),
        }),
{
    FileRow {
        name: e.name.clone(),
        is_dir: e.is_dir,
        size: e.size,
        modified: match e.modified {
            Some(t) => t,
            None => 0,
        },
        permissions: match &e.permissions {
            Some(p) => p.clone(),
            None => String::new(),
        },
    }
}

/// Swapping the two strings reverses their order.
pub proof fn law_text_order_flips(a: Seq<char>, b: Seq<char>)
    ensures
        text_order(b, a) == flipped(text_order(a, b)),
    decreases a.len(),
{
    if a.len() > 0 && b.len() > 0 && a[0] == b[0] {
        law_text_order_flips(a.drop_first(), b.drop_first());
    }
}

/// A string is in the same place as itself.
pub proof fn law_text_order_reflexive(a: Seq<char>)
    ensures
        text_order(a, a) == SortOrder::Equal,
    decreases a.len(),
{
    if a.len() > 0 {
        law_text_order_reflexive(a.drop_first());
    }
}

/// Only equal strings compare equal.
pub proof fn law_text_order_equal(a: Seq<char>, b: Seq<char>)
    requires
        text_order(a, b) == SortOrder::Equal,
    ensures
        a == b,
    decreases a.len(),
{
    if a.len() > 0 && b.len() > 0 && a[0] == b[0] {
        law_text_order_equal(a.drop_first(), b.drop_first());
        assert(a =~= seq![a[0]] + a.drop_first());
        assert(b =~= seq![b[0]] + b.drop_first());
    }
}

/// The order of strings is transitive.
pub proof fn law_text_order_transitive(a: Seq<char>, b: Seq<char>, c: Seq<char>)
    requires
        text_order(a, b) == SortOrder::Smaller,
        text_order(b, c) == SortOrder::Smaller,
    ensures
        text_order(a, c) == SortOrder::Smaller,
    decreases a.len(),
{
    if a.len() > 0 && b.len() > 0 && c.len() > 0 && a[0] == b[0] && b[0] == c[0] {
        law_text_order_transitive(a.drop_first(), b.drop_first(), c.drop_first());
    }
}

/// Comparing two rows the other way round gives the reverse order, for every
/// column.
pub proof fn law_row_order_flips(column: SortColumn, a: FileRow, b: FileRow)
    ensures
        row_order(column, b, a) == flipped(row_order(column, a, b)),
{
    law_text_order_flips(lowercase_of(a.name@), lowercase_of(b.name@));
    law_text_order_flips(a.permissions@, b.permissions@);
}

/// Sorted by size or by time, rows follow the numeric order of their sizes
/// and times: the smaller number first, equal numbers tied.
pub proof fn law_numeric_columns(a: FileRow, b: FileRow)
    ensures
        (row_order(SortColumn::Size, a, b) == SortOrder::Smaller) <==> a.size < b.size,
        (row_order(SortColumn::Size, a, b) == SortOrder::Equal) <==> a.size == b.size,
        (row_order(SortColumn::Size, a, b) == SortOrder::Larger) <==> a.size > b.size,
        (row_order(SortColumn::Modified, a, b) == SortOrder::Smaller) <==> a.modified < b.modified,
        (row_order(SortColumn::Modified, a, b) == SortOrder::Equal) <==> a.modified
            == b.modified,
        (row_order(SortColumn::Modified, a, b) == SortOrder::Larger) <==> a.modified > b.modified,
{
}

/// Sorted by permissions, texts compare character by character: at the
/// first difference the smaller character comes first, and a text comes
/// right after its own prefix.
pub proof fn law_text_order_first_difference(a: Seq<char>, b: Seq<char>, k: int)
    requires
        0 <= k <= a.len(),
        k <= b.len(),
        a.take(k) == b.take(k),
    ensures
        k < a.len() && k < b.len() && (a[k] as int) < (b[k] as int) ==> text_order(a, b)
            == SortOrder::Smaller,
        k == a.len() && k < b.len() ==> text_order(a, b) == SortOrder::Smaller,
    decreases k,
{
    if k > 0 {
        assert(a[0] == a.take(k)[0]);
        assert(b[0] == b.take(k)[0]);
        assert(a.drop_first().take(k - 1) =~= a.take(k).drop_first());
        assert(b.drop_first().take(k - 1) =~= b.take(k).drop_first());
        law_text_order_first_difference(a.drop_first(), b.drop_first(), k - 1);
    }
}

/// Sorted by name, every directory comes before every file.
pub proof fn law_directories_first(a: FileRow, b: FileRow)
    requires
        a.is_dir,
        !b.is_dir,
    ensures
        row_order(SortColumn::Name, a, b) == SortOrder::Smaller,
        row_order(SortColumn::Name, b, a) == SortOrder::Larger,
{
}

} // verus!
