//! `write_file`: writes a file and reports what changed.

use vstd::prelude::*;

use crate::json::{member_text, JsonTree};

use crate::text::{
    concat, concat3, decimal, decimal_string, join_spec, lines, lines_spec, same_text,
};
use crate::tools::{make_param, param, tool_description, tool_name, ToolKind, ParamKind, ParamKindView, ParamSchema, ParamSchemaView, ToolError};
use vstd::string::StringExecFns;

verus! {

/// The `write_file` tool.
pub struct WriteFileTool;

/// The file to write and its new content.
#[derive(Debug)]
pub struct WriteRequest {
    pub path: String,
    pub content: String,
}

/// How many leading lines `a` and `b` share.
pub open spec fn common_prefix(a: Seq<Seq<char>>, b: Seq<Seq<char>>) -> nat
    decreases a.len(),
{
    if a.len() > 0 && b.len() > 0 && a[0] == b[0] {
        1 + common_prefix(a.drop_first(), b.drop_first())
    } else {
        0
    }
}

/// How many trailing lines `a` and `b` share.
pub open spec fn common_suffix(a: Seq<Seq<char>>, b: Seq<Seq<char>>) -> nat
    decreases a.len(),
{
    if a.len() > 0 && b.len() > 0 && a.last() == b.last() {
        1 + common_suffix(a.drop_last(), b.drop_last())
    } else {
        0
    }
}

/// The changed region of a rewrite: after the lines both versions start
/// with and before the lines both end with, the old lines that were
/// removed and the new lines that were added.
pub open spec fn changed_region(old: Seq<Seq<char>>, new: Seq<Seq<char>>) -> (
    Seq<Seq<char>>,
    Seq<Seq<char>>,
) {
    let p = common_prefix(old, new) as int;
    let s = common_suffix(old.skip(p), new.skip(p)) as int;
    (old.subrange(p, old.len() - s), new.subrange(p, new.len() - s))
}

/// At most three lines of `ls`, each on its own line after `mark`, and a
/// `...` line when there are more.
pub open spec fn preview(ls: Seq<Seq<char>>, mark: Seq<char>) -> Seq<char> {
    let n = if ls.len() < 3 {
        ls.len()
    } else {
        3
    };
    join_spec(Seq::new(n, |i: int| "\n  "@ + mark + " "@ + ls[i]), Seq::empty()) + if ls.len()
        > 3 {
        "\n  "@ + mark + " ..."@
    } else {
        Seq::empty()
    }
}

/// The report on a write: the byte count and path, the numbers of added
/// and removed lines, and previews of both.
pub open spec fn write_report(path: Seq<char>, bytes: nat, old: Seq<char>, new: Seq<char>) -> Seq<
    char,
> {
    let (removed, added) = changed_region(lines_spec(old), lines_spec(new));
    "Wrote "@ + decimal(bytes) + " bytes to "@ + path + "\nDiff: +"@ + decimal(added.len())
        + " -"@ + decimal(removed.len()) + " lines"@ + preview(removed, "-"@) + preview(
        added,
        "+"@,
    )
}

proof fn lemma_common_prefix(a: Seq<Seq<char>>, b: Seq<Seq<char>>)
    ensures
        common_prefix(a, b) <= a.len(),
        common_prefix(a, b) <= b.len(),
        a.take(common_prefix(a, b) as int) == b.take(common_prefix(a, b) as int),
    decreases a.len(),
{
    if a.len() > 0 && b.len() > 0 && a[0] == b[0] {
        lemma_common_prefix(a.drop_first(), b.drop_first());
        let k = common_prefix(a.drop_first(), b.drop_first()) as int;
        assert(a.take(k + 1) =~= seq![a[0]] + a.drop_first().take(k));
        assert(b.take(k + 1) =~= seq![b[0]] + b.drop_first().take(k));
    } else {
        assert(a.take(0) =~= b.take(0));
    }
}

proof fn lemma_common_suffix(a: Seq<Seq<char>>, b: Seq<Seq<char>>)
    ensures
        common_suffix(a, b) <= a.len(),
        common_suffix(a, b) <= b.len(),
        a.skip(a.len() - common_suffix(a, b)) == b.skip(b.len() - common_suffix(a, b)),
    decreases a.len(),
{
    if a.len() > 0 && b.len() > 0 && a.last() == b.last() {
        lemma_common_suffix(a.drop_last(), b.drop_last());
        let k = common_suffix(a.drop_last(), b.drop_last()) as int;
        assert(a.skip(a.len() - (k + 1)) =~= a.drop_last().skip(a.drop_last().len() - k).push(a.last()));
        assert(b.skip(b.len() - (k + 1)) =~= b.drop_last().skip(b.drop_last().len() - k).push(b.last()));
    } else {
        assert(a.skip(a.len() as int) =~= b.skip(b.len() as int));
    }
}

/// `old` and `new` agree on their first `p` and last `s` lines, and the
/// changed region is what lies between.
pub open spec fn splits_at(old: Seq<Seq<char>>, new: Seq<Seq<char>>, p: int, s: int) -> bool {
    &&& 0 <= p && 0 <= s && p + s <= old.len() && p + s <= new.len()
    &&& old.take(p) == new.take(p)
    &&& old.skip(old.len() - s) == new.skip(new.len() - s)
    &&& changed_region(old, new) == (old.subrange(p, old.len() - s), new.subrange(p, new.len() - s))
    &&& old == old.take(p) + old.subrange(p, old.len() - s) + old.skip(old.len() - s)
    &&& new == new.take(p) + new.subrange(p, new.len() - s) + new.skip(new.len() - s)
}

/// A rewrite differs from the old text only in its changed region: the
/// lines before it and the lines after it are the same in both versions,
/// and the old version is those lines around the removed ones, the new
/// version those lines around the added ones.
#[verifier::rlimit(40)]
pub proof fn lemma_rewrite_differs_only_in_region(old: Seq<Seq<char>>, new: Seq<Seq<char>>)
    ensures
        exists|p: int, s: int| #[trigger] splits_at(old, new, p, s),
{
    lemma_common_prefix(old, new);
    let p = common_prefix(old, new) as int;
    let a = old.skip(p);
    let b = new.skip(p);
    lemma_common_suffix(a, b);
    let s = common_suffix(a, b) as int;
    assert(a.skip(a.len() - s) =~= old.skip(old.len() - s));
    assert(b.skip(b.len() - s) =~= new.skip(new.len() - s));
    assert(old =~= old.take(p) + old.subrange(p, old.len() - s) + old.skip(old.len() - s));
    assert(new =~= new.take(p) + new.subrange(p, new.len() - s) + new.skip(new.len() - s));
    assert(splits_at(old, new, p, s));
}

proof fn lemma_common_prefix_at_least(a: Seq<Seq<char>>, b: Seq<Seq<char>>, i: int)
    requires
        0 <= i <= a.len(),
        i <= b.len(),
        a.take(i) == b.take(i),
    ensures
        common_prefix(a, b) >= i,
    decreases a.len(),
{
    if i > 0 {
        assert(a[0] == a.take(i)[0]);
        assert(b[0] == b.take(i)[0]);
        assert(a.drop_first().take(i - 1) =~= a.take(i).drop_first());
        assert(b.drop_first().take(i - 1) =~= b.take(i).drop_first());
        lemma_common_prefix_at_least(a.drop_first(), b.drop_first(), i - 1);
    }
}

proof fn lemma_common_suffix_at_least(a: Seq<Seq<char>>, b: Seq<Seq<char>>, k: int)
    requires
        0 <= k <= a.len(),
        k <= b.len(),
        a.skip(a.len() - k) == b.skip(b.len() - k),
    ensures
        common_suffix(a, b) >= k,
    decreases a.len(),
{
    if k > 0 {
        assert(a.last() == a.skip(a.len() - k)[k - 1]);
        assert(b.last() == b.skip(b.len() - k)[k - 1]);
        assert(a.drop_last().skip(a.len() - k) =~= a.skip(a.len() - k).drop_last());
        assert(b.drop_last().skip(b.len() - k) =~= b.skip(b.len() - k).drop_last());
        lemma_common_suffix_at_least(a.drop_last(), b.drop_last(), k - 1);
    }
}

proof fn lemma_common_prefix_stops(a: Seq<Seq<char>>, b: Seq<Seq<char>>)
    ensures
        common_prefix(a, b) < a.len() && common_prefix(a, b) < b.len() ==> a[common_prefix(a, b) as int]
            != b[common_prefix(a, b) as int],
    decreases a.len(),
{
    if a.len() > 0 && b.len() > 0 && a[0] == b[0] {
        lemma_common_prefix_stops(a.drop_first(), b.drop_first());
    }
}

proof fn lemma_common_suffix_stops(a: Seq<Seq<char>>, b: Seq<Seq<char>>)
    ensures
        common_suffix(a, b) < a.len() && common_suffix(a, b) < b.len() ==> a[a.len() - 1
            - common_suffix(a, b)] != b[b.len() - 1 - common_suffix(a, b)],
    decreases a.len(),
{
    if a.len() > 0 && b.len() > 0 && a.last() == b.last() {
        lemma_common_suffix_stops(a.drop_last(), b.drop_last());
    }
}

/// `old` and `new` share their first `p` lines and their last `s` lines,
/// and no more: at position `p` they differ (when both have a line
/// there), and so do their lines just before the last `s` (when both
/// have one after the first `p`).
pub open spec fn tight_split(old: Seq<Seq<char>>, new: Seq<Seq<char>>, p: int, s: int) -> bool {
    &&& 0 <= p && 0 <= s && p + s <= old.len() && p + s <= new.len()
    &&& old.take(p) == new.take(p)
    &&& old.skip(old.len() - s) == new.skip(new.len() - s)
    &&& (p < old.len() && p < new.len() ==> old[p] != new[p])
    &&& (p + s < old.len() && p + s < new.len() ==> old[old.len() - s - 1] != new[new.len() - s
        - 1])
}

/// The changed region of a rewrite is as small as it can be: the removed
/// and added lines are what lies between the longest run of lines both
/// versions start with and, after it, the longest run of lines both end
/// with.  So neither the removed nor the added lines start or end with a
/// line the two versions still share at that place.
pub proof fn lemma_changed_region_is_tight(old: Seq<Seq<char>>, new: Seq<Seq<char>>)
    ensures
        exists|p: int, s: int|
            #[trigger] tight_split(old, new, p, s) && changed_region(old, new) == (
                old.subrange(p, old.len() - s),
                new.subrange(p, new.len() - s),
            ),
{
    lemma_common_prefix(old, new);
    lemma_common_prefix_stops(old, new);
    let p = common_prefix(old, new) as int;
    let a = old.skip(p);
    let b = new.skip(p);
    lemma_common_suffix(a, b);
    lemma_common_suffix_stops(a, b);
    let s = common_suffix(a, b) as int;
    assert(a.skip(a.len() - s) =~= old.skip(old.len() - s));
    assert(b.skip(b.len() - s) =~= new.skip(new.len() - s));
    if p + s < old.len() && p + s < new.len() {
        assert(a[a.len() - 1 - s] == old[old.len() - s - 1]);
        assert(b[b.len() - 1 - s] == new[new.len() - s - 1]);
    }
    assert(tight_split(old, new, p, s));
}

/// When two versions share their first `i` and their last `j` lines, the
/// changed region lies within the lines between: at most
/// `old.len() - i - j` lines are removed and `new.len() - i - j` added, and
/// the difference of the two counts is the difference of the lengths.
pub proof fn lemma_changed_region_within(old: Seq<Seq<char>>, new: Seq<Seq<char>>, i: int, j: int)
    requires
        0 <= i,
        0 <= j,
        i + j <= old.len(),
        i + j <= new.len(),
        old.take(i) == new.take(i),
        old.skip(old.len() - j) == new.skip(new.len() - j),
    ensures
        changed_region(old, new).0.len() <= old.len() - i - j,
        changed_region(old, new).1.len() <= new.len() - i - j,
        changed_region(old, new).1.len() - changed_region(old, new).0.len() == new.len()
            - old.len(),
{
    lemma_common_prefix(old, new);
    lemma_common_prefix_at_least(old, new, i);
    let p = common_prefix(old, new) as int;
    let a = old.skip(p);
    let b = new.skip(p);
    lemma_common_suffix(a, b);
    let k = if j <= a.len() && j <= b.len() {
        j
    } else if a.len() <= b.len() {
        a.len() as int
    } else {
        b.len() as int
    };
    assert(a.skip(a.len() - k) =~= old.skip(old.len() - j).skip(j - k));
    assert(b.skip(b.len() - k) =~= new.skip(new.len() - j).skip(j - k));
    lemma_common_suffix_at_least(a, b, k);
}

/// Inserting lines anywhere into a file is reported as exactly those lines
/// added and none removed.
pub proof fn lemma_insertion_is_reported_as_added(old: Seq<Seq<char>>, inserted: Seq<Seq<char>>, i: int)
    requires
        0 <= i <= old.len(),
    ensures
        changed_region(old, old.take(i) + inserted + old.skip(i)).0.len() == 0,
        changed_region(old, old.take(i) + inserted + old.skip(i)).1.len() == inserted.len(),
{
    let new = old.take(i) + inserted + old.skip(i);
    let j = old.len() - i;
    assert(new.take(i) =~= old.take(i));
    assert(new.skip(new.len() - j) =~= old.skip(old.len() - j));
    lemma_changed_region_within(old, new, i, j);
}

/// Deleting lines anywhere from a file is reported as exactly those lines
/// removed and none added.
pub proof fn lemma_deletion_is_reported_as_removed(new: Seq<Seq<char>>, deleted: Seq<Seq<char>>, i: int)
    requires
        0 <= i <= new.len(),
    ensures
        changed_region(new.take(i) + deleted + new.skip(i), new).0.len() == deleted.len(),
        changed_region(new.take(i) + deleted + new.skip(i), new).1.len() == 0,
{
    let old = new.take(i) + deleted + new.skip(i);
    let j = new.len() - i;
    assert(old.take(i) =~= new.take(i));
    assert(old.skip(old.len() - j) =~= new.skip(new.len() - j));
    lemma_changed_region_within(old, new, i, j);
}

/// The report on a write that inserts `k` lines anywhere into a file says
/// so: it opens with the byte count and path, then `Diff: +k -0 lines`.
pub proof fn lemma_insertion_report(
    path: Seq<char>,
    bytes: nat,
    old: Seq<char>,
    new: Seq<char>,
    inserted: Seq<Seq<char>>,
    i: int,
)
    requires
        0 <= i <= lines_spec(old).len(),
        lines_spec(new) == lines_spec(old).take(i) + inserted + lines_spec(old).skip(i),
    ensures
        ({
            let head = "Wrote "@ + decimal(bytes) + " bytes to "@ + path + "\nDiff: +"@ + decimal(
                inserted.len(),
            ) + " -"@ + decimal(0) + " lines"@;
            let r = write_report(path, bytes, old, new);
            head.len() <= r.len() && r.take(head.len() as int) == head
        }),
{
    lemma_insertion_is_reported_as_added(lines_spec(old), inserted, i);
    let (removed, added) = changed_region(lines_spec(old), lines_spec(new));
    let head = "Wrote "@ + decimal(bytes) + " bytes to "@ + path + "\nDiff: +"@ + decimal(
        inserted.len(),
    ) + " -"@ + decimal(0) + " lines"@;
    let r = write_report(path, bytes, old, new);
    assert(r =~= head + preview(removed, "-"@) + preview(added, "+"@));
    assert(r.take(head.len() as int) =~= head);
}

/// The report on a write that deletes `k` lines anywhere from a file says
/// so: it opens with the byte count and path, then `Diff: +0 -k lines`.
pub proof fn lemma_deletion_report(
    path: Seq<char>,
    bytes: nat,
    old: Seq<char>,
    new: Seq<char>,
    deleted: Seq<Seq<char>>,
    i: int,
)
    requires
        0 <= i <= lines_spec(new).len(),
        lines_spec(old) == lines_spec(new).take(i) + deleted + lines_spec(new).skip(i),
    ensures
        ({
            let head = "Wrote "@ + decimal(bytes) + " bytes to "@ + path + "\nDiff: +"@ + decimal(0)
                + " -"@ + decimal(deleted.len()) + " lines"@;
            let r = write_report(path, bytes, old, new);
            head.len() <= r.len() && r.take(head.len() as int) == head
        }),
{
    lemma_deletion_is_reported_as_removed(lines_spec(new), deleted, i);
    let (removed, added) = changed_region(lines_spec(old), lines_spec(new));
    let head = "Wrote "@ + decimal(bytes) + " bytes to "@ + path + "\nDiff: +"@ + decimal(0) + " -"@
        + decimal(deleted.len()) + " lines"@;
    let r = write_report(path, bytes, old, new);
    assert(r =~= head + preview(removed, "-"@) + preview(added, "+"@));
    assert(r.take(head.len() as int) =~= head);
}

fn line_eq(a: &Vec<String>, i: usize, b: &Vec<String>, j: usize) -> (r: bool)
    requires
        i < a.len(),
        j < b.len(),
    ensures
        r == (a.deep_view()[i as int] == b.deep_view()[j as int]),
{
    same_text(a[i].as_str(), b[j].as_str())
}

/// The removed and added lines of a rewrite, as `changed_region` defines them.
fn diff(old: &Vec<String>, new: &Vec<String>) -> (r: (usize, usize, usize))
    ensures
        ({
            let (p, old_end, new_end) = r;
            &&& p <= old_end <= old.len()
            &&& p <= new_end <= new.len()
            &&& changed_region(old.deep_view(), new.deep_view()) == (
                old.deep_view().subrange(p as int, old_end as int),
                new.deep_view().subrange(p as int, new_end as int),
            )
        }),
{
    let ghost a = old.deep_view();
    let ghost b = new.deep_view();
    let mut p: usize = 0;
    assert(a.skip(0) =~= a);
    assert(b.skip(0) =~= b);
    while p < old.len() && p < new.len() && line_eq(old, p, new, p)
        invariant
            p <= old.len(),
            p <= new.len(),
            a == old.deep_view(),
            b == new.deep_view(),
            common_prefix(a, b) == p + common_prefix(a.skip(p as int), b.skip(p as int)),
        decreases old.len() - p,
    {
        assert(a.skip(p as int).drop_first() =~= a.skip(p + 1));
        assert(b.skip(p as int).drop_first() =~= b.skip(p + 1));
        p = p + 1;
    }
    let ghost a2 = a.skip(p as int);
    let ghost b2 = b.skip(p as int);
    let mut s: usize = 0;
    assert(a2.take(a2.len() as int) =~= a2);
    assert(b2.take(b2.len() as int) =~= b2);
    while s < old.len() - p && s < new.len() - p && line_eq(
        old,
        old.len() - 1 - s,
        new,
        new.len() - 1 - s,
    )
        invariant
            p <= old.len(),
            p <= new.len(),
            s <= old.len() - p,
            s <= new.len() - p,
            a == old.deep_view(),
            b == new.deep_view(),
            a2 == a.skip(p as int),
            b2 == b.skip(p as int),
            common_suffix(a2, b2) == s + common_suffix(
                a2.take(a2.len() - s),
                b2.take(b2.len() - s),
            ),
        decreases old.len() - p - s,
    {
        assert(a2.take(a2.len() - s).drop_last() =~= a2.take(a2.len() - s - 1));
        assert(b2.take(b2.len() - s).drop_last() =~= b2.take(b2.len() - s - 1));
        assert(a2.take(a2.len() - s).last() == a[old.len() - 1 - s]);
        assert(b2.take(b2.len() - s).last() == b[new.len() - 1 - s]);
        s = s + 1;
    }
    proof {
        let ta = a2.take(a2.len() - s);
        let tb = b2.take(b2.len() - s);
        if ta.len() > 0 && tb.len() > 0 {
            assert(ta.last() == a[old.len() - 1 - s]);
            assert(tb.last() == b[new.len() - 1 - s]);
        }
        if p < old.len() && p < new.len() {
            assert(a.skip(p as int)[0] == a[p as int]);
        }
    }
    (p, old.len() - s, new.len() - s)
}

fn preview_text(ls: &Vec<String>, lo: usize, hi: usize, mark: &str) -> (t: String)
    requires
        lo <= hi <= ls.len(),
    ensures
        t@ == preview(ls.deep_view().subrange(lo as int, hi as int), mark@),
{
    let ghost part = ls.deep_view().subrange(lo as int, hi as int);
    let n: usize = if hi - lo < 3 {
        hi - lo
    } else {
        3
    };
    let ghost items = Seq::new(n as nat, |i: int| "\n  "@ + mark@ + " "@ + part[i]);
    let mut t = String::new();
    let mut i: usize = 0;
    while i < n
        invariant
            i <= n,
            n <= hi - lo,
            lo <= hi <= ls.len(),
            part == ls.deep_view().subrange(lo as int, hi as int),
            items == Seq::new(n as nat, |i: int| "\n  "@ + mark@ + " "@ + part[i]),
            t@ == join_spec(items.take(i as int), Seq::empty()),
        decreases n - i,
    {
        let piece = concat3("\n  ", mark, concat(" ", ls[lo + i].as_str()).as_str());
        assert(piece@ =~= items[i as int]);
        t.append(piece.as_str());
        assert(items.take(i + 1).drop_last() =~= items.take(i as int));
        assert(t@ =~= join_spec(items.take(i + 1), Seq::empty()));
        i = i + 1;
    }
    assert(items.take(n as int) =~= items);
    if hi - lo > 3 {
        t.append("\n  ");
        t.append(mark);
        t.append(" ...");
    }
    t
}

impl WriteFileTool {
    /// Reads the arguments: the path and the content are both required,
    /// the path being checked first.
    pub fn request(args: &JsonTree) -> (r: Result<WriteRequest, ToolError>)
        ensures
            ({
                let path = member_text(args@, "path"@);
                let content = member_text(args@, "content"@);
                match r {
                    Ok(q) => path == Some(q.path@) && content == Some(q.content@),
                    Err(e) => (path is None && e.text() == "Missing path"@) || (path is Some
                        && content is None && e.text() == "Missing content"@),
                }
            }),
    {
        Self::from_fields(args.text_at("path"), args.text_at("content"))
    }

    /// The request from the values of its arguments (`None` for an absent
    /// one or one of another type).
    fn from_fields(path: Option<String>, content: Option<String>) -> (r: Result<
        WriteRequest,
        ToolError,
    >)
        ensures
            match r {
                Ok(q) => path.deep_view() == Some(q.path@) && content.deep_view() == Some(
                    q.content@,
                ),
                Err(e) => (path is None && e.text() == "Missing path"@) || (path is Some
                    && content is None && e.text() == "Missing content"@),
            },
    {
        let path = match path {
            Some(p) => p,
            None => return Err(ToolError::Message(String::from_str("Missing path"))),
        };
        let content = match content {
            Some(c) => c,
            None => return Err(ToolError::Message(String::from_str("Missing content"))),
        };
        Ok(WriteRequest { path, content })
    }

    /// The report on writing `content` to `path` over `previous` (the
    /// file's former text, if it existed as text).
    pub fn report(path: &str, previous: Option<&str>, content: &str) -> (r: String)
        ensures
            r@ == write_report(
                path@,
                content.len() as nat,
                match previous {
                    Some(p) => p@,
                    None => Seq::empty(),
                },
                content@,
            ),
    {
        let old_lines = match previous {
            Some(p) => lines(p),
            None => lines(""),
        };
        let new_lines = lines(content);
        assert(old_lines@.map_values(|l: String| l@) =~= old_lines.deep_view());
        assert(new_lines@.map_values(|l: String| l@) =~= new_lines.deep_view());
        let ghost old_text = match previous {
            Some(p) => p@,
            None => Seq::<char>::empty(),
        };
        proof {
            if previous is None {
                reveal_strlit("");
                assert(""@ =~= Seq::<char>::empty());
            }
        }
        assert(old_lines.deep_view() == lines_spec(old_text));
        let (p, old_end, new_end) = diff(&old_lines, &new_lines);
        let ghost removed = old_lines.deep_view().subrange(p as int, old_end as int);
        let ghost added = new_lines.deep_view().subrange(p as int, new_end as int);
        assert(changed_region(lines_spec(old_text), lines_spec(content@)) == (removed, added));
        let bytes = content.len() as u64;

        let mut r = concat3("Wrote ", decimal_string(bytes).as_str(), " bytes to ");
        r.append(path);
        r.append("\nDiff: +");
        r.append(decimal_string((new_end - p) as u64).as_str());
        r.append(" -");
        r.append(decimal_string((old_end - p) as u64).as_str());
        r.append(" lines");
        r.append(preview_text(&old_lines, p, old_end, "-").as_str());
        r.append(preview_text(&new_lines, p, new_end, "+").as_str());
        r
    }

    /// The error for a parent directory that could not be created.
    pub fn create_dir_failed(detail: &str) -> (e: ToolError)
        ensures
            e.text() == "Cannot create dir: "@ + detail@,
    {
        ToolError::with_detail("Cannot create dir: ", detail)
    }

    /// The error for a file that could not be written.
    pub fn write_failed(path: &str, detail: &str) -> (e: ToolError)
        ensures
            e.text() == "Cannot write "@ + path@ + ": "@ + detail@,
    {
        ToolError::Message(concat3("Cannot write ", path, concat(": ", detail).as_str()))
    }
}

/// The parameters `write_file` accepts.
pub open spec fn write_schema() -> ParamSchemaView {
    ParamSchemaView {
        properties: seq![
            param("path"@, ParamKindView::Text, "Path to the file to write"@),
            param("content"@, ParamKindView::Text, "Content to write to the file"@),
        ],
        required: seq!["path"@, "content"@],
    }
}

impl WriteFileTool {
    pub fn name(&self) -> (n: &'static str)
        ensures
            n@ == tool_name(ToolKind::WriteFile),
    {
        "write_file"
    }

    pub fn description(&self) -> (d: &'static str)
        ensures
            d@ == tool_description(ToolKind::WriteFile),
    {
        "Write or overwrite a file with the given content."
    }

    pub fn parameters(&self) -> (p: ParamSchema)
        ensures
            p@ == write_schema(),
    {
        let properties = vec![
            make_param("path", ParamKind::Text, "Path to the file to write"),
            make_param("content", ParamKind::Text, "Content to write to the file"),
        ];
        let required: Vec<&'static str> = vec!["path", "content"];
        let p = ParamSchema { properties, required };
        assert(p@.properties =~= write_schema().properties);
        assert(p@.required =~= write_schema().required);
        p
    }
}

} // verus!
