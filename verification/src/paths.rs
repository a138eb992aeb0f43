use vstd::prelude::*;
use vstd::string::*;
use crate::text::{last_segment, last_segment_of, lemma_segment_start, same_text, segment_start};

verus! {

/// A path given as text, relative to a directory given as text. A leaf that
/// starts at the root stands for itself; otherwise it follows the base,
/// with one `/` between them unless the base is empty or ends in one.
pub open spec fn joined(base: Seq<char>, leaf: Seq<char>) -> Seq<char> {
    if leaf.len() > 0 && leaf[0] == '/' {
        leaf
    } else if base.len() == 0 || base.last() == '/' {
        base + leaf
    } else {
        base + seq!['/'] + leaf
    }
}

/// A path without what does not count at its end: the `/`s that close it,
/// and each `.` that stands there for a segment of its own.
pub open spec fn bare(path: Seq<char>) -> Seq<char>
    decreases path.len(),
{
    if path.len() > 0 && path.last() == '/' {
        bare(path.drop_last())
    } else if path.len() >= 2 && path.last() == '.' && path[path.len() - 2] == '/' {
        bare(path.drop_last())
    } else {
        path
    }
}

/// Whether a segment is a name: it is neither empty nor one of the two
/// directory marks.
pub open spec fn is_name(segment: Seq<char>) -> bool {
    segment.len() > 0 && segment != seq!['.'] && segment != seq!['.', '.']
}

/// The name of the directory or file that a path leads to: the last
/// segment of its bare form, where that is a name.
pub open spec fn base_name(path: Seq<char>) -> Option<Seq<char>> {
    let name = last_segment(bare(path));
    if is_name(name) {
        Some(name)
    } else {
        None
    }
}

/// Whether a path names a file.
pub open spec fn has_file_name(path: Seq<char>) -> bool {
    base_name(path) is Some
}

/// What stands before the last segment of a path's bare form.
pub open spec fn lead_of(path: Seq<char>) -> Seq<char> {
    bare(path).subrange(0, segment_start(bare(path)))
}

/// The directory in which a path's last segment lies: empty for a name
/// alone, the root for what lies directly under it.
pub open spec fn parent_of(path: Seq<char>) -> Seq<char> {
    let lead = lead_of(path);
    if lead.len() > 0 && bare(lead).len() == 0 {
        seq!['/']
    } else {
        bare(lead)
    }
}

/// The sibling under which a file is kept before it is overwritten: the
/// file's bare path, then `.backup.`, then the time of the copy.
pub open spec fn backup_of(path: Seq<char>, stamp: Seq<char>) -> Seq<char> {
    bare(path) + ".backup."@ + stamp
}

/// A bare form is a front part of its path.
pub proof fn lemma_bare_is_front(path: Seq<char>)
    ensures
        bare(path).len() <= path.len(),
        bare(path) == path.subrange(0, bare(path).len() as int),
        bare(bare(path)) == bare(path),
    decreases path.len(),
{
    if bare(path) != path {
        let front = path.drop_last();
        lemma_bare_is_front(front);
        assert(bare(path) == bare(front));
        assert(front.subrange(0, bare(front).len() as int) =~= path.subrange(
            0,
            bare(front).len() as int,
        ));
    } else {
        assert(path.subrange(0, path.len() as int) =~= path);
    }
}

/// Text without a `/` behind a path leaves the start of its last segment
/// where it was.
pub proof fn lemma_segment_start_append(path: Seq<char>, tail: Seq<char>)
    requires
        forall|i: int| 0 <= i < tail.len() ==> tail[i] != '/',
    ensures
        segment_start(path + tail) == segment_start(path),
    decreases tail.len(),
{
    if tail.len() == 0 {
        assert(path + tail =~= path);
    } else {
        let whole = path + tail;
        assert(whole.last() == tail.last());
        assert(whole.drop_last() =~= path + tail.drop_last());
        lemma_segment_start_append(path, tail.drop_last());
    }
}

/// A path that ends in two or more characters without a `/` is its own
/// bare form, and its last segment ends in them.
pub proof fn lemma_tail_kept(front: Seq<char>, tail: Seq<char>)
    requires
        tail.len() >= 2,
        forall|i: int| 0 <= i < tail.len() ==> tail[i] != '/',
    ensures
        bare(front + tail) == front + tail,
        segment_start(front + tail) == segment_start(front),
        last_segment(front + tail) == last_segment(front) + tail,
{
    let whole = front + tail;
    assert(whole.last() == tail.last());
    assert(whole[whole.len() - 2] == tail[tail.len() - 2]);
    lemma_segment_start_append(front, tail);
    lemma_segment_start(front);
    assert(last_segment(whole) =~= last_segment(front) + tail);
}

/// A backup lies in the directory of the file it copies, and its name is
/// that file's name followed by `.backup.` and the time of the copy.
pub proof fn lemma_backup_is_sibling(path: Seq<char>, stamp: Seq<char>)
    requires
        forall|i: int| 0 <= i < stamp.len() ==> stamp[i] != '/',
    ensures
        bare(backup_of(path, stamp)) == backup_of(path, stamp),
        lead_of(backup_of(path, stamp)) == lead_of(path),
        parent_of(backup_of(path, stamp)) == parent_of(path),
        last_segment(backup_of(path, stamp)) == last_segment(bare(path)) + ".backup."@ + stamp,
        base_name(backup_of(path, stamp)) == Some(
            last_segment(bare(path)) + ".backup."@ + stamp,
        ),
{
    reveal_strlit(".backup.");
    let tail = ".backup."@ + stamp;
    let front = bare(path);
    assert(forall|i: int| 0 <= i < tail.len() ==> tail[i] != '/');
    assert(backup_of(path, stamp) =~= front + tail);
    lemma_tail_kept(front, tail);
    lemma_segment_start(front);
    assert(lead_of(backup_of(path, stamp)) =~= lead_of(path)) by {
        lemma_bare_is_front(path);
    }
    assert(last_segment(backup_of(path, stamp)) =~= last_segment(front) + ".backup."@ + stamp);
    assert(last_segment(backup_of(path, stamp)).len() >= 8);
}

/// The path of `leaf` relative to `base`.
pub fn join(base: &str, leaf: &str) -> (r: String)
    ensures
        r@ == joined(base@, leaf@),
{
    let leaf_len = leaf.unicode_len();
    if leaf_len > 0 && leaf.get_char(0) == '/' {
        return String::from_str(leaf);
    }
    let base_len = base.unicode_len();
    let mut out = String::from_str(base);
    if base_len > 0 && base.get_char(base_len - 1) != '/' {
        proof {
            reveal_strlit("/");
            assert("/"@ =~= seq!['/']);
        }
        out.append("/");
    }
    out.append(leaf);
    out
}

/// Where the bare form of the first `limit` characters of a path ends.
fn bare_end(path: &str, limit: usize) -> (end: usize)
    requires
        limit <= path@.len(),
    ensures
        end <= limit,
        bare(path@.subrange(0, limit as int)) == path@.subrange(0, end as int),
{
    let mut end: usize = limit;
    let mut done = false;
    while !done
        invariant
            end <= limit,
            limit <= path@.len(),
            bare(path@.subrange(0, limit as int)) == bare(path@.subrange(0, end as int)),
            done ==> bare(path@.subrange(0, end as int)) == path@.subrange(0, end as int),
        decreases
                (if done {
                    0int
                } else {
                    end + 1
                }),
    {
        let mut strip = false;
        if end > 0 {
            let c = path.get_char(end - 1);
            if c == '/' {
                strip = true;
            } else if c == '.' && end >= 2 {
                strip = path.get_char(end - 2) == '/';
            }
        }
        proof {
            let cut = path@.subrange(0, end as int);
            if end > 0 {
                assert(cut.last() == path@[end - 1]);
                assert(cut.drop_last() =~= path@.subrange(0, end - 1));
                if end >= 2 {
                    assert(cut[cut.len() - 2] == path@[end - 2]);
                }
            }
        }
        if strip {
            end = end - 1;
        } else {
            done = true;
        }
    }
    end
}

/// Whether a segment is a name.
fn names(segment: &str) -> (r: bool)
    ensures
        r == is_name(segment@),
{
    proof {
        reveal_strlit(".");
        reveal_strlit("..");
        assert("."@ =~= seq!['.']);
        assert(".."@ =~= seq!['.', '.']);
    }
    segment.unicode_len() > 0 && !same_text(segment, ".") && !same_text(segment, "..")
}

/// The name of the directory or file that the path leads to.
pub fn base_name_of(path: &str) -> (r: Option<String>)
    ensures
        r is Some <==> base_name(path@) is Some,
        r is Some ==> Some(r->0@) == base_name(path@),
{
    let n = path.unicode_len();
    proof {
        assert(path@.subrange(0, n as int) =~= path@);
    }
    let end = bare_end(path, n);
    let name = last_segment_of(path.substring_char(0, end));
    if names(name.as_str()) {
        Some(name)
    } else {
        None
    }
}

/// Whether the path names a file.
pub fn names_file(path: &str) -> (r: bool)
    ensures
        r == has_file_name(path@),
{
    base_name_of(path).is_some()
}

/// The directory in which the path's last segment lies.
pub fn parent(path: &str) -> (r: String)
    ensures
        r@ == parent_of(path@),
{
    let n = path.unicode_len();
    proof {
        assert(path@.subrange(0, n as int) =~= path@);
    }
    let end = bare_end(path, n);
    let name = last_segment_of(path.substring_char(0, end));
    let m = name.as_str().unicode_len();
    proof {
        lemma_segment_start(bare(path@));
    }
    let lead = end - m;
    proof {
        assert(lead_of(path@) =~= path@.subrange(0, lead as int));
    }
    let dir = bare_end(path, lead);
    if lead > 0 && dir == 0 {
        proof {
            reveal_strlit("/");
            assert("/"@ =~= seq!['/']);
        }
        String::from_str("/")
    } else {
        String::from_str(path.substring_char(0, dir))
    }
}

/// The path under which a file is kept before it is overwritten.
pub fn backup_path(path: &str, stamp: &str) -> (r: String)
    ensures
        r@ == backup_of(path@, stamp@),
{
    let n = path.unicode_len();
    proof {
        assert(path@.subrange(0, n as int) =~= path@);
    }
    let end = bare_end(path, n);
    let mut out = String::from_str(path.substring_char(0, end));
    out.append(".backup.");
    out.append(stamp);
    out
}

} // verus!
