use vstd::prelude::*;

verus! {

/// The byte `/`, which separates the segments of a request path.
pub const SLASH: u8 = 47;

/// `s` without its leading slashes.
pub open spec fn trim_start(s: Seq<u8>) -> Seq<u8>
    decreases s.len(),
{
    if s.len() > 0 && s[0] == SLASH {
        trim_start(s.drop_first())
    } else {
        s
    }
}

/// `s` without its trailing slashes.
pub open spec fn trim_end(s: Seq<u8>) -> Seq<u8>
    decreases s.len(),
{
    if s.len() > 0 && s.last() == SLASH {
        trim_end(s.drop_last())
    } else {
        s
    }
}

/// `s` without the bytes after its last slash.
pub open spec fn drop_segment(s: Seq<u8>) -> Seq<u8>
    decreases s.len(),
{
    if s.len() > 0 && s.last() != SLASH {
        drop_segment(s.drop_last())
    } else {
        s
    }
}

/// The path of the resource that a request names, relative to the server
/// root: the request path without leading slashes, or `.` where nothing is
/// left (an empty path or `/` names the root itself).
pub open spec fn resource_of(path: Seq<u8>) -> Seq<u8> {
    if trim_start(path).len() == 0 {
        seq![46u8]
    } else {
        trim_start(path)
    }
}

/// The parent of a request path, relative to the server root: its last
/// segment and the slashes around it removed, and no leading slash.
pub open spec fn parent_of(path: Seq<u8>) -> Seq<u8> {
    trim_start(trim_end(drop_segment(trim_end(path))))
}

/// A copy of `s[lo..hi]`.
pub fn copy_range(s: &[u8], lo: usize, hi: usize) -> (r: Vec<u8>)
    requires
        lo <= hi <= s@.len(),
    ensures
        r@ == s@.subrange(lo as int, hi as int),
{
    let mut r: Vec<u8> = Vec::new();
    let mut i: usize = lo;
    while i < hi
        invariant
            lo <= i <= hi <= s@.len(),
            r@ == s@.subrange(lo as int, i as int),
        decreases hi - i,
    {
        r.push(s[i]);
        i = i + 1;
        proof {
            assert(s@.subrange(lo as int, i as int) == s@.subrange(lo as int, i - 1 as int).push(
                s@[i - 1],
            ));
        }
    }
    r
}

/// The index at which `trim_start(s@)` begins.
fn start_index(s: &[u8]) -> (i: usize)
    ensures
        i <= s@.len(),
        trim_start(s@) == s@.subrange(i as int, s@.len() as int),
{
    let mut i: usize = 0;
    assert(s@.subrange(0, s@.len() as int) == s@);
    while i < s.len() && s[i] == SLASH
        invariant
            i <= s@.len(),
            trim_start(s@) == trim_start(s@.subrange(i as int, s@.len() as int)),
        decreases s@.len() - i,
    {
        proof {
            let t = s@.subrange(i as int, s@.len() as int);
            assert(t.drop_first() == s@.subrange(i + 1, s@.len() as int));
        }
        i = i + 1;
    }
    proof {
        let t = s@.subrange(i as int, s@.len() as int);
        assert(trim_start(t) == t);
    }
    i
}

/// The index at which `trim_end(s@.subrange(0, end))` ends.
fn end_index(s: &[u8], end: usize) -> (e: usize)
    requires
        end <= s@.len(),
    ensures
        e <= end,
        trim_end(s@.subrange(0, end as int)) == s@.subrange(0, e as int),
{
    let mut e: usize = end;
    while e > 0 && s[e - 1] == SLASH
        invariant
            e <= end <= s@.len(),
            trim_end(s@.subrange(0, end as int)) == trim_end(s@.subrange(0, e as int)),
        decreases e,
    {
        proof {
            assert(s@.subrange(0, e as int).drop_last() == s@.subrange(0, e - 1));
        }
        e = e - 1;
    }
    e
}

/// The index at which `drop_segment(s@.subrange(0, end))` ends.
fn segment_index(s: &[u8], end: usize) -> (e: usize)
    requires
        end <= s@.len(),
    ensures
        e <= end,
        drop_segment(s@.subrange(0, end as int)) == s@.subrange(0, e as int),
{
    let mut e: usize = end;
    while e > 0 && s[e - 1] != SLASH
        invariant
            e <= end <= s@.len(),
            drop_segment(s@.subrange(0, end as int)) == drop_segment(s@.subrange(0, e as int)),
        decreases e,
    {
        proof {
            assert(s@.subrange(0, e as int).drop_last() == s@.subrange(0, e - 1));
        }
        e = e - 1;
    }
    e
}

/// The path, relative to the server root, that a request path is joined
/// onto the root as.
pub fn resource_path(path: &String) -> (r: Vec<u8>)
    ensures
        r@ == resource_of(crate::text::utf8(path@)),
{
    let b = path.as_str().as_bytes();
    let i = start_index(b);
    if i == b.len() {
        vec![46u8]
    } else {
        copy_range(b, i, b.len())
    }
}

/// The parent of a request path, relative to the server root, as the target
/// of a link that goes back up one directory.
pub fn parent_path(path: &String) -> (r: Vec<u8>)
    ensures
        r@ == parent_of(crate::text::utf8(path@)),
{
    let b = path.as_str().as_bytes();
    let e1 = end_index(b, b.len());
    let e2 = segment_index(b, e1);
    let e3 = end_index(b, e2);
    let p = copy_range(b, 0, e3);
    proof {
        assert(b@.subrange(0, b@.len() as int) == b@);
        assert(b@.subrange(0, e1 as int).subrange(0, e2 as int) == b@.subrange(0, e2 as int));
    }
    let i = start_index(p.as_slice());
    copy_range(p.as_slice(), i, p.len())
}

/// The components of a canonical path, as text.
pub open spec fn components(v: Seq<String>) -> Seq<Seq<char>> {
    v.map_values(|c: String| c@)
}

/// Whether `root` is an ancestor of `target`, or `target` itself: the
/// components of `root` begin the components of `target`.
pub open spec fn is_within(root: Seq<Seq<char>>, target: Seq<Seq<char>>) -> bool {
    root.len() <= target.len() && target.subrange(0, root.len() as int) == root
}

/// What the file system says a path is.
#[derive(Clone, Copy, Debug, PartialEq, Eq)]
pub enum EntryKind {
    RegularFile,
    Folder,
    Other,
}

/// What the file system says of a requested path: absent, or present at a
/// canonical location (its components below `/`) as some kind of entry.
#[derive(Debug)]
pub enum Probe {
    Absent,
    Present { canonical: Vec<String>, kind: EntryKind },
}

/// The classification of a requested path against the server root.
#[derive(Debug)]
pub enum ResolvedTarget {
    OutsideRoot,
    File(Vec<String>),
    Directory(Vec<String>),
    Missing,
}

/// Whether the canonical path `target` lies at or under the canonical path
/// `root`.
pub fn within_root(root: &Vec<String>, target: &Vec<String>) -> (r: bool)
    ensures
        r == is_within(components(root@), components(target@)),
{
    if root.len() > target.len() {
        return false;
    }
    let mut i: usize = 0;
    while i < root.len()
        invariant
            root@.len() <= target@.len(),
            i <= root@.len(),
            forall|j: int| 0 <= j < i ==> root@[j]@ == target@[j]@,
        decreases root@.len() - i,
    {
        if root[i] != target[i] {
            proof {
                assert(components(target@).subrange(0, root@.len() as int)[i as int]
                    != components(root@)[i as int]);
            }
            return false;
        }
        i = i + 1;
    }
    proof {
        assert(components(target@).subrange(0, root@.len() as int) =~= components(root@));
    }
    true
}

/// Classifies a requested path, which the file system describes by `probe`,
/// against the canonical server root.
pub fn resolve(root: &Vec<String>, probe: Probe) -> (r: ResolvedTarget)
    ensures
        match probe {
            Probe::Absent => r is Missing,
            Probe::Present { canonical, kind } => if !is_within(
                components(root@),
                components(canonical@),
            ) {
                r is OutsideRoot
            } else {
                match kind {
                    EntryKind::RegularFile => r matches ResolvedTarget::File(p) && p@ == canonical@,
                    EntryKind::Folder => r matches ResolvedTarget::Directory(p) && p@
                        == canonical@,
                    EntryKind::Other => r is Missing,
                }
            },
        },
{
    match probe {
        Probe::Absent => ResolvedTarget::Missing,
        Probe::Present { canonical, kind } => {
            if !within_root(root, &canonical) {
                ResolvedTarget::OutsideRoot
            } else {
                match kind {
                    EntryKind::RegularFile => ResolvedTarget::File(canonical),
                    EntryKind::Folder => ResolvedTarget::Directory(canonical),
                    EntryKind::Other => ResolvedTarget::Missing,
                }
            }
        },
    }
}

} // verus!
