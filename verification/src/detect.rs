//! Finding the main executable among the files an archive was unpacked into.

use vstd::prelude::*;
use crate::text::{texts, to_lowercase, contains_text, ends_with, has_sub, has_suffix, lowercase_spec};

verus! {

/// Whether a lowercased file name names a helper rather than the app itself:
/// an updater or an uninstaller.
pub open spec fn is_helper_name(lower: Seq<char>) -> bool {
    has_sub(lower, "update"@) || has_sub(lower, "uninstall"@)
}

/// Whether a file name has the extension `exe` (`Path::extension`): it ends
/// in `.exe` and something comes before that dot.
pub open spec fn is_exe_name(name: Seq<char>) -> bool {
    has_suffix(name, ".exe"@) && name.len() > 4
}

/// Whether a file name has the extension `exe`.
pub fn has_exe_extension(name: &str) -> (r: bool)
    ensures
        r == is_exe_name(name@),
{
    ends_with(name, ".exe") && name.unicode_len() > 4
}

/// Whether an executable file found in an unpacked tarball is taken as the
/// app: some execute permission bit is set, and its lowercased name is not an
/// updater, an uninstaller or a shell script.
pub open spec fn is_unix_app_binary(name: Seq<char>, mode: u32) -> bool {
    mode & 0o111u32 != 0 && !is_helper_name(lowercase_spec(name)) && !has_suffix(lowercase_spec(name), ".sh"@)
}

/// Whether an executable file found in an unpacked tarball is taken as the app.
pub fn unix_app_binary(name: &str, mode: u32) -> (r: bool)
    ensures
        r == is_unix_app_binary(name@, mode),
{
    if mode & 0o111u32 == 0 {
        return false;
    }
    let lower = to_lowercase(name);
    !contains_text(lower.as_str(), "update") && !contains_text(lower.as_str(), "uninstall") && !ends_with(lower.as_str(), ".sh")
}

/// One entry of a directory listing.
pub struct DirEntryInfo {
    pub name: String,
    pub is_file: bool,
    pub is_dir: bool,
}

/// Where the executable of a portable app was found.
#[derive(PartialEq, Eq, Structural)]
pub enum ExePick {
    /// The entry of the top directory with this index.
    Top(usize),
    /// The entry with the second index in the listing of the top-level directory with the first index.
    Nested(usize, usize),
}

/// An entry of the top directory taken as the app: an `.exe` file that is
/// not an updater or an uninstaller.
pub open spec fn top_candidate(e: DirEntryInfo) -> bool {
    e.is_file && is_exe_name(e.name@) && !is_helper_name(lowercase_spec(e.name@))
}

/// An entry of a subdirectory taken as the app: any `.exe` file.
pub open spec fn nested_candidate(e: DirEntryInfo) -> bool {
    e.is_file && is_exe_name(e.name@)
}

/// The listing of the `i`th top-level entry (empty when there is none).
pub open spec fn listing_of(children: Seq<Vec<DirEntryInfo>>, i: int) -> Seq<DirEntryInfo> {
    if 0 <= i < children.len() { children[i]@ } else { Seq::empty() }
}

/// A top-level directory holding an `.exe` file.
pub open spec fn dir_with_exe(top: Seq<DirEntryInfo>, children: Seq<Vec<DirEntryInfo>>, i: int) -> bool {
    0 <= i < top.len() && top[i].is_dir
        && exists|j: int| 0 <= j < listing_of(children, i).len() && nested_candidate(#[trigger] listing_of(children, i)[j])
}

/// The executable of an unpacked portable app: the first qualifying entry of
/// the top directory; failing that, the first `.exe` file of the first
/// top-level directory that has one. `children[i]` lists the `i`th top-level
/// entry when it is a directory.
pub fn pick_portable_exe(top: &Vec<DirEntryInfo>, children: &Vec<Vec<DirEntryInfo>>) -> (r: Option<ExePick>)
    ensures
        match r {
            Some(ExePick::Top(i)) => {
                &&& i < top@.len() && top_candidate(top@[i as int])
                &&& forall|k: int| 0 <= k < i ==> !top_candidate(#[trigger] top@[k])
            },
            Some(ExePick::Nested(i, j)) => {
                &&& forall|k: int| 0 <= k < top@.len() ==> !top_candidate(#[trigger] top@[k])
                &&& i < top@.len() && top@[i as int].is_dir
                &&& j < listing_of(children@, i as int).len() && nested_candidate(listing_of(children@, i as int)[j as int])
                &&& forall|k: int| 0 <= k < i ==> !dir_with_exe(top@, children@, k)
                &&& forall|k: int| 0 <= k < j ==> !nested_candidate(#[trigger] listing_of(children@, i as int)[k])
            },
            None => {
                &&& forall|k: int| 0 <= k < top@.len() ==> !top_candidate(#[trigger] top@[k])
                &&& forall|k: int| 0 <= k < top@.len() ==> !dir_with_exe(top@, children@, k)
            },
        },
{
    let mut i: usize = 0;
    while i < top.len()
        invariant
            i <= top@.len(),
            forall|k: int| 0 <= k < i ==> !top_candidate(#[trigger] top@[k]),
        decreases top.len() - i,
    {
        let e = &top[i];
        if e.is_file && has_exe_extension(e.name.as_str()) {
            let lower = to_lowercase(e.name.as_str());
            if !contains_text(lower.as_str(), "update") && !contains_text(lower.as_str(), "uninstall") {
                return Some(ExePick::Top(i));
            }
        }
        i = i + 1;
    }
    let mut i: usize = 0;
    while i < top.len()
        invariant
            i <= top@.len(),
            forall|k: int| 0 <= k < top@.len() ==> !top_candidate(#[trigger] top@[k]),
            forall|k: int| 0 <= k < i ==> !dir_with_exe(top@, children@, k),
        decreases top.len() - i,
    {
        if top[i].is_dir && i < children.len() {
            let list = &children[i];
            let mut j: usize = 0;
            while j < list.len()
                invariant
                    i < top@.len(),
                    i < children@.len(),
                    *list == children@[i as int],
                    j <= list@.len(),
                    forall|k: int| 0 <= k < j ==> !nested_candidate(#[trigger] list@[k]),
                    top@[i as int].is_dir,
                    forall|k: int| 0 <= k < top@.len() ==> !top_candidate(#[trigger] top@[k]),
                    forall|k: int| 0 <= k < i ==> !dir_with_exe(top@, children@, k),
                decreases list.len() - j,
            {
                if list[j].is_file && has_exe_extension(list[j].name.as_str()) {
                    assert(listing_of(children@, i as int) == list@);
                    return Some(ExePick::Nested(i, j));
                }
                j = j + 1;
            }
            assert(!dir_with_exe(top@, children@, i as int)) by {
                assert(listing_of(children@, i as int) == list@);
            }
        } else {
            assert(!dir_with_exe(top@, children@, i as int)) by {
                if top@[i as int].is_dir {
                    assert(listing_of(children@, i as int) =~= Seq::<DirEntryInfo>::empty());
                }
            }
        }
        i = i + 1;
    }
    None
}


/// A file or directory of an unpacked archive.
pub enum FsNode {
    /// A regular file with its permission bits.
    File { name: String, mode: u32 },
    /// A directory with its entries in listing order.
    Dir { name: String, children: Vec<FsNode> },
    /// Anything else (or an entry whose details could not be read).
    Other,
}

/// The path (by names) to the first app binary among `nodes`, searching
/// depth first in listing order.
pub open spec fn first_binary(nodes: Seq<FsNode>) -> Option<Seq<Seq<char>>>
    decreases nodes, 1int,
{
    if nodes.len() == 0 {
        None
    } else {
        match first_binary_in(nodes[0]) {
            Some(p) => Some(p),
            None => first_binary(nodes.drop_first()),
        }
    }
}

/// The path (by names) to the first app binary in `node`.
pub open spec fn first_binary_in(node: FsNode) -> Option<Seq<Seq<char>>>
    decreases node, 0int,
{
    match node {
        FsNode::File { name, mode } => if is_unix_app_binary(name@, mode) { Some(seq![name@]) } else { None },
        FsNode::Dir { name, children } => match first_binary(children@) {
            Some(p) => Some(seq![name@] + p),
            None => None,
        },
        FsNode::Other => None,
    }
}


/// The path (by names) to the first app binary among `nodes`, searching
/// depth first in listing order.
pub fn find_app_binary(nodes: &Vec<FsNode>) -> (r: Option<Vec<String>>)
    ensures
        match r {
            Some(p) => first_binary(nodes@) == Some(texts(p@)),
            None => first_binary(nodes@) is None,
        },
    decreases nodes@, 1int,
{
    let mut i: usize = 0;
    assert(nodes@.subrange(0, nodes@.len() as int) =~= nodes@);
    while i < nodes.len()
        invariant
            i <= nodes@.len(),
            first_binary(nodes@) == first_binary(nodes@.subrange(i as int, nodes@.len() as int)),
        decreases nodes.len() - i,
    {
        let ghost rest = nodes@.subrange(i as int, nodes@.len() as int);
        assert(rest[0] == nodes@[i as int]);
        assert(rest.drop_first() =~= nodes@.subrange(i + 1, nodes@.len() as int));
        match find_in_node(&nodes[i]) {
            Some(p) => {
                return Some(p);
            },
            None => {},
        }
        i = i + 1;
    }
    assert(nodes@.subrange(i as int, nodes@.len() as int) =~= Seq::<FsNode>::empty());
    None
}

fn find_in_node(node: &FsNode) -> (r: Option<Vec<String>>)
    ensures
        match r {
            Some(p) => first_binary_in(*node) == Some(texts(p@)),
            None => first_binary_in(*node) is None,
        },
    decreases *node, 0int,
{
    match node {
        FsNode::File { name, mode } => {
            if unix_app_binary(name.as_str(), *mode) {
                let v = vec![name.clone()];
                assert(texts(v@) =~= seq![name@]);
                Some(v)
            } else {
                None
            }
        },
        FsNode::Dir { name, children } => {
            match find_app_binary(children) {
                Some(p) => {
                    let mut v = vec![name.clone()];
                    let mut k: usize = 0;
                    while k < p.len()
                        invariant
                            k <= p@.len(),
                            texts(v@) == seq![name@] + texts(p@).subrange(0, k as int),
                        decreases p.len() - k,
                    {
                        let ghost before = v@;
                        v.push(p[k].clone());
                        assert(texts(v@) =~= texts(before).push(p@[k as int]@));
                        assert(texts(p@).subrange(0, k + 1) =~= texts(p@).subrange(0, k as int).push(p@[k as int]@));
                        k = k + 1;
                        assert(texts(v@) =~= seq![name@] + texts(p@).subrange(0, k as int));
                    }
                    assert(texts(p@).subrange(0, p@.len() as int) =~= texts(p@));
                    Some(v)
                },
                None => None,
            }
        },
        FsNode::Other => None,
    }
}

} // verus!
