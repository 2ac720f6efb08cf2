//! Places inside the cache, written as the segments that lead to them.

use vstd::prelude::*;

verus! {

/// The characters of each string of a sequence.
pub open spec fn texts(v: Seq<String>) -> Seq<Seq<char>> {
    Seq::new(v.len(), |i: int| v[i]@)
}

/// A place below the cache root: the segments to join onto the root, in
/// order. A segment is one name, or a path of its own where the user
/// configured one.
#[derive(Debug, PartialEq, Eq)]
pub struct PagePath {
    pub segments: Vec<String>,
}

impl View for PagePath {
    type V = Seq<Seq<char>>;

    open spec fn view(&self) -> Seq<Seq<char>> {
        texts(self.segments@)
    }
}

impl Clone for PagePath {
    fn clone(&self) -> (r: Self)
        ensures
            r@ == self@,
    {
        let mut segments: Vec<String> = Vec::new();
        let mut i: usize = 0;
        while i < self.segments.len()
            invariant
                i <= self.segments.len(),
                segments.len() == i,
                forall|k: int| 0 <= k < i ==> segments[k]@ == self.segments[k]@,
            decreases self.segments.len() - i,
        {
            segments.push(self.segments[i].clone());
            i += 1;
        }
        let r = PagePath { segments };
        assert(r@ =~= self@);
        r
    }
}

/// The views of the paths of a sequence.
pub open spec fn path_views(v: Seq<PagePath>) -> Seq<Seq<Seq<char>>> {
    Seq::new(v.len(), |i: int| v[i]@)
}

/// The directory that the archive unpacks to, directly below the cache root.
pub open spec fn archive_root() -> Seq<Seq<char>> {
    seq!["tldr-master"@]
}

/// The page tree: one directory per platform, and one of common pages.
pub open spec fn page_tree() -> Seq<Seq<char>> {
    seq!["tldr-master"@, "pages"@]
}

/// The file `file` in the directory `dir` of the page tree.
pub open spec fn page_tree_file(dir: Seq<char>, file: Seq<char>) -> Seq<Seq<char>> {
    seq!["tldr-master"@, "pages"@, dir, file]
}

impl PagePath {
    /// The directory that the archive unpacks to.
    pub fn archive_root() -> (p: PagePath)
        ensures
            p@ == archive_root(),
    {
        let mut segments: Vec<String> = Vec::new();
        segments.push("tldr-master".to_owned());
        let p = PagePath { segments };
        assert(p@ =~= archive_root());
        p
    }

    /// The root of the page tree.
    pub fn page_tree() -> (p: PagePath)
        ensures
            p@ == page_tree(),
    {
        let mut segments: Vec<String> = Vec::new();
        segments.push("tldr-master".to_owned());
        segments.push("pages".to_owned());
        let p = PagePath { segments };
        assert(p@ =~= page_tree());
        p
    }

    /// The file `file` in the directory `dir` of the page tree.
    pub fn in_page_tree(dir: &str, file: &str) -> (p: PagePath)
        ensures
            p@ == page_tree_file(dir@, file@),
    {
        let mut segments: Vec<String> = Vec::new();
        segments.push("tldr-master".to_owned());
        segments.push("pages".to_owned());
        segments.push(dir.to_owned());
        segments.push(file.to_owned());
        let p = PagePath { segments };
        assert(p@ =~= page_tree_file(dir@, file@));
        p
    }
}

} // verus!
