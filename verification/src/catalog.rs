//! The catalog of pages: the names of the pages that a walk of the page tree
//! reaches, each once, in order.

use crate::cache::Cache;
use crate::error::TealdeerError;
use crate::paths::texts;
use crate::text::{
    lemma_name_lt_irreflexive, lemma_name_lt_total, lemma_name_lt_transitive, name_lt,
    optional_text, page_name, page_stem, str_eq, str_lt,
};
use crate::types::OsType;
use vstd::prelude::*;

verus! {

/// What kind of thing an entry of the page tree is.
#[derive(Clone, Copy, Debug, PartialEq, Eq, Structural)]
pub enum EntryKind {
    Directory,
    File,
    /// Neither a directory nor a regular file.
    Other,
}

/// One entry below the root of the page tree.
#[derive(Debug, PartialEq, Eq)]
pub struct WalkEntry {
    /// The names of the directories that lead from the root of the page tree
    /// to the entry, outermost first.
    pub parents: Vec<String>,
    /// The entry's own name, or `None` where it is not text.
    pub file_name: Option<String>,
    pub kind: EntryKind,
}

/// A [`WalkEntry`], its names as characters.
pub struct WalkEntryView {
    pub parents: Seq<Seq<char>>,
    pub file_name: Option<Seq<char>>,
    pub kind: EntryKind,
}

impl View for WalkEntry {
    type V = WalkEntryView;

    open spec fn view(&self) -> WalkEntryView {
        WalkEntryView {
            parents: texts(self.parents@),
            file_name: match self.file_name {
                Some(n) => Some(n@),
                None => None,
            },
            kind: self.kind,
        }
    }
}

/// Whether a walk for the platform `os` descends into a directory of this
/// name: only into the common pages and into the platform's own.
pub open spec fn walkable_dir(name: Seq<char>, os: OsType) -> bool {
    name == "common"@ || os.dir_name() == Some(name)
}

/// Whether a walk for the platform `os` keeps an entry of this name and
/// kind: a directory if it descends into it, every regular file, and nothing
/// else.
pub open spec fn walks(file_name: Option<Seq<char>>, kind: EntryKind, os: OsType) -> bool {
    match file_name {
        None => false,
        Some(n) => match kind {
            EntryKind::Directory => walkable_dir(n, os),
            EntryKind::File => true,
            EntryKind::Other => false,
        },
    }
}

/// Whether the entry lies within the directories that a walk for the
/// platform `os` descends into: it lies in a directory, and the walk
/// descends into every directory on the way to it.
pub open spec fn reached(e: WalkEntryView, os: OsType) -> bool {
    &&& e.parents.len() > 0
    &&& forall|i: int| 0 <= i < e.parents.len() ==> walkable_dir(#[trigger] e.parents[i], os)
}

/// The page that the entry adds to the catalog of the platform `os`: that of
/// a page file within the directories that the walk descends into.
pub open spec fn listed_page(e: WalkEntryView, os: OsType) -> Option<Seq<char>> {
    if e.kind == EntryKind::File && e.file_name is Some && reached(e, os) {
        page_stem(e.file_name->0)
    } else {
        None
    }
}

/// Each name comes before all that follow it.
pub open spec fn sorted_names(names: Seq<Seq<char>>) -> bool {
    forall|i: int, j: int| 0 <= i < j < names.len() ==> name_lt(names[i], names[j])
}

/// Whether `names` is the catalog of `entries` for the platform `os`: the
/// pages that the entries add, in ascending order. There is one such
/// sequence.
pub open spec fn is_catalog(names: Seq<Seq<char>>, entries: Seq<WalkEntry>, os: OsType) -> bool {
    &&& sorted_names(names)
    &&& forall|s: Seq<char>|
        names.contains(s) <==> exists|i: int|
            0 <= i < entries.len() && listed_page(#[trigger] entries[i]@, os) == Some(s)
}

/// A sorted sequence of names holds no name twice.
pub proof fn lemma_sorted_names_distinct(names: Seq<Seq<char>>)
    requires
        sorted_names(names),
    ensures
        names.no_duplicates(),
{
    assert forall|i: int, j: int| 0 <= i < names.len() && 0 <= j < names.len() && i != j implies
        names[i] != names[j] by {
        lemma_name_lt_irreflexive(names[i]);
        if i < j {
            assert(name_lt(names[i], names[j]));
        } else {
            assert(name_lt(names[j], names[i]));
        }
    }
}

/// Two sorted sequences that hold the same names are the same sequence.
pub proof fn lemma_sorted_names_unique(a: Seq<Seq<char>>, b: Seq<Seq<char>>)
    requires
        sorted_names(a),
        sorted_names(b),
        forall|s: Seq<char>| a.contains(s) <==> b.contains(s),
    ensures
        a == b,
    decreases a.len(),
{
    if a.len() == 0 {
        if b.len() > 0 {
            assert(b.contains(b[0]));
        }
        assert(a =~= b);
    } else if b.len() == 0 {
        assert(a.contains(a[0]));
    } else {
        // The first names agree: each is the least of its sequence.
        assert(a.contains(a[0]));
        assert(b.contains(b[0]));
        let i = choose|i: int| 0 <= i < b.len() && b[i] == a[0];
        let j = choose|j: int| 0 <= j < a.len() && a[j] == b[0];
        if i > 0 && j > 0 {
            assert(name_lt(b[0], b[i]));
            assert(name_lt(a[0], a[j]));
            lemma_name_lt_transitive(a[0], b[0], a[0]);
        }
        lemma_name_lt_irreflexive(a[0]);
        assert(a[0] == b[0]);
        let ta = a.drop_first();
        let tb = b.drop_first();
        assert forall|s: Seq<char>| ta.contains(s) <==> tb.contains(s) by {
            if ta.contains(s) {
                let k = choose|k: int| 0 <= k < ta.len() && ta[k] == s;
                assert(a[k + 1] == s);
                assert(name_lt(a[0], a[k + 1]));
                assert(a.contains(s));
                let m = choose|m: int| 0 <= m < b.len() && b[m] == s;
                assert(m != 0);
                assert(tb[m - 1] == s);
            }
            if tb.contains(s) {
                let k = choose|k: int| 0 <= k < tb.len() && tb[k] == s;
                assert(b[k + 1] == s);
                assert(name_lt(b[0], b[k + 1]));
                assert(b.contains(s));
                let m = choose|m: int| 0 <= m < a.len() && a[m] == s;
                assert(m != 0);
                assert(ta[m - 1] == s);
            }
        }
        assert(sorted_names(ta)) by {
            assert forall|x: int, y: int| 0 <= x < y < ta.len() implies name_lt(ta[x], ta[y]) by {
                assert(name_lt(a[x + 1], a[y + 1]));
            }
        }
        assert(sorted_names(tb)) by {
            assert forall|x: int, y: int| 0 <= x < y < tb.len() implies name_lt(tb[x], tb[y]) by {
                assert(name_lt(b[x + 1], b[y + 1]));
            }
        }
        lemma_sorted_names_unique(ta, tb);
        assert(a =~= seq![a[0]] + ta);
        assert(b =~= seq![b[0]] + tb);
    }
}

/// Where the walk finds nothing, as before the first update, the catalog is
/// empty.
pub proof fn lemma_catalog_of_nothing(names: Seq<Seq<char>>, os: OsType)
    requires
        is_catalog(names, Seq::empty(), os),
    ensures
        names.len() == 0,
{
    if names.len() > 0 {
        assert(names.contains(names[0]));
    }
}

/// An entry below a directory that the walk does not descend into adds no
/// page, whatever its name, and neither does one that lies in no directory
/// of the page tree.
pub proof fn lemma_pruned_entry_lists_nothing(e: WalkEntryView, os: OsType, i: int)
    requires
        e.parents.len() == 0 || (0 <= i < e.parents.len() && !walkable_dir(e.parents[i], os)),
    ensures
        listed_page(e, os) is None,
{
}

/// Every page of a catalog is that of a page file that lies in the common
/// directory or in the platform's own: the directory that holds the file
/// has one of these two names.
pub proof fn lemma_catalog_pages_lie_in_walked_dirs(
    names: Seq<Seq<char>>,
    entries: Seq<WalkEntry>,
    os: OsType,
    s: Seq<char>,
) -> (i: int)
    requires
        is_catalog(names, entries, os),
        names.contains(s),
    ensures
        0 <= i < entries.len(),
        entries[i]@.kind == EntryKind::File,
        entries[i]@.file_name is Some,
        page_stem(entries[i]@.file_name->0) == Some(s),
        entries[i]@.parents.len() > 0,
        walkable_dir(entries[i]@.parents.last(), os),
{
    let i = choose|i: int|
        0 <= i < entries.len() && listed_page(#[trigger] entries[i]@, os) == Some(s);
    let e = entries[i]@;
    assert(walkable_dir(e.parents[e.parents.len() - 1], os));
    i
}

/// Adds `name` to a sorted sequence of names, unless it is there already.
fn insert_name(names: &mut Vec<String>, name: String)
    requires
        sorted_names(texts(old(names)@)),
    ensures
        sorted_names(texts(final(names)@)),
        forall|s: Seq<char>|
            texts(final(names)@).contains(s) <==> (texts(old(names)@).contains(s) || s == name@),
{
    let ghost before = texts(names@);
    let mut lo: usize = 0;
    let mut hi: usize = names.len();
    while lo < hi
        invariant
            lo <= hi <= names.len(),
            texts(names@) == before,
            sorted_names(before),
            forall|k: int| 0 <= k < lo ==> name_lt(before[k], name@),
            forall|k: int| hi <= k < before.len() ==> !name_lt(before[k], name@),
        decreases hi - lo,
    {
        let mid = lo + (hi - lo) / 2;
        assert(before[mid as int] == names[mid as int]@);
        if str_lt(names[mid].as_str(), name.as_str()) {
            assert forall|k: int| 0 <= k < mid + 1 implies name_lt(before[k], name@) by {
                if k < mid {
                    lemma_name_lt_transitive(before[k], before[mid as int], name@);
                }
            }
            lo = mid + 1;
        } else {
            assert forall|k: int| mid <= k < before.len() implies !name_lt(before[k], name@) by {
                if k > mid && name_lt(before[k], name@) {
                    lemma_name_lt_transitive(before[mid as int], before[k], name@);
                }
            }
            hi = mid;
        }
    }
    let present = lo < names.len() && !str_lt(name.as_str(), names[lo].as_str());
    if present {
        proof {
            assert(before[lo as int] == names[lo as int]@);
            lemma_name_lt_total(before[lo as int], name@);
            assert(before.contains(name@));
        }
    } else {
        let ghost text = name@;
        names.insert(lo, name);
        proof {
            let after = texts(names@);
            assert(after =~= before.insert(lo as int, text));
            assert forall|k: int| lo <= k < before.len() implies name_lt(text, before[k]) by {
                assert(name_lt(text, before[lo as int]));
                if k > lo {
                    lemma_name_lt_transitive(text, before[lo as int], before[k]);
                }
            }
            assert forall|i: int, j: int| 0 <= i < j < after.len() implies name_lt(
                after[i],
                after[j],
            ) by {
                if j < lo {
                    assert(after[i] == before[i] && after[j] == before[j]);
                } else if j == lo {
                    assert(after[i] == before[i]);
                } else if i < lo {
                    assert(after[i] == before[i] && after[j] == before[j - 1]);
                    if j - 1 == i {
                    }
                } else if i == lo {
                    assert(after[j] == before[j - 1]);
                } else {
                    assert(after[i] == before[i - 1] && after[j] == before[j - 1]);
                }
            }
            assert forall|s: Seq<char>| after.contains(s) <==> (before.contains(s) || s
                == text) by {
                if after.contains(s) {
                    let k = choose|k: int| 0 <= k < after.len() && after[k] == s;
                    if k < lo {
                        assert(before[k] == s);
                    } else if k > lo {
                        assert(before[k - 1] == s);
                    }
                }
                if before.contains(s) {
                    let k = choose|k: int| 0 <= k < before.len() && before[k] == s;
                    if k < lo {
                        assert(after[k] == s);
                    } else {
                        assert(after[k + 1] == s);
                    }
                }
                if s == text {
                    assert(after[lo as int] == s);
                }
            }
        }
    }
}

impl Cache {
    /// Whether a walk descends into a directory of this name.
    fn walks_into(&self, name: &str) -> (r: bool)
        ensures
            r == walkable_dir(name@, self@.os),
    {
        if str_eq(name, "common") {
            return true;
        }
        match self.get_platform_dir() {
            Some(platform) => str_eq(name, platform),
            None => false,
        }
    }

    /// Whether a walk of the page tree keeps an entry of this name and kind.
    /// To refuse a directory is to leave out all that lies below it.
    pub fn should_walk(&self, file_name: Option<&str>, kind: EntryKind) -> (r: bool)
        ensures
            r == walks(optional_text(file_name), kind, self@.os),
    {
        match file_name {
            None => false,
            Some(name) => match kind {
                EntryKind::Directory => self.walks_into(name),
                EntryKind::File => true,
                EntryKind::Other => false,
            },
        }
    }

    /// The page that the entry adds to the catalog, if it adds one.
    pub fn entry_page(&self, entry: &WalkEntry) -> (r: Option<String>)
        ensures
            r is Some == listed_page(entry@, self@.os) is Some,
            r is Some ==> Some(r->0@) == listed_page(entry@, self@.os),
    {
        let name = match (&entry.file_name, entry.kind) {
            (Some(name), EntryKind::File) => name,
            _ => {
                return None;
            },
        };
        if entry.parents.len() == 0 {
            return None;
        }
        let mut i: usize = 0;
        while i < entry.parents.len()
            invariant
                i <= entry.parents.len(),
                forall|k: int| 0 <= k < i ==> walkable_dir(#[trigger] entry@.parents[k], self@.os),
            decreases entry.parents.len() - i,
        {
            assert(entry@.parents[i as int] == entry.parents[i as int]@);
            if !self.walks_into(entry.parents[i].as_str()) {
                return None;
            }
            i += 1;
        }
        page_name(name.as_str())
    }

    /// The names of the pages that exist for the platform, each once, in
    /// ascending order.
    ///
    /// `cache_dir` is the outcome of locating the cache, whose failure is
    /// handed on; `entries` are the entries found below the root of the page
    /// tree, none where there is no page tree.
    pub fn list_pages<P>(
        &self,
        cache_dir: Result<P, TealdeerError>,
        entries: &Vec<WalkEntry>,
    ) -> (r: Result<Vec<String>, TealdeerError>)
        ensures
            cache_dir is Err ==> r is Err && r->Err_0 == cache_dir->Err_0,
            cache_dir is Ok ==> r is Ok && is_catalog(texts(r->Ok_0@), entries@, self@.os),
            r is Ok ==> texts(r->Ok_0@).no_duplicates(),
    {
        if let Err(e) = cache_dir {
            return Err(e);
        }
        let mut pages: Vec<String> = Vec::new();
        let mut i: usize = 0;
        while i < entries.len()
            invariant
                i <= entries.len(),
                sorted_names(texts(pages@)),
                forall|s: Seq<char>|
                    texts(pages@).contains(s) <==> exists|k: int|
                        0 <= k < i && listed_page(#[trigger] entries[k]@, self@.os) == Some(s),
            decreases entries.len() - i,
        {
            let ghost before = texts(pages@);
            if let Some(name) = self.entry_page(&entries[i]) {
                insert_name(&mut pages, name);
            }
            proof {
                let after = texts(pages@);
                let os = self@.os;
                assert forall|s: Seq<char>|
                    after.contains(s) <==> exists|k: int|
                        0 <= k < i + 1 && listed_page(#[trigger] entries[k]@, os) == Some(
                            s,
                        ) by {
                    if after.contains(s) {
                        if before.contains(s) {
                            let k = choose|k: int|
                                0 <= k < i && listed_page(#[trigger] entries[k]@, os) == Some(s);
                            assert(0 <= k < i + 1 && listed_page(entries[k]@, os) == Some(s));
                        } else {
                            assert(listed_page(entries[i as int]@, os) == Some(s));
                        }
                    }
                    if exists|k: int|
                        0 <= k < i + 1 && listed_page(#[trigger] entries[k]@, os) == Some(s) {
                        let k = choose|k: int|
                            0 <= k < i + 1 && listed_page(#[trigger] entries[k]@, os) == Some(s);
                        if k < i {
                            assert(before.contains(s));
                        }
                    }
                }
            }
            i += 1;
        }
        proof {
            lemma_sorted_names_distinct(texts(pages@));
        }
        Ok(pages)
    }
}

} // verus!
