//! Which files answer a request for a page: the platform's own page before
//! the common one, and the user's custom page after either.

use crate::cache::Cache;
use crate::error::TealdeerError;
use crate::paths::{page_tree_file, path_views, PagePath};
use crate::text::{optional_text, page_file, page_filename};
use crate::types::OsType;
use vstd::prelude::*;

verus! {

/// The three places where the page of one name may lie.
#[derive(Debug, PartialEq, Eq)]
pub struct PageCandidates {
    /// In the platform's directory, if the platform has one.
    pub platform: Option<PagePath>,
    /// In the directory of common pages.
    pub common: PagePath,
    /// In the directory of custom pages.
    pub custom: PagePath,
}

/// The places of a [`PageCandidates`], as segments of characters.
pub struct CandidatesView {
    pub platform: Option<Seq<Seq<char>>>,
    pub common: Seq<Seq<char>>,
    pub custom: Seq<Seq<char>>,
}

impl View for PageCandidates {
    type V = CandidatesView;

    open spec fn view(&self) -> CandidatesView {
        CandidatesView {
            platform: match self.platform {
                Some(p) => Some(p@),
                None => None,
            },
            common: self.common@,
            custom: self.custom@,
        }
    }
}

/// At which of the three places a regular file was found.
#[derive(Clone, Copy, Debug, PartialEq, Eq, Structural)]
pub struct PagePresence {
    pub platform: bool,
    pub common: bool,
    pub custom: bool,
}

/// The directory of custom pages, as joined onto the page tree: the one
/// configured, or else a sibling of the page tree.
pub open spec fn custom_dir_or_default(custom_dir: Option<Seq<char>>) -> Seq<char> {
    match custom_dir {
        Some(d) => d,
        None => "../pages.custom"@,
    }
}

/// Where the page `name` may lie for the platform `os`.
pub open spec fn candidates(
    os: OsType,
    name: Seq<char>,
    custom_dir: Option<Seq<char>>,
) -> CandidatesView {
    CandidatesView {
        platform: match os.dir_name() {
            Some(d) => Some(page_tree_file(d, page_file(name))),
            None => None,
        },
        common: page_tree_file("common"@, page_file(name)),
        custom: page_tree_file(custom_dir_or_default(custom_dir), page_file(name)),
    }
}

/// Whether the platform has a page of its own for the name.
pub open spec fn platform_hit(c: CandidatesView, seen: PagePresence) -> bool {
    c.platform is Some && seen.platform
}

/// The page that answers first: the platform's own, or else the common one.
pub open spec fn primary_page(c: CandidatesView, seen: PagePresence) -> Option<Seq<Seq<char>>> {
    if platform_hit(c, seen) {
        c.platform
    } else if seen.common {
        Some(c.common)
    } else {
        None
    }
}

/// The files to render for a request, in order, or `None` where there is
/// none: the primary page if there is one, then the custom page if there is
/// one.
pub open spec fn lookup(c: CandidatesView, seen: PagePresence) -> Option<Seq<Seq<Seq<char>>>> {
    match (primary_page(c, seen), seen.custom) {
        (Some(p), true) => Some(seq![p, c.custom]),
        (Some(p), false) => Some(seq![p]),
        (None, true) => Some(seq![c.custom]),
        (None, false) => None,
    }
}

/// The views of the files of a lookup's result.
pub open spec fn lookup_view(r: Option<Vec<PagePath>>) -> Option<Seq<Seq<Seq<char>>>> {
    match r {
        Some(v) => Some(path_views(v@)),
        None => None,
    }
}

/// The result of a lookup, row by row: a platform page is followed only by
/// the custom page; without one, the common page takes its place; and the
/// custom page alone answers where neither exists.
pub proof fn lemma_lookup_table(c: CandidatesView, seen: PagePresence)
    ensures
        platform_hit(c, seen) && seen.custom ==> lookup(c, seen) == Some(
            seq![c.platform->0, c.custom],
        ),
        platform_hit(c, seen) && !seen.custom ==> lookup(c, seen) == Some(seq![c.platform->0]),
        !platform_hit(c, seen) && seen.common && seen.custom ==> lookup(c, seen) == Some(
            seq![c.common, c.custom],
        ),
        !platform_hit(c, seen) && seen.common && !seen.custom ==> lookup(c, seen) == Some(
            seq![c.common],
        ),
        !platform_hit(c, seen) && !seen.common && seen.custom ==> lookup(c, seen) == Some(
            seq![c.custom],
        ),
        !platform_hit(c, seen) && !seen.common && !seen.custom ==> lookup(c, seen) is None,
{
}

/// A lookup finds nothing exactly when the page is at none of the three
/// places, and what it finds is never empty.
pub proof fn lemma_lookup_none_iff_all_miss(c: CandidatesView, seen: PagePresence)
    ensures
        lookup(c, seen) is None <==> !platform_hit(c, seen) && !seen.common && !seen.custom,
        lookup(c, seen) is Some ==> 1 <= lookup(c, seen)->0.len() <= 2,
{
}

/// The platform's page supersedes the common one: where the platform has the
/// page, the common page is not among the files found, provided the custom
/// directory is not the common directory itself.
pub proof fn lemma_platform_supersedes_common(
    os: OsType,
    name: Seq<char>,
    custom_dir: Option<Seq<char>>,
    seen: PagePresence,
)
    requires
        custom_dir_or_default(custom_dir) != "common"@,
        platform_hit(candidates(os, name, custom_dir), seen),
    ensures
        lookup(candidates(os, name, custom_dir), seen) is Some,
        !lookup(candidates(os, name, custom_dir), seen)->0.contains(
            candidates(os, name, custom_dir).common,
        ),
{
    let c = candidates(os, name, custom_dir);
    let found = lookup(c, seen)->0;
    reveal_strlit("common");
    reveal_strlit("linux");
    reveal_strlit("osx");
    reveal_strlit("windows");
    assert(os.dir_name()->0 != "common"@) by {
        assert("common"@.len() == 6);
        assert("common"@[0] == 'c');
    }
    assert(c.platform->0[2] == os.dir_name()->0);
    assert(c.common[2] == "common"@);
    assert(c.custom[2] == custom_dir_or_default(custom_dir));
    assert(c.platform->0 != c.common);
    assert(c.custom != c.common);
    assert forall|i: int| 0 <= i < found.len() implies found[i] != c.common by {
    }
}

/// The custom page is always added: where it exists it is the last of the
/// files found, whatever else was found.
pub proof fn lemma_custom_is_additive(c: CandidatesView, seen: PagePresence)
    requires
        seen.custom,
    ensures
        lookup(c, seen) is Some,
        lookup(c, seen)->0.last() == c.custom,
        primary_page(c, seen) is Some ==> lookup(c, seen)->0 == seq![
            primary_page(c, seen)->0,
            c.custom,
        ],
{
}

impl Cache {
    /// The three places where the page `name` may lie. `custom_dir` is the
    /// configured directory of custom pages, if one is configured.
    pub fn page_candidates(&self, name: &str, custom_dir: Option<&str>) -> (c: PageCandidates)
        ensures
            c@ == candidates(self@.os, name@, optional_text(custom_dir)),
    {
        let file = page_filename(name);
        let platform = match self.get_platform_dir() {
            Some(dir) => Some(PagePath::in_page_tree(dir, file.as_str())),
            None => None,
        };
        let common = PagePath::in_page_tree("common", file.as_str());
        let custom = match custom_dir {
            Some(dir) => PagePath::in_page_tree(dir, file.as_str()),
            None => PagePath::in_page_tree("../pages.custom", file.as_str()),
        };
        PageCandidates { platform, common, custom }
    }

    /// The files to render for the page `name`, in order.
    ///
    /// `cache_dir` is the outcome of locating the cache, and `seen` says at
    /// which of the [`Cache::page_candidates`] a regular file exists. Without
    /// a cache nothing is found; with one, the result is [`lookup`].
    pub fn find_pages<P>(
        &self,
        name: &str,
        cache_dir: &Result<P, TealdeerError>,
        custom_dir: Option<&str>,
        seen: PagePresence,
    ) -> (found: Option<Vec<PagePath>>)
        ensures
            cache_dir is Err ==> found is None,
            cache_dir is Ok ==> lookup_view(found) == lookup(
                candidates(self@.os, name@, optional_text(custom_dir)),
                seen,
            ),
            found is None <==> cache_dir is Err || (!platform_hit(
                candidates(self@.os, name@, optional_text(custom_dir)),
                seen,
            ) && !seen.common && !seen.custom),
    {
        if cache_dir.is_err() {
            return None;
        }
        let c = self.page_candidates(name, custom_dir);
        let primary = match c.platform {
            Some(p) if seen.platform => Some(p),
            _ => if seen.common {
                Some(c.common)
            } else {
                None
            },
        };
        let mut pages: Vec<PagePath> = Vec::new();
        if let Some(p) = primary {
            pages.push(p);
        }
        if seen.custom {
            pages.push(c.custom);
        }
        if pages.len() == 0 {
            None
        } else {
            assert(path_views(pages@) =~= lookup(c@, seen)->0);
            Some(pages)
        }
    }
}

} // verus!
