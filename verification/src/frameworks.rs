//! Linker directives for the framework bundles found under a directory.
//!
//! The directory is walked elsewhere. Each entry that the walk found comes
//! here as a `PathEntry`, which holds the parts of the entry's path as plain
//! strings.

use vstd::prelude::*;
use vstd::string::StringExecFns;
use crate::text::str_equals;

verus! {

/// The parts of the path of one entry of a directory tree.
#[derive(Debug, Clone, PartialEq, Eq)]
pub struct PathEntry {
    /// The components of the path, from the root of the walk down.
    pub components: Vec<String>,
    /// The extension of the last component, without the dot.
    pub extension: Option<String>,
    /// The path without its last component.
    pub parent: Option<String>,
    /// The last component without its extension.
    pub stem: Option<String>,
}

/// A `PathEntry` as a value of sequences.
pub struct PathParts {
    pub components: Seq<Seq<char>>,
    pub extension: Option<Seq<char>>,
    pub parent: Option<Seq<char>>,
    pub stem: Option<Seq<char>>,
}

impl View for PathEntry {
    type V = PathParts;

    open spec fn view(&self) -> PathParts {
        PathParts {
            components: self.components.deep_view(),
            extension: self.extension.deep_view(),
            parent: self.parent.deep_view(),
            stem: self.stem.deep_view(),
        }
    }
}

/// The extension that marks a framework bundle.
pub open spec fn framework_extension() -> Seq<char> {
    "framework"@
}

/// The directive that adds `dir` to the framework search path.
pub open spec fn search_directive(dir: Seq<char>) -> Seq<char> {
    "link-search=framework="@ + dir
}

/// The directive that links the framework `name`.
pub open spec fn link_directive(name: Seq<char>) -> Seq<char> {
    "link-lib=framework="@ + name
}

impl PathParts {
    /// Some component of the path is one of the excluded names.
    pub open spec fn excluded(self, filters: Seq<Seq<char>>) -> bool {
        exists|i: int, j: int|
            0 <= i < self.components.len() && 0 <= j < filters.len() && self.components[i]
                == filters[j]
    }

    /// The path has the extension of a framework bundle.
    pub open spec fn is_framework(self) -> bool {
        self.extension == Some(framework_extension())
    }

    /// The entry is a framework bundle outside every excluded directory.
    pub open spec fn linked(self, filters: Seq<Seq<char>>) -> bool {
        !self.excluded(filters) && self.is_framework()
    }

    /// An entry that is linked has a parent and a stem to link it by.
    pub open spec fn linkable(self, filters: Seq<Seq<char>>) -> bool {
        self.linked(filters) ==> self.parent is Some && self.stem is Some
    }

    /// The directives of one entry: for a linked entry the search path
    /// directive of its parent, then the link directive of its stem; for any
    /// other entry none.
    pub open spec fn directives(self, filters: Seq<Seq<char>>) -> Seq<Seq<char>> {
        if self.linked(filters) {
            seq![search_directive(self.parent.unwrap()), link_directive(self.stem.unwrap())]
        } else {
            seq![]
        }
    }
}

/// The directives of all entries, entry by entry in the entries' order.
pub open spec fn link_directives(entries: Seq<PathParts>, filters: Seq<Seq<char>>) -> Seq<
    Seq<char>,
>
    decreases entries.len(),
{
    if entries.len() == 0 {
        seq![]
    } else {
        link_directives(entries.drop_last(), filters) + entries.last().directives(filters)
    }
}

/// The views of a sequence of entries.
pub open spec fn parts_of(entries: Seq<PathEntry>) -> Seq<PathParts> {
    Seq::new(entries.len(), |i: int| entries[i]@)
}

impl PathEntry {
    /// Whether some component of the path is one of `filters`.
    pub fn is_excluded(&self, filters: &[&str]) -> (excluded: bool)
        ensures
            excluded == self@.excluded(filters.deep_view()),
    {
        let mut i: usize = 0;
        while i < self.components.len()
            invariant
                i <= self.components.len(),
                forall|a: int, b: int|
                    0 <= a < i && 0 <= b < filters.len() ==> self@.components[a]
                        != filters.deep_view()[b],
            decreases self.components.len() - i,
        {
            let mut j: usize = 0;
            while j < filters.len()
                invariant
                    i < self.components.len(),
                    j <= filters.len(),
                    forall|b: int|
                        0 <= b < j ==> self@.components[i as int] != filters.deep_view()[b],
                decreases filters.len() - j,
            {
                if str_equals(self.components[i].as_str(), filters[j]) {
                    assert(self@.components[i as int] == filters.deep_view()[j as int]);
                    return true;
                }
                j += 1;
            }
            i += 1;
        }
        false
    }

    /// Whether the path has the extension of a framework bundle.
    pub fn is_framework(&self) -> (framework: bool)
        ensures
            framework == self@.is_framework(),
    {
        match &self.extension {
            Some(extension) => str_equals(extension.as_str(), "framework"),
            None => false,
        }
    }

    /// Whether the entry is a framework bundle outside every directory named
    /// in `filters`.
    pub fn is_linked(&self, filters: &[&str]) -> (linked: bool)
        ensures
            linked == self@.linked(filters.deep_view()),
    {
        !self.is_excluded(filters) && self.is_framework()
    }

    /// Whether the entry, if it is linked, has the parent and the stem that
    /// its directives are made of.
    pub fn is_linkable(&self, filters: &[&str]) -> (linkable: bool)
        ensures
            linkable == self@.linkable(filters.deep_view()),
    {
        !self.is_linked(filters) || (self.parent.is_some() && self.stem.is_some())
    }
}

/// The linker directives for the framework bundles among `entries`.
///
/// An entry is linked if none of its path's components is one of `filters`
/// and its extension is that of a framework bundle. Each linked entry gives
/// two directives, one after the other: the search path directive of its
/// parent directory and the link directive of its stem. The entries are
/// taken in the order given.
pub fn recursive_link_dir(entries: &[PathEntry], filters: &[&str]) -> (directives: Vec<String>)
    requires
        forall|i: int| 0 <= i < entries.len() ==> (#[trigger] entries[i])@.linkable(
            filters.deep_view(),
        ),
    ensures
        directives.deep_view() == link_directives(parts_of(entries@), filters.deep_view()),
{
    let mut directives: Vec<String> = Vec::new();
    let mut i: usize = 0;
    assert(parts_of(entries@).take(0) =~= Seq::<PathParts>::empty());
    while i < entries.len()
        invariant
            i <= entries.len(),
            forall|k: int| 0 <= k < entries.len() ==> (#[trigger] entries[k])@.linkable(
                filters.deep_view(),
            ),
            directives.deep_view() == link_directives(
                parts_of(entries@).take(i as int),
                filters.deep_view(),
            ),
        decreases entries.len() - i,
    {
        let ghost before = directives.deep_view();
        let entry = &entries[i];
        if entry.is_linked(filters) {
            assert(entry@.linkable(filters.deep_view()));
            match (&entry.parent, &entry.stem) {
                (Some(parent), Some(stem)) => {
                    let mut search = "link-search=framework=".to_owned();
                    search.append(parent.as_str());
                    directives.push(search);
                    let mut link = "link-lib=framework=".to_owned();
                    link.append(stem.as_str());
                    directives.push(link);
                },
                _ => {},
            }
        }
        proof {
            let upto = parts_of(entries@).take(i + 1);
            assert(upto.drop_last() =~= parts_of(entries@).take(i as int));
            assert(upto.last() == entry@);
            assert(directives.deep_view() =~= before + entry@.directives(filters.deep_view()));
        }
        i += 1;
    }
    assert(parts_of(entries@).take(i as int) =~= parts_of(entries@));
    directives
}

/// Each entry gives its directives by itself: the directives of two runs
/// of entries, one after the other, are those of the first run followed by
/// those of the second.
pub proof fn lemma_link_directives_concat(
    first: Seq<PathParts>,
    second: Seq<PathParts>,
    filters: Seq<Seq<char>>,
)
    ensures
        link_directives(first + second, filters) == link_directives(first, filters)
            + link_directives(second, filters),
    decreases second.len(),
{
    if second.len() == 0 {
        assert(first + second =~= first);
        assert(link_directives(first, filters) + link_directives(second, filters)
            =~= link_directives(first, filters));
    } else {
        lemma_link_directives_concat(first, second.drop_last(), filters);
        assert((first + second).drop_last() =~= first + second.drop_last());
        assert((first + second).last() == second.last());
        assert(link_directives(first + second, filters) =~= link_directives(first, filters) + (
        link_directives(second.drop_last(), filters) + second.last().directives(filters)));
    }
}

} // verus!
