use vstd::prelude::*;
use crate::app_state::DirEntry;
use crate::text::{contains_str, has_substring, lower_of, lowercase};

verus! {

/// What a search compares against.
#[derive(Debug, Clone, Copy, PartialEq, Eq, Structural)]
pub enum SearchMode {
    Name,
    Content,
    Metadata,
}

/// Filters directory listings by a query.
pub struct SearchEngine;

/// Whether an entry is kept, given its lower-cased name and the lower-cased
/// query: the name holds the query, and in content mode the entry is no
/// directory.
pub open spec fn keeps(is_dir: bool, folded_name: Seq<char>, folded_query: Seq<char>, mode: SearchMode) -> bool {
    &&& !(mode is Content && is_dir)
    &&& has_substring(folded_name, folded_query)
}

/// The entries of `s` that a search for `query` keeps, in order.
pub open spec fn search_result(s: Seq<DirEntry>, query: Seq<char>, mode: SearchMode) -> Seq<DirEntry>
    decreases s.len(),
{
    if s.len() == 0 {
        Seq::empty()
    } else {
        let rest = search_result(s.drop_last(), query, mode);
        let e = s.last();
        if keeps(e.is_dir, lower_of(e.name@), lower_of(query), mode) {
            rest.push(e)
        } else {
            rest
        }
    }
}

impl SearchEngine {
    /// The keep test on already lower-cased text.
    pub fn entry_matches(is_dir: bool, folded_name: &str, folded_query: &str, mode: SearchMode) -> (r: bool)
        ensures
            r == keeps(is_dir, folded_name@, folded_query@, mode),
    {
        if mode == SearchMode::Content && is_dir {
            false
        } else {
            contains_str(folded_name, folded_query)
        }
    }

    /// Whether a file's text holds `query`, ignoring case.
    pub fn content_matches(contents: &str, query: &str) -> (r: bool)
        ensures
            r == has_substring(lower_of(contents@), lower_of(query@)),
    {
        let folded_contents = lowercase(contents);
        let folded_query = lowercase(query);
        contains_str(folded_contents.as_str(), folded_query.as_str())
    }

    /// Whether a directory walk keeps an entry: by name in name and metadata
    /// mode; in content mode a file whose text held the query (`content_hit`,
    /// read by the caller), never a directory.
    pub fn walk_keeps(name: &str, is_dir: bool, query: &str, mode: SearchMode, content_hit: bool) -> (r: bool)
        ensures
            mode is Content ==> r == (!is_dir && content_hit),
            mode !is Content ==> r == has_substring(lower_of(name@), lower_of(query@)),
    {
        match mode {
            SearchMode::Content => !is_dir && content_hit,
            _ => {
                let folded_name = lowercase(name);
                let folded_query = lowercase(query);
                contains_str(folded_name.as_str(), folded_query.as_str())
            },
        }
    }

    /// The entries whose name holds `query`, ignoring case, in their order;
    /// in content mode directories are left out.
    pub fn search_entries(entries: &Vec<DirEntry>, query: &str, mode: &SearchMode) -> (r: Vec<DirEntry>)
        ensures
            r@ == search_result(entries@, query@, *mode),
    {
        let folded_query = lowercase(query);
        let mut r: Vec<DirEntry> = Vec::new();
        let mut i: usize = 0;
        while i < entries.len()
            invariant
                i <= entries@.len(),
                folded_query@ == lower_of(query@),
                r@ == search_result(entries@.subrange(0, i as int), query@, *mode),
            decreases entries@.len() - i,
        {
            assert(entries@.subrange(0, i + 1).drop_last() =~= entries@.subrange(0, i as int));
            let e = &entries[i];
            let folded_name = lowercase(e.name.as_str());
            if Self::entry_matches(e.is_dir, folded_name.as_str(), folded_query.as_str(), *mode) {
                r.push(e.duplicate());
            }
            i += 1;
        }
        assert(entries@.subrange(0, i as int) =~= entries@);
        r
    }
}

} // verus!
