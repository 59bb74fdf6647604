//! The self-contained bundle of a source text and its parsed entries.

use vstd::prelude::*;

use crate::parse::breaks_escape_scan;
use crate::parse::ftl_parse;
use crate::parse::parse_ftl;

verus! {

broadcast use vstd::slice::group_slice_axioms;

/// The mathematical content of a [`FluentResource`]: the characters of the
/// owned source text and the sequence of top-level entries parsed from it.
pub ghost struct ResourceView {
    pub source: Seq<char>,
    pub entries: Seq<fluent_syntax::ast::Entry<String>>,
}

/// A resource containing a list of localization messages.
///
/// A [`FluentResource`] bundles the source string of a Fluent Translation
/// List together with the list of top-level entries that the parser
/// recovered from it. Each stored entry owns its own copies of the spans of
/// text it was parsed from, so the bundle is a plain value: it is created
/// once, moved and destroyed as one unit, immutable afterwards, and every
/// accessor is a read through the bundle.
#[derive(Debug)]
pub struct FluentResource {
    source: String,
    entries: Vec<fluent_syntax::ast::Entry<String>>,
}

impl View for FluentResource {
    type V = ResourceView;

    closed spec fn view(&self) -> ResourceView {
        ResourceView { source: self.source@, entries: self.entries@ }
    }
}

impl FluentResource {
    /// The bundle invariant: the stored entry list is exactly the list the
    /// parser emits for the stored source text, so the two halves of the
    /// bundle cannot drift apart after construction.
    #[verifier::type_invariant]
    spec fn entries_bound_to_source(self) -> bool {
        self.entries@ == ftl_parse(self.source@).0
    }

    /// A fallible constructor of a new [`FluentResource`].
    ///
    /// It takes an encoded `Fluent Translation List` string, parses it and
    /// stores both the input string and the parsed list of entries for
    /// runtime use. The input may be empty or malformed; the one shape the
    /// precondition excludes is a `\u` or `\U` escape opener cut short by a
    /// non-ASCII character (see [`breaks_escape_scan`]), which the
    /// underlying parser's error path cannot survive. A caller holding
    /// arbitrary text can test for that shape with
    /// [`crate::parse::contains_escape_scan_break`].
    ///
    /// # Errors
    ///
    /// The method returns the resource irrespective of parse errors
    /// encountered during parsing of the source; in case of errors, the
    /// `Err` variant carries both the structure and the parser's non-empty
    /// list of diagnostics, in order, so nothing is discarded.
    pub fn try_new(source: String) -> (r: Result<
        Self,
        (Self, Vec<fluent_syntax::parser::ParserError>),
    >)
        requires
            !breaks_escape_scan(source@),
        ensures
            match r {
                Ok(res) => res@.source == source@ && res@.entries == ftl_parse(source@).0
                    && ftl_parse(source@).1.len() == 0,
                Err((res, errors)) => res@.source == source@ && res@.entries == ftl_parse(
                    source@,
                ).0 && errors@ == ftl_parse(source@).1 && errors@.len() > 0,
            },
            source@.len() == 0 ==> (r matches Ok(res) && res@.entries.len() == 0),
    {
        let (entries, errors) = parse_ftl(source.as_str());
        let res = FluentResource { source, entries };
        match errors {
            None => Ok(res),
            Some(errors) => Err((res, errors)),
        }
    }

    /// Returns a reference to the exact source string that was used to
    /// construct the [`FluentResource`], unchanged.
    pub fn source(&self) -> (s: &str)
        ensures
            s@ == self@.source,
    {
        self.source.as_str()
    }

    /// Returns the number of top-level entries held by the
    /// [`FluentResource`].
    pub fn entry_count(&self) -> (n: usize)
        ensures
            n == self@.entries.len(),
    {
        self.entries.len()
    }

    /// Returns references to the entries of the [`FluentResource`], in
    /// source order. Each call yields a fresh traversal over the same
    /// stored entries; the entries themselves are not copied.
    pub fn entries(&self) -> (v: Vec<&fluent_syntax::ast::Entry<String>>)
        ensures
            v@.len() == self@.entries.len(),
            forall|i: int| 0 <= i < v@.len() ==> *v@[i] == self@.entries[i],
    {
        let mut v: Vec<&fluent_syntax::ast::Entry<String>> = Vec::new();
        let mut i: usize = 0;
        while i < self.entries.len()
            invariant
                i <= self@.entries.len(),
                v@.len() == i,
                forall|j: int| 0 <= j < i ==> *v@[j] == self@.entries[j],
            decreases self@.entries.len() - i,
        {
            v.push(vstd::slice::slice_index_get(self.entries.as_slice(), i));
            i = i + 1;
        }
        v
    }

    /// Returns the entry at the given zero-based index, or `None` when the
    /// index lies outside the entry list; an out-of-range index is never a
    /// fault.
    pub fn get_entry(&self, idx: usize) -> (e: Option<&fluent_syntax::ast::Entry<String>>)
        ensures
            match e {
                Some(entry) => idx < self@.entries.len() && *entry == self@.entries[idx as int],
                None => idx >= self@.entries.len(),
            },
    {
        self.entries.as_slice().get(idx)
    }
}

} // verus!
