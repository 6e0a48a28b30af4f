//! What one response of the registry holds.

use vstd::prelude::*;
use crate::dimension::Dimension;
use crate::text::{decimal, push_decimal};

verus! {

/// Figures about a search as a whole.
#[derive(Debug, PartialEq, Eq)]
pub struct Meta {
    /// How many packages match, on all pages together.
    pub total: u64,
    /// The content area that the search was sized for.
    pub dimension: Dimension,
}

/// One package as the registry describes it.
#[derive(Debug, PartialEq, Eq)]
pub struct Crate {
    pub name: String,
    pub description: Option<String>,
    pub downloads: u64,
    pub max_version: String,
}

/// One page of matches.
#[derive(Debug, PartialEq, Eq)]
pub struct SearchResult {
    pub meta: Meta,
    pub crates: Vec<Crate>,
}

/// The line that stands for one package: name, description (nothing where
/// there is none), downloads and newest version, with bars between them.
pub open spec fn row_text(package: Crate) -> Seq<char> {
    let description = match package.description {
        Some(text) => text@,
        None => Seq::empty(),
    };
    package.name@ + " | "@ + description + " | "@ + decimal(package.downloads as nat) + " | "@
        + package.max_version@
}

impl Crate {
    /// The line that stands for this package.
    pub fn row(&self) -> (line: String)
        ensures
            line@ == row_text(*self),
    {
        let mut line = String::new();
        line.push_str(self.name.as_str());
        line.push_str(" | ");
        match &self.description {
            Some(text) => {
                line.push_str(text.as_str());
            },
            None => {},
        }
        line.push_str(" | ");
        push_decimal(&mut line, self.downloads);
        line.push_str(" | ");
        line.push_str(self.max_version.as_str());
        assert(line@ =~= row_text(*self));
        line
    }
}

impl SearchResult {
    /// A result without matches, sized for `dimension`.
    pub fn with_dimension(dimension: Dimension) -> (result: SearchResult)
        ensures
            result.meta.total == 0,
            result.meta.dimension == dimension,
            result.crates@.len() == 0,
    {
        SearchResult { meta: Meta { total: 0, dimension }, crates: Vec::new() }
    }
}

} // verus!
