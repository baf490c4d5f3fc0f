//! The named-provider registry: a read-only lookup table from a stable name
//! to a reusable credential source.

use vstd::prelude::*;
use crate::source::CredentialsSource;

verus! {

/// What looking a name up in a run of entries yields: the source of the
/// first entry carrying that name, or nothing when no entry does.
pub open spec fn lookup_from(
    entries: Seq<(String, CredentialsSource)>,
    name: Seq<char>,
    i: int,
) -> Option<CredentialsSource>
    decreases entries.len() - i,
{
    if i < 0 || i >= entries.len() {
        None
    } else if entries[i].0@ == name {
        Some(entries[i].1)
    } else {
        lookup_from(entries, name, i + 1)
    }
}

/// What looking a name up in the registry yields.
pub open spec fn lookup_view(
    entries: Seq<(String, CredentialsSource)>,
    name: Seq<char>,
) -> Option<CredentialsSource> {
    lookup_from(entries, name, 0)
}

/// The registry. Construction takes the whole mapping at once; no mutation
/// is exposed afterwards, so concurrent chains may share its entries freely.
pub struct NamedProviderFactory {
    providers: Vec<(String, CredentialsSource)>,
}

impl NamedProviderFactory {
    /// The registry's entries, in registration order.
    pub closed spec fn entries(&self) -> Seq<(String, CredentialsSource)> {
        self.providers@
    }

    /// Builds a registry over the given mapping.
    pub fn new(providers: Vec<(String, CredentialsSource)>) -> (r: NamedProviderFactory)
        ensures
            r.entries() == providers@,
    {
        NamedProviderFactory { providers }
    }

    /// Looks a name up: a shared copy of the first source registered under
    /// it, or nothing when the name is absent. No side effects.
    pub fn provider(&self, name: &str) -> (r: Option<CredentialsSource>)
        ensures
            r == lookup_view(self.entries(), name@),
    {
        let wanted: String = name.to_owned();
        let n = self.providers.len();
        let mut i: usize = 0;
        while i < n
            invariant
                i <= n,
                n == self.providers.len(),
                wanted@ == name@,
                lookup_view(self.providers@, name@) == lookup_from(self.providers@, name@, i as int),
            decreases n - i,
        {
            let entry = &self.providers[i];
            if entry.0 == wanted {
                return Some(entry.1.clone());
            }
            i += 1;
        }
        None
    }
}

} // verus!
