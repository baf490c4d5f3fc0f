//! The configuration-time error a chain description can provoke.

use vstd::prelude::*;
use vstd::string::StringExecFns;

verus! {

/// Why an executable chain could not be built from a description: the base
/// names a provider that the registry does not know. Raised only during
/// construction, before any network activity, and surfaced to the caller at
/// once as a configuration error.
#[derive(Debug)]
pub enum ProfileFileError {
    UnknownProvider { name: String },
}

/// The rendered text of an unknown-provider error: it names the offending
/// provider verbatim, so configuration mistakes are locatable.
pub open spec fn unknown_provider_message(name: Seq<char>) -> Seq<char> {
    "profile referenced `"@ + name + "` provider but that provider is not supported"@
}

impl ProfileFileError {
    /// Renders the error as its human-readable message.
    pub fn render(&self) -> (r: String)
        ensures
            (match self {
                ProfileFileError::UnknownProvider { name } => r@ == unknown_provider_message(
                    name@,
                ),
            }),
    {
        match self {
            ProfileFileError::UnknownProvider { name } => {
                let mut m: String = "profile referenced `".to_owned();
                m.append(name.as_str());
                m.append("` provider but that provider is not supported");
                m
            },
        }
    }
}

/// The rendered unknown-provider message always carries the offending name
/// verbatim: the name stands in it as a contiguous run of characters.
pub proof fn lemma_unknown_provider_message_contains_name(name: Seq<char>)
    ensures
        exists|i: int|
            0 <= i && i + name.len() <= unknown_provider_message(name).len()
                && #[trigger] unknown_provider_message(name).subrange(i, i + name.len()) == name,
{
    reveal_strlit("profile referenced `");
    reveal_strlit("` provider but that provider is not supported");
    let prefix = "profile referenced `"@;
    let m = unknown_provider_message(name);
    assert(m.subrange(prefix.len() as int, prefix.len() + name.len() as int) =~= name);
    assert(0 <= prefix.len() as int && prefix.len() + name.len() as int <= m.len() && m.subrange(
        prefix.len() as int,
        prefix.len() + name.len() as int,
    ) == name);
}

} // verus!
