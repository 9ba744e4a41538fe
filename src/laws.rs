//! Properties of the resolution that hold for every input.
use vstd::prelude::*;

use crate::path::SEPARATOR;
use crate::resolve::{default_dir_name, resolution, Decision};

verus! {

/// A non-empty override is always the answer: its canonical form is the
/// directory, whatever the home directory is, and the default is never used.
pub proof fn lemma_override_honored(d: Seq<char>, home: Option<Seq<u8>>)
    requires
        d.len() > 0,
    ensures
        resolution(Some(d), home) == Decision::Canonicalize(d),
{
}

/// An override set to the empty string resolves as an unset one.
pub proof fn lemma_empty_override_ignored(home: Option<Seq<u8>>)
    ensures
        resolution(Some(Seq::<char>::empty()), home) == resolution(None, home),
{
}

/// Without an override the directory is `.lexicon` under the home directory,
/// with one separator between them, and is given without any check that it
/// exists.
pub proof fn lemma_default_suffix(home: Seq<u8>)
    requires
        home.len() > 0,
        home.last() != SEPARATOR,
    ensures
        resolution(None, Some(home)) == Decision::Directory(
            home.push(SEPARATOR) + default_dir_name(),
        ),
{
}

/// A home directory that already ends in a separator gets no second one.
pub proof fn lemma_default_suffix_after_separator(home: Seq<u8>)
    requires
        home.len() > 0,
        home.last() == SEPARATOR,
    ensures
        resolution(None, Some(home)) == Decision::Directory(home + default_dir_name()),
{
}

/// Without an override and without a home directory, resolution fails with
/// the not-found failure.
pub proof fn lemma_no_home()
    ensures
        resolution(None, None) == Decision::HomeNotFound,
{
}

} // verus!
