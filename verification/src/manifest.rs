//! The profile manifest `profiles.ini`, and the default profile that it
//! names for a browser flavour.

use crate::cli::FirefoxType;
use crate::ini::{sections_view, value_of, Section, SectionView};
use crate::text::{ends_with, is_suffix};
use vstd::prelude::*;

verus! {

/// Whether a profile directory's name marks it as the default profile of
/// `flavour`.
pub open spec fn is_default_of(profile: Seq<char>, flavour: FirefoxType) -> bool {
    match flavour {
        FirefoxType::Release => is_suffix("default-release"@, profile),
        FirefoxType::Esr => is_suffix("default-esr"@, profile),
        FirefoxType::Dev => is_suffix("dev-edition-default"@, profile) || is_suffix(
            "Default_Dev"@,
            profile,
        ),
    }
}

/// The profile that a section puts forward for `flavour`: the value of its
/// `Default` key, where that value marks a default profile of the flavour.
/// The reader folds keys to lower case, so the key is looked up as
/// `default`.
pub open spec fn candidate(section: SectionView, flavour: FirefoxType) -> Option<Seq<char>> {
    match value_of(section.entries, "default"@) {
        Some(profile) => if is_default_of(profile, flavour) {
            Some(profile)
        } else {
            None
        },
        None => None,
    }
}

/// The default profile of `flavour`: the candidate of the last section, in
/// file order, that puts one forward.
pub open spec fn default_profile(sections: Seq<SectionView>, flavour: FirefoxType) -> Option<
    Seq<char>,
>
    decreases sections.len(),
{
    if sections.len() == 0 {
        None
    } else {
        match candidate(sections.last(), flavour) {
            Some(profile) => Some(profile),
            None => default_profile(sections.drop_last(), flavour),
        }
    }
}

/// Among several sections that put a profile forward for one flavour, the
/// last one in file order decides: where section `last` puts one forward
/// and no later section does, that profile is the default profile.
pub proof fn lemma_last_candidate_wins(sections: Seq<SectionView>, flavour: FirefoxType, last: int)
    requires
        0 <= last < sections.len(),
        candidate(sections[last], flavour) is Some,
        forall|later: int|
            last < later < sections.len() ==> candidate(#[trigger] sections[later], flavour)
                is None,
    ensures
        default_profile(sections, flavour) == candidate(sections[last], flavour),
    decreases sections.len(),
{
    if last < sections.len() - 1 {
        lemma_last_candidate_wins(sections.drop_last(), flavour, last);
    }
}

/// A manifest has a default profile for a flavour exactly if one of its
/// sections puts a profile forward for it.
pub proof fn lemma_default_needs_candidate(sections: Seq<SectionView>, flavour: FirefoxType)
    ensures
        default_profile(sections, flavour) is None <==> forall|at: int|
            0 <= at < sections.len() ==> candidate(#[trigger] sections[at], flavour) is None,
    decreases sections.len(),
{
    if sections.len() > 0 {
        let earlier = sections.drop_last();
        lemma_default_needs_candidate(earlier, flavour);
        if default_profile(sections, flavour) is None {
            assert forall|at: int| 0 <= at < sections.len() implies candidate(
                #[trigger] sections[at],
                flavour,
            ) is None by {
                if at < earlier.len() {
                    assert(earlier[at] == sections[at]);
                }
            }
        }
    }
}

/// The profile that a section puts forward for `flavour`.
pub fn section_candidate(section: &Section, flavour: FirefoxType) -> (profile: Option<&String>)
    ensures
        match profile {
            Some(found) => candidate(section@, flavour) == Some(found@),
            None => candidate(section@, flavour) is None,
        },
{
    match section.get("default") {
        Some(profile) => if marks_default(profile.as_str(), flavour) {
            Some(profile)
        } else {
            None
        },
        None => None,
    }
}

/// Tells whether a profile directory's name marks it as the default
/// profile of `flavour`.
pub fn marks_default(profile: &str, flavour: FirefoxType) -> (marked: bool)
    ensures
        marked == is_default_of(profile@, flavour),
{
    match flavour {
        FirefoxType::Release => ends_with(profile, "default-release"),
        FirefoxType::Esr => ends_with(profile, "default-esr"),
        FirefoxType::Dev => ends_with(profile, "dev-edition-default") || ends_with(
            profile,
            "Default_Dev",
        ),
    }
}

/// Finds the default profile of `flavour` among the sections of a
/// manifest. Every section is looked at in file order, and a later section
/// that puts a profile forward replaces an earlier one.
pub fn find_default(sections: &Vec<Section>, flavour: FirefoxType) -> (profile: Option<String>)
    ensures
        match profile {
            Some(found) => default_profile(sections_view(sections@), flavour) == Some(found@),
            None => default_profile(sections_view(sections@), flavour) is None,
        },
{
    let ghost all = sections_view(sections@);
    let mut profile: Option<String> = None;
    let mut i: usize = 0;
    while i < sections.len()
        invariant
            i <= sections.len(),
            all == sections_view(sections@),
            match profile {
                Some(found) => default_profile(all.subrange(0, i as int), flavour) == Some(
                    found@,
                ),
                None => default_profile(all.subrange(0, i as int), flavour) is None,
            },
        decreases sections.len() - i,
    {
        assert(all.subrange(0, i + 1).drop_last() =~= all.subrange(0, i as int));
        match section_candidate(&sections[i], flavour) {
            Some(found) => {
                profile = Some(found.clone());
            },
            None => {},
        }
        i += 1;
    }
    assert(all.subrange(0, i as int) =~= all);
    profile
}

} // verus!
