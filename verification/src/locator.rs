//! Finding the places database of a profile: either the profile that was
//! named, or the default profile that the manifest gives for a flavour.

use crate::cli::FirefoxType;
use crate::ini::{ini_document, parse_ini, sections_view, Section, SectionView};
use crate::manifest::{
    candidate, default_profile, find_default, lemma_default_needs_candidate,
    lemma_last_candidate_wins,
};
use crate::text::{is_suffix, join, joined};
use vstd::prelude::*;

verus! {

/// Why no database could be located.
#[derive(Debug, Clone, PartialEq, Eq)]
pub enum LocateError {
    /// A flavour and a profile were both named; the two exclude each other.
    ConfigurationError,
    /// The manifest could not be read or is malformed; the reason is kept.
    ManifestUnreadable(String),
    /// No section of the manifest names a default profile of the flavour.
    NoDefaultProfile(FirefoxType),
}

/// A `LocateError` as text.
pub ghost enum LocateFailure {
    ConfigurationError,
    ManifestUnreadable(Seq<char>),
    NoDefaultProfile(FirefoxType),
}

impl View for LocateError {
    type V = LocateFailure;

    open spec fn view(&self) -> LocateFailure {
        match self {
            LocateError::ConfigurationError => LocateFailure::ConfigurationError,
            LocateError::ManifestUnreadable(why) => LocateFailure::ManifestUnreadable(why@),
            LocateError::NoDefaultProfile(flavour) => LocateFailure::NoDefaultProfile(*flavour),
        }
    }
}

/// An optional string as text.
pub open spec fn option_view(text: Option<String>) -> Option<Seq<char>> {
    match text {
        Some(text) => Some(text@),
        None => None,
    }
}

/// A string or a complaint, both as text.
pub open spec fn result_view(text: Result<String, String>) -> Result<Seq<char>, Seq<char>> {
    match text {
        Ok(text) => Ok(text@),
        Err(why) => Err(why@),
    }
}

/// A location or an error, both as text.
pub open spec fn outcome_view(outcome: Result<String, LocateError>) -> Result<
    Seq<char>,
    LocateFailure,
> {
    match outcome {
        Ok(location) => Ok(location@),
        Err(error) => Err(error@),
    }
}

/// The directory that holds the profiles: the one that was asked for, else
/// `.mozilla/firefox` under the user's home directory.
pub open spec fn store_of(custom: Option<Seq<char>>, home: Option<Seq<char>>) -> Option<
    Seq<char>,
> {
    match custom {
        Some(path) => Some(path),
        None => match home {
            Some(home) => Some(joined(home, ".mozilla/firefox"@)),
            None => None,
        },
    }
}

/// Where the manifest lies in the profile store `base`.
pub open spec fn manifest_in(base: Seq<char>) -> Seq<char> {
    joined(base, "profiles.ini"@)
}

/// Where the places database of `profile` lies in the profile store `base`.
pub open spec fn database_in(base: Seq<char>, profile: Seq<char>) -> Seq<char> {
    joined(joined(base, profile), "places.sqlite"@)
}

/// The flavour whose default profile is looked up where no profile is
/// named: the one asked for, else the release flavour.
pub open spec fn flavour_of(firefox_type: Option<FirefoxType>) -> FirefoxType {
    match firefox_type {
        Some(flavour) => flavour,
        None => FirefoxType::Release,
    }
}

/// The database of the default profile of `flavour`, given what reading
/// the manifest came to.
pub open spec fn located_default(
    flavour: FirefoxType,
    base: Seq<char>,
    document: Result<Seq<SectionView>, Seq<char>>,
) -> Result<Seq<char>, LocateFailure> {
    match document {
        Err(why) => Err(LocateFailure::ManifestUnreadable(why)),
        Ok(sections) => match default_profile(sections, flavour) {
            Some(profile) => Ok(database_in(base, profile)),
            None => Err(LocateFailure::NoDefaultProfile(flavour)),
        },
    }
}

/// The location that the inputs resolve to.
///
/// A named profile and a flavour exclude each other. A named profile is
/// taken as it is, and the manifest is not looked at. Otherwise the
/// manifest decides: `manifest` is its text, or the reason why the file
/// could not be read.
pub open spec fn located(
    firefox_type: Option<FirefoxType>,
    base: Seq<char>,
    profile: Option<Seq<char>>,
    manifest: Result<Seq<char>, Seq<char>>,
) -> Result<Seq<char>, LocateFailure> {
    match profile {
        Some(profile) => if firefox_type is Some {
            Err(LocateFailure::ConfigurationError)
        } else {
            Ok(database_in(base, profile))
        },
        None => match manifest {
            Err(why) => Err(LocateFailure::ManifestUnreadable(why)),
            Ok(text) => located_default(flavour_of(firefox_type), base, ini_document(text)),
        },
    }
}

/// Where several sections of the manifest mark a default profile of the
/// flavour that is looked up, the last of them in file order is taken:
/// if section `last` puts a profile forward and no later section does, the
/// database of that profile is the location.
pub proof fn lemma_last_matching_section_is_selected(
    firefox_type: Option<FirefoxType>,
    base: Seq<char>,
    text: Seq<char>,
    sections: Seq<SectionView>,
    last: int,
)
    requires
        ini_document(text) == Ok::<Seq<SectionView>, Seq<char>>(sections),
        0 <= last < sections.len(),
        candidate(sections[last], flavour_of(firefox_type)) is Some,
        forall|later: int|
            last < later < sections.len() ==> candidate(
                #[trigger] sections[later],
                flavour_of(firefox_type),
            ) is None,
    ensures
        located(firefox_type, base, None, Ok(text)) == Ok::<Seq<char>, LocateFailure>(
            database_in(base, candidate(sections[last], flavour_of(firefox_type))->0),
        ),
{
    lemma_last_candidate_wins(sections, flavour_of(firefox_type), last);
}

/// Where no section of the manifest marks a default profile of the flavour
/// that is looked up, there is no location: the lookup fails with
/// `NoDefaultProfile` for that flavour.
pub proof fn lemma_no_matching_section_fails(
    firefox_type: Option<FirefoxType>,
    base: Seq<char>,
    text: Seq<char>,
    sections: Seq<SectionView>,
)
    requires
        ini_document(text) == Ok::<Seq<SectionView>, Seq<char>>(sections),
        forall|at: int|
            0 <= at < sections.len() ==> candidate(
                #[trigger] sections[at],
                flavour_of(firefox_type),
            ) is None,
    ensures
        located(firefox_type, base, None, Ok(text)) == Err::<Seq<char>, LocateFailure>(
            LocateFailure::NoDefaultProfile(flavour_of(firefox_type)),
        ),
{
    lemma_default_needs_candidate(sections, flavour_of(firefox_type));
}

/// Naming a profile and a flavour together is a configuration error,
/// whatever the profile store and the manifest hold.
pub proof fn lemma_profile_and_flavour_exclude(
    flavour: FirefoxType,
    base: Seq<char>,
    profile: Seq<char>,
    manifest: Result<Seq<char>, Seq<char>>,
)
    ensures
        located(Some(flavour), base, Some(profile), manifest) == Err::<Seq<char>, LocateFailure>(
            LocateFailure::ConfigurationError,
        ),
{
}

/// Whatever is located is a file called `places.sqlite`.
pub proof fn lemma_location_names_the_database(
    firefox_type: Option<FirefoxType>,
    base: Seq<char>,
    profile: Option<Seq<char>>,
    manifest: Result<Seq<char>, Seq<char>>,
)
    ensures
        located(firefox_type, base, profile, manifest) matches Ok(location) ==> is_suffix(
            "places.sqlite"@,
            location,
        ),
{
    reveal_strlit("places.sqlite");
    let name = "places.sqlite"@;
    assert forall|directory: Seq<char>| is_suffix(name, #[trigger] joined(directory, name)) by {
        let path = joined(directory, name);
        assert(path.subrange(path.len() - name.len(), path.len() as int) =~= name);
    }
}

/// The directory that holds the profiles, if it can be told.
pub fn store_dir(custom: Option<String>, home: Option<String>) -> (base: Option<String>)
    ensures
        option_view(base) == store_of(option_view(custom), option_view(home)),
{
    match custom {
        Some(path) => Some(path),
        None => match home {
            Some(home) => Some(join(home.as_str(), ".mozilla/firefox")),
            None => None,
        },
    }
}

/// The path of the manifest in the profile store `base`.
pub fn manifest_path(base: &str) -> (path: String)
    ensures
        path@ == manifest_in(base@),
{
    join(base, "profiles.ini")
}

/// The path of the places database of `profile` in the profile store
/// `base`.
pub fn database_path(base: &str, profile: &str) -> (path: String)
    ensures
        path@ == database_in(base@, profile@),
{
    let directory = join(base, profile);
    join(directory.as_str(), "places.sqlite")
}

/// Locates the database of the default profile of `flavour` from what the
/// reader made of the manifest.
pub fn locate_default(flavour: FirefoxType, base: &str, document: Result<Vec<Section>, String>) -> (location:
    Result<String, LocateError>)
    ensures
        outcome_view(location) == located_default(
            flavour,
            base@,
            match document {
                Ok(sections) => Ok(sections_view(sections@)),
                Err(why) => Err(why@),
            },
        ),
{
    match document {
        Err(why) => Err(LocateError::ManifestUnreadable(why)),
        Ok(sections) => match find_default(&sections, flavour) {
            Some(profile) => Ok(database_path(base, profile.as_str())),
            None => Err(LocateError::NoDefaultProfile(flavour)),
        },
    }
}

/// Locates the places database.
pub fn locate(
    firefox_type: Option<FirefoxType>,
    base: &str,
    profile: Option<String>,
    manifest: Result<String, String>,
) -> (location: Result<String, LocateError>)
    ensures
        outcome_view(location) == located(
            firefox_type,
            base@,
            option_view(profile),
            result_view(manifest),
        ),
{
    match profile {
        Some(profile) => if firefox_type.is_some() {
            Err(LocateError::ConfigurationError)
        } else {
            Ok(database_path(base, profile.as_str()))
        },
        None => match manifest {
            Err(why) => Err(LocateError::ManifestUnreadable(why)),
            Ok(text) => {
                let flavour = match firefox_type {
                    Some(flavour) => flavour,
                    None => FirefoxType::Release,
                };
                locate_default(flavour, base, parse_ini(text.as_str()))
            },
        },
    }
}

} // verus!
