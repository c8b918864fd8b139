//! INI text as `configparser` reads it: sections in file order, each with
//! its entries in file order.

use vstd::prelude::*;

verus! {

/// One `key = value` line of a section. A key that stands alone on its
/// line has no value.
#[derive(Debug, Clone, PartialEq, Eq)]
pub struct Entry {
    pub key: String,
    pub value: Option<String>,
}

/// A section with its entries.
#[derive(Debug, Clone, PartialEq, Eq)]
pub struct Section {
    pub name: String,
    pub entries: Vec<Entry>,
}

/// An entry as text.
pub ghost struct EntryView {
    pub key: Seq<char>,
    pub value: Option<Seq<char>>,
}

/// A section as text.
pub ghost struct SectionView {
    pub name: Seq<char>,
    pub entries: Seq<EntryView>,
}

impl View for Entry {
    type V = EntryView;

    open spec fn view(&self) -> EntryView {
        EntryView {
            key: self.key@,
            value: match self.value {
                Some(value) => Some(value@),
                None => None,
            },
        }
    }
}

impl View for Section {
    type V = SectionView;

    open spec fn view(&self) -> SectionView {
        SectionView { name: self.name@, entries: self.entries@.map_values(|entry: Entry| entry@) }
    }
}

/// Sections as text, in the order in which they are held.
pub open spec fn sections_view(sections: Seq<Section>) -> Seq<SectionView> {
    sections.map_values(|section: Section| section@)
}

/// What `configparser`'s default reader makes of an INI text: the sections
/// in order of first appearance, each with its entries in order of first
/// appearance, or the reader's complaint.
pub uninterp spec fn ini_document(text: Seq<char>) -> Result<Seq<SectionView>, Seq<char>>;

/// The value that a section holds under `key`.
pub open spec fn value_of(entries: Seq<EntryView>, key: Seq<char>) -> Option<Seq<char>>
    decreases entries.len(),
{
    if entries.len() == 0 {
        None
    } else if entries[0].key == key {
        entries[0].value
    } else {
        value_of(entries.skip(1), key)
    }
}

/// The value that the first section called `section` holds under `key`.
pub open spec fn setting_of(sections: Seq<SectionView>, section: Seq<char>, key: Seq<char>)
    -> Option<Seq<char>>
    decreases sections.len(),
{
    if sections.len() == 0 {
        None
    } else if sections[0].name == section {
        value_of(sections[0].entries, key)
    } else {
        setting_of(sections.skip(1), section, key)
    }
}

/// Calls `configparser::ini::Ini::read` on a reader made by `Ini::new`, and
/// hands out the map it returns as sections and entries, in the map's
/// order. The reader is a function of the text alone; with the crate's
/// `indexmap` feature the map keeps sections and keys in order of first
/// appearance. Trusted: the result is what `ini_document` names.
#[verifier::external_body]
pub(crate) fn parse_ini(text: &str) -> (parsed: Result<Vec<Section>, String>)
    ensures
        match parsed {
            Ok(sections) => ini_document(text@) == Ok::<Seq<SectionView>, Seq<char>>(
                sections_view(sections@),
            ),
            Err(why) => ini_document(text@) == Err::<Seq<SectionView>, Seq<char>>(why@),
        },
{
    let document = configparser::ini::Ini::new().read(text.to_owned())?;
    Ok(
        document.into_iter().map(
            |(name, entries)| Section {
                name,
                entries: entries.into_iter().map(|(key, value)| Entry { key, value }).collect(),
            },
        ).collect(),
    )
}

impl Section {
    /// The value held under `key`, if the section has the key with a value.
    pub fn get(&self, key: &str) -> (value: Option<&String>)
        ensures
            match value {
                Some(found) => value_of(self@.entries, key@) == Some(found@),
                None => value_of(self@.entries, key@) is None,
            },
    {
        let wanted = key.to_owned();
        let ghost entries = self@.entries;
        let mut i: usize = 0;
        assert(entries.skip(0) =~= entries);
        while i < self.entries.len()
            invariant
                i <= self.entries.len(),
                wanted@ == key@,
                entries == self@.entries,
                value_of(entries.skip(i as int), key@) == value_of(entries, key@),
            decreases self.entries.len() - i,
        {
            if self.entries[i].key == wanted {
                return self.entries[i].value.as_ref();
            }
            assert(entries.skip(i as int).skip(1) =~= entries.skip(i + 1));
            i += 1;
        }
        None
    }
}

/// The value that the first section called `section` holds under `key`.
pub fn setting(sections: &Vec<Section>, section: &str, key: &str) -> (value: Option<String>)
    ensures
        match value {
            Some(found) => setting_of(sections_view(sections@), section@, key@) == Some(found@),
            None => setting_of(sections_view(sections@), section@, key@) is None,
        },
{
    let wanted = section.to_owned();
    let ghost all = sections_view(sections@);
    let mut i: usize = 0;
    assert(all.skip(0) =~= all);
    while i < sections.len()
        invariant
            i <= sections.len(),
            wanted@ == section@,
            all == sections_view(sections@),
            setting_of(all.skip(i as int), section@, key@) == setting_of(all, section@, key@),
        decreases sections.len() - i,
    {
        if sections[i].name == wanted {
            return match sections[i].get(key) {
                Some(found) => Some(found.clone()),
                None => None,
            };
        }
        assert(all.skip(i as int).skip(1) =~= all.skip(i + 1));
        i += 1;
    }
    None
}

} // verus!
