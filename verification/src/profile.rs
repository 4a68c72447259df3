//! Profile entries: the rows of the sidebar's profile list.

use vstd::prelude::*;

verus! {

/// What a profile entry is to a contract: its name, then its description.
pub type ProfileView = (Seq<char>, Seq<char>);

/// One row of the sidebar's profile list: a title and a subtitle.
///
/// Nothing is demanded of either text: names need not be unique, and an
/// empty name or description is as good as any other.
#[derive(Clone, Debug, PartialEq, Eq)]
pub struct ProfileEntry {
    name: String,
    description: String,
}

impl View for ProfileEntry {
    type V = ProfileView;

    closed spec fn view(&self) -> ProfileView {
        (self.name@, self.description@)
    }
}

/// The entry that a new profile starts out as.
pub open spec fn placeholder_profile() -> ProfileView {
    ("New Profile"@, "A brief description of the profile."@)
}

/// The views of a run of entries, in the same order.
pub open spec fn profile_views(entries: Seq<ProfileEntry>) -> Seq<ProfileView> {
    entries.map_values(|entry: ProfileEntry| entry@)
}

impl ProfileEntry {
    /// Builds an entry from its two texts, which are kept as given.
    pub fn new(name: &str, description: &str) -> (entry: ProfileEntry)
        ensures
            entry@ == (name@, description@),
    {
        ProfileEntry { name: name.to_owned(), description: description.to_owned() }
    }

    /// The entry with the placeholder name and description.
    pub fn placeholder() -> (entry: ProfileEntry)
        ensures
            entry@ == placeholder_profile(),
    {
        ProfileEntry::new("New Profile", "A brief description of the profile.")
    }

    /// The entry's name, shown as the row's title.
    pub fn name(&self) -> (name: &str)
        ensures
            name@ == self@.0,
    {
        self.name.as_str()
    }

    /// The entry's description, shown as the row's subtitle.
    pub fn description(&self) -> (description: &str)
        ensures
            description@ == self@.1,
    {
        self.description.as_str()
    }
}

} // verus!
