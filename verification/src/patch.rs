//! The two records that the archive hands out: a patch series, known by the
//! message identifier of its lead message, and a mailing list.

use vstd::prelude::*;

verus! {

/// The representative patch of a series. Two values stand for the same
/// series exactly when their message identifiers are equal.
#[derive(Debug)]
pub struct Patch {
    message_id: String,
}

impl View for Patch {
    type V = Seq<char>;

    /// The message identifier.
    closed spec fn view(&self) -> Seq<char> {
        self.message_id@
    }
}

impl Patch {
    pub fn new(message_id: String) -> (patch: Patch)
        ensures
            patch@ == message_id@,
    {
        Patch { message_id }
    }

    pub fn get_message_id(&self) -> (id: &String)
        ensures
            id@ == self@,
    {
        &self.message_id
    }

    /// Whether both values stand for the same series.
    pub fn same_series(&self, other: &Patch) -> (same: bool)
        ensures
            same == (self@ == other@),
    {
        self.message_id == other.message_id
    }
}

impl Clone for Patch {
    fn clone(&self) -> (copy: Patch)
        ensures
            copy@ == self@,
    {
        Patch { message_id: self.message_id.clone() }
    }
}

/// The message identifiers of a sequence of series, in order.
pub open spec fn patch_ids(patches: Seq<Patch>) -> Seq<Seq<char>> {
    patches.map_values(|patch: Patch| patch@)
}

/// What a mailing list is known by.
pub struct MailingListView {
    pub name: Seq<char>,
    pub description: Seq<char>,
}

/// A mailing list of the archive.
#[derive(Debug)]
pub struct MailingList {
    name: String,
    description: String,
}

impl View for MailingList {
    type V = MailingListView;

    closed spec fn view(&self) -> MailingListView {
        MailingListView { name: self.name@, description: self.description@ }
    }
}

impl MailingList {
    pub fn new(name: String, description: String) -> (list: MailingList)
        ensures
            list@.name == name@,
            list@.description == description@,
    {
        MailingList { name, description }
    }

    pub fn get_name(&self) -> (name: &str)
        ensures
            name@ == self@.name,
    {
        self.name.as_str()
    }

    pub fn get_description(&self) -> (description: &str)
        ensures
            description@ == self@.description,
    {
        self.description.as_str()
    }
}

impl Clone for MailingList {
    fn clone(&self) -> (copy: MailingList)
        ensures
            copy@ == self@,
    {
        MailingList { name: self.name.clone(), description: self.description.clone() }
    }
}

/// The views of a sequence of mailing lists, in order.
pub open spec fn list_views(lists: Seq<MailingList>) -> Seq<MailingListView> {
    lists.map_values(|list: MailingList| list@)
}

} // verus!
