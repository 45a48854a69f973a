//! The screens of the tool.

use vstd::prelude::*;

verus! {

/// The screen that is shown. Exactly one is active at a time.
#[derive(Debug, Clone, Copy, PartialEq, Eq, Structural)]
pub enum CurrentScreen {
    MailingListSelection,
    BookmarkedPatchsets,
    LatestPatchsets,
    PatchsetDetails,
}

impl CurrentScreen {
    /// The name of the screen, as it is written in messages.
    pub open spec fn name_text(self) -> Seq<char> {
        match self {
            CurrentScreen::MailingListSelection => "MailingListSelection"@,
            CurrentScreen::BookmarkedPatchsets => "BookmarkedPatchsets"@,
            CurrentScreen::LatestPatchsets => "LatestPatchsets"@,
            CurrentScreen::PatchsetDetails => "PatchsetDetails"@,
        }
    }

    /// The name of the screen, as it is written in messages.
    pub fn name(&self) -> (name: &'static str)
        ensures
            name@ == self.name_text(),
    {
        match self {
            CurrentScreen::MailingListSelection => "MailingListSelection",
            CurrentScreen::BookmarkedPatchsets => "BookmarkedPatchsets",
            CurrentScreen::LatestPatchsets => "LatestPatchsets",
            CurrentScreen::PatchsetDetails => "PatchsetDetails",
        }
    }

    /// Whether the screen lists series, so that one can be opened from it.
    pub open spec fn lists_series(self) -> bool {
        self == CurrentScreen::BookmarkedPatchsets || self == CurrentScreen::LatestPatchsets
    }
}

} // verus!
