//! What can go wrong. Each failure carries the text that the collaborator
//! reported, unchanged.

use crate::screen::CurrentScreen;
use vstd::prelude::*;
use vstd::string::*;

verus! {

#[derive(Debug)]
pub enum AppError {
    /// A series was to be opened from a screen that lists none.
    InvalidScreen(CurrentScreen),
    /// The feed could not be requested.
    FeedTransport(String),
    /// The feed answered with a status other than success.
    FeedStatusNotOk(String),
    /// The series could not be downloaded.
    Download(String),
    /// The downloaded series could not be split into its messages.
    Split(String),
    /// A collection could not be written down.
    Persistence(String),
    /// The replies could not be prepared.
    ReplyPreparation(String),
    /// The mailing lists could not be fetched.
    MailingListsFetch(String),
    /// A step of the consolidation was reported out of turn.
    OutOfTurn,
}

impl AppError {
    /// The message that goes with the failure: what the collaborator
    /// reported, behind a heading where the failure has one.
    pub open spec fn message_text(self) -> Seq<char> {
        match self {
            AppError::InvalidScreen(screen) => "Invalid screen passed as argument "@
                + screen.name_text(),
            AppError::FeedTransport(reported) =>
                "[FailedFeedRequest::UnknownError]\n*\tFailed to request feed\n*\t"@ + reported@,
            AppError::FeedStatusNotOk(reported) =>
                "[FailedFeedRequest::StatusNotOk]\n*\tRequest returned with non-OK status\n*\t"@
                + reported@,
            AppError::Download(reported) => reported@,
            AppError::Split(reported) => reported@,
            AppError::Persistence(reported) => reported@,
            AppError::ReplyPreparation(reported) => reported@,
            AppError::MailingListsFetch(reported) => reported@,
            AppError::OutOfTurn => "A step of the consolidation was reported out of turn"@,
        }
    }

    /// The message that goes with the failure.
    pub fn message(&self) -> (text: String)
        ensures
            text@ == self.message_text(),
    {
        match self {
            AppError::InvalidScreen(screen) => String::from_str(
                "Invalid screen passed as argument ",
            ).concat(screen.name()),
            AppError::FeedTransport(reported) => String::from_str(
                "[FailedFeedRequest::UnknownError]\n*\tFailed to request feed\n*\t",
            ).concat(reported.as_str()),
            AppError::FeedStatusNotOk(reported) => String::from_str(
                "[FailedFeedRequest::StatusNotOk]\n*\tRequest returned with non-OK status\n*\t",
            ).concat(reported.as_str()),
            AppError::Download(reported) => reported.clone(),
            AppError::Split(reported) => reported.clone(),
            AppError::Persistence(reported) => reported.clone(),
            AppError::ReplyPreparation(reported) => reported.clone(),
            AppError::MailingListsFetch(reported) => reported.clone(),
            AppError::OutOfTurn => String::from_str(
                "A step of the consolidation was reported out of turn",
            ),
        }
    }
}

} // verus!
