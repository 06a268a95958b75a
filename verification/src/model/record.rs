pub mod paginate;

use crate::model::demon::EmbeddedDemon;
use crate::model::player::Player;
use vstd::prelude::*;

verus! {

/// A copy of an optional text.
pub fn clone_text(text: &Option<String>) -> (copy: Option<String>)
    ensures
        copy == *text,
{
    match text {
        Some(value) => Some(value.clone()),
        None => None,
    }
}

/// How far the review of a record has come.
#[derive(Clone, Copy, Debug, PartialEq, Eq, Hash, Structural)]
pub enum RecordStatus {
    Submitted,
    Approved,
    Rejected,
}

/// A player's progress on a demon, as the store holds it.
#[derive(Debug, PartialEq, Eq)]
pub struct Record {
    pub id: i32,
    pub progress: i16,
    pub video: Option<String>,
    pub status: RecordStatus,
    pub player: Player,
    pub submitter: i32,
    pub demon: EmbeddedDemon,
}

impl Record {
    pub fn status(&self) -> (status: RecordStatus)
        ensures
            status == self.status,
    {
        self.status
    }

    pub fn progress(&self) -> (progress: i16)
        ensures
            progress == self.progress,
    {
        self.progress
    }
}

impl Clone for Record {
    fn clone(&self) -> (copy: Self)
        ensures
            copy == *self,
    {
        Record {
            id: self.id,
            progress: self.progress,
            video: clone_text(&self.video),
            status: self.status,
            player: self.player.clone(),
            submitter: self.submitter,
            demon: self.demon.clone(),
        }
    }
}

/// A claim of progress that has not been checked yet. It is never stored as it is:
/// it either becomes a record or is turned down.
#[derive(Debug, PartialEq, Eq)]
pub struct Submission {
    pub progress: i16,
    pub player: String,
    pub demon: String,
    pub video: Option<String>,
    pub verify_only: bool,
}

} // verus!
