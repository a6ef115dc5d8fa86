//! Encrypted note records and their file attachments: the stored records,
//! the partial-update record, the merge between them, and the ownership
//! check the handlers run.
use vstd::prelude::*;

use crate::errors::APIError;

verus! {

/// A stored note.
#[derive(Debug)]
pub struct SecuredNote {
    pub id: i32,
    pub name: String,
    pub content: String,
    pub created_at: String,
    pub modified_at: String,
    pub color: String,
}

/// A partial update of a note: absent fields keep their stored value.
#[derive(Debug)]
pub struct SecuredNoteDto {
    pub name: Option<String>,
    pub content: Option<String>,
    pub color: Option<String>,
}

/// A stored file attachment record.
#[derive(Debug)]
pub struct File {
    pub id: i32,
    pub name: String,
    pub owner_id: i32,
    pub note_id: i32,
    pub size: i32,
    pub created_at: String,
    pub file_type: String,
}

/// The fields a caller supplies when attaching a file.
#[derive(Debug)]
pub struct FileDto {
    pub name: String,
    pub size: i32,
    pub file_type: String,
}

impl SecuredNote {
    /// Merge a partial update into this record: every present field
    /// replaces the stored one, absent fields and the identity and
    /// timestamp fields stay.
    pub fn apply_update(self, update: SecuredNoteDto) -> (r: SecuredNote)
        ensures
            r.id == self.id,
            r.created_at == self.created_at,
            r.modified_at == self.modified_at,
            r.name == (match update.name {
                Some(v) => v,
                None => self.name,
            }),
            r.content == (match update.content {
                Some(v) => v,
                None => self.content,
            }),
            r.color == (match update.color {
                Some(v) => v,
                None => self.color,
            }),
    {
        let SecuredNote { id, mut name, mut content, created_at, modified_at, mut color } = self;
        if let Some(v) = update.name {
            name = v;
        }
        if let Some(v) = update.color {
            color = v;
        }
        if let Some(v) = update.content {
            content = v;
        }
        SecuredNote { id, name, content, created_at, modified_at, color }
    }
}

/// Reject a note operation unless the note belongs to the requesting user.
pub fn validate_user_owns_secured_note(user_id: i32, note_owner_id: i32) -> (r: Result<
    (),
    APIError,
>)
    ensures
        r is Ok <==> note_owner_id == user_id,
        r matches Err(e) ==> e matches APIError::Unauthorized(m) && m@
            == "Note doesn't belong to user."@,
{
    if note_owner_id != user_id {
        return Err(APIError::Unauthorized("Note doesn't belong to user.".to_owned()));
    }
    Ok(())
}

} // verus!
