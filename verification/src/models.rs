//! The data model: stored posts and their bodies, and the inbound
//! activity queue's entries.

use vstd::prelude::*;

use crate::json::{json_parse_check, json_parses, json_str_field, json_str_field_read};

verus! {

/// One piece of a post body. Only HTML pieces render today.
#[derive(Debug, Clone, PartialEq)]
pub enum Piece {
    Html(String),
    MoreVariantsToCome,
}

/// A post body: an ordered list of pieces.
#[derive(Debug, Clone, PartialEq)]
pub struct Body {
    pub pieces: Vec<Piece>,
}

/// A stored post.
#[derive(Debug, Clone)]
pub struct Post {
    pub id: i32,
    pub uri_name: String,
    pub datetime: i32,
    pub title: String,
    pub body: Body,
}

/// A post not yet stored.
#[derive(Debug, Clone)]
pub struct NewPost {
    pub uri_name: String,
    pub title: String,
    pub body: Body,
}

/// One inbound queue entry: the store-assigned sequence number that
/// fixes processing order, the activity's own `id`, and its raw JSON.
#[derive(Debug, Clone)]
pub struct Activity {
    pub rowid: i32,
    pub id: String,
    pub json: String,
}

/// An accepted activity not yet queued: its external `id` and its raw
/// JSON text.
#[derive(Debug, Clone)]
pub struct NewActivity {
    pub id: String,
    pub json: String,
}

/// A field an activity must carry.
#[derive(Debug, Clone, Copy, PartialEq, Eq, Structural)]
pub enum FieldName {
    Id,
    Type,
    Actor,
    Object,
}

/// Why an activity's JSON was rejected before dispatch.
#[derive(Debug, Clone, Copy, PartialEq, Eq, Structural)]
pub enum ActivityFormatError {
    /// The text is not a JSON document.
    MalformedJson,
    /// A required field is absent.
    Missing(FieldName),
    /// A required field is present but not a string.
    NonString(FieldName),
}

impl NewActivity {
    /// Accepts one delivered activity body: the text must parse as
    /// JSON with a top-level string `id`. The kept payload is the raw
    /// body text exactly as delivered.
    pub fn from_json(body: &str) -> (r: Result<NewActivity, ActivityFormatError>)
        ensures
            !json_parses(body@) ==> r == Err::<NewActivity, _>(ActivityFormatError::MalformedJson),
            json_parses(body@) ==> match json_str_field(body@, "id"@) {
                None => r == Err::<NewActivity, _>(ActivityFormatError::Missing(FieldName::Id)),
                Some(None) => r == Err::<NewActivity, _>(
                    ActivityFormatError::NonString(FieldName::Id),
                ),
                Some(Some(id)) => r matches Ok(a) && a.id@ == id && a.json@ == body@,
            },
    {
        if !json_parse_check(body) {
            return Err(ActivityFormatError::MalformedJson);
        }
        let id = match json_str_field_read(body, "id") {
            None => {
                return Err(ActivityFormatError::Missing(FieldName::Id));
            },
            Some(None) => {
                return Err(ActivityFormatError::NonString(FieldName::Id));
            },
            Some(Some(id)) => id,
        };
        Ok(NewActivity { id, json: body.to_owned() })
    }
}

} // verus!
