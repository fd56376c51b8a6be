//! The inbound activity queue and the dispatcher that drains it.
//!
//! The queue is the sole authority on ordering: every entry gets the
//! next sequence number at insertion, and a drain pass processes
//! entries in strictly ascending sequence order, deleting each entry
//! after one attempt whether the attempt succeeded or failed. Nothing
//! deduplicates: delivering the same activity twice queues it twice.

use vstd::prelude::*;

use crate::json::{json_parse_check, json_parses, json_str_field, json_str_field_read};
use crate::models::{Activity, NewActivity, ActivityFormatError, FieldName};
use crate::text::lower;

verus! {

/// The `object` field of an activity, as far as dispatch reads it: a
/// string, or present with any other shape.
#[derive(Debug, Clone, PartialEq)]
pub enum ObjectField {
    Str(String),
    Other,
}

/// Why one queue entry failed to dispatch.
#[derive(Debug, Clone, PartialEq)]
pub enum DispatchError {
    /// The entry's JSON is missing or mis-typing a required field.
    Format(ActivityFormatError),
    /// The declared type has no handler; carries the lowercased type.
    UnsupportedActivityType(String),
    /// A Follow whose object is some other actor than this server's.
    TargetMismatch,
}

/// The durable, ordered store of accepted activities awaiting
/// processing.
#[derive(Debug)]
pub struct Queue {
    entries: Vec<Activity>,
    next_rowid: i32,
}

impl View for Queue {
    type V = Seq<Activity>;

    closed spec fn view(&self) -> Seq<Activity> {
        self.entries@
    }
}

impl Queue {
    /// The sequence number the next inserted entry will get.
    pub closed spec fn next_seq(&self) -> int {
        self.next_rowid as int
    }

    /// Entries carry strictly increasing sequence numbers in store
    /// order, all below the next number to be assigned.
    pub open spec fn wf(&self) -> bool {
        &&& forall|i: int, j: int|
            0 <= i < j < self@.len() ==> self@[i].rowid < self@[j].rowid
        &&& forall|i: int| 0 <= i < self@.len() ==> self@[i].rowid < self.next_seq()
    }

    /// An empty queue whose first entry will get sequence number 1.
    pub fn new() -> (q: Queue)
        ensures
            q@ == Seq::<Activity>::empty(),
            q.next_seq() == 1,
            q.wf(),
    {
        Queue { entries: Vec::new(), next_rowid: 1 }
    }

    pub fn len(&self) -> (n: usize)
        ensures
            n == self@.len(),
    {
        self.entries.len()
    }

    /// A borrowed look at the stored entries, in sequence order.
    pub fn entries(&self) -> (r: &Vec<Activity>)
        ensures
            r@ == self@,
    {
        &self.entries
    }

    /// The sequence number the next entry will get, as a value.
    pub fn next_sequence(&self) -> (n: i32)
        ensures
            n as int == self.next_seq(),
    {
        self.next_rowid
    }

    /// Appends an activity unconditionally — duplicate external ids
    /// make duplicate entries — and returns its assigned sequence
    /// number.
    pub fn enqueue(&mut self, activity: NewActivity) -> (rowid: i32)
        requires
            old(self).wf(),
            old(self).next_seq() < i32::MAX as int,
        ensures
            rowid as int == old(self).next_seq(),
            final(self)@ == old(self)@.push(
                (Activity { rowid, id: activity.id, json: activity.json }),
            ),
            final(self).next_seq() == old(self).next_seq() + 1,
            final(self).wf(),
    {
        let rowid = self.next_rowid;
        self.entries.push(Activity { rowid, id: activity.id, json: activity.json });
        self.next_rowid = self.next_rowid + 1;
        rowid
    }
}

/// Entries stand in strictly ascending sequence order.
pub open spec fn ordered(entries: Seq<Activity>) -> bool {
    forall|i: int, j: int| 0 <= i < j < entries.len() ==> entries[i].rowid < entries[j].rowid
}

impl Queue {
    /// Rebuilds a queue from entries read back out of durable storage.
    /// Succeeds exactly when the entries stand in strictly ascending
    /// sequence order with room left to number the next arrival; the
    /// next sequence number continues after the last entry.
    pub fn restore(entries: Vec<Activity>) -> (r: Result<Queue, ()>)
        ensures
            r is Ok <==> (ordered(entries@) && (entries@.len() > 0 ==> entries@.last().rowid
                < i32::MAX)),
            r matches Ok(q) ==> q@ == entries@ && q.wf() && (if entries@.len() == 0 {
                q.next_seq() == 1
            } else {
                q.next_seq() == entries@.last().rowid + 1
            }),
    {
        let n = entries.len();
        let mut i: usize = 1;
        while i < n
            invariant
                1 <= i || n == 0,
                i <= n || n == 0,
                n == entries@.len(),
                forall|p: int, q: int| 0 <= p < q < i ==> entries@[p].rowid < entries@[q].rowid,
            decreases n - i,
        {
            if entries[i - 1].rowid >= entries[i].rowid {
                proof {
                    assert(!ordered(entries@));
                }
                return Err(());
            }
            i = i + 1;
        }
        let next_rowid: i32;
        if n == 0 {
            next_rowid = 1;
        } else {
            let last = entries[n - 1].rowid;
            if last == i32::MAX {
                return Err(());
            }
            next_rowid = last + 1;
        }
        Ok(Queue { entries, next_rowid })
    }
}

/// Law: nothing deduplicates deliveries. Starting from any queue, two
/// insertions whose activities carry the same external id — each step
/// related to the previous state exactly as `enqueue` promises — leave
/// two distinct entries with that id, under different sequence numbers.
pub proof fn lemma_duplicate_delivery_queues_twice(
    q0: Queue,
    q1: Queue,
    q2: Queue,
    a1: NewActivity,
    a2: NewActivity,
    r1: i32,
    r2: i32,
)
    requires
        q0.wf(),
        r1 as int == q0.next_seq(),
        q1@ == q0@.push((Activity { rowid: r1, id: a1.id, json: a1.json })),
        q1.next_seq() == q0.next_seq() + 1,
        r2 as int == q1.next_seq(),
        q2@ == q1@.push((Activity { rowid: r2, id: a2.id, json: a2.json })),
        a2.id == a1.id,
    ensures
        q2@.len() == q0@.len() + 2,
        q2@[q2@.len() - 2].id == a1.id,
        q2@[q2@.len() - 1].id == a1.id,
        q2@[q2@.len() - 2].rowid != q2@[q2@.len() - 1].rowid,
{
}

/// Reads the fields dispatch needs out of one entry's JSON: the
/// declared `type` and `actor` (both strings), and the shape of
/// `object`, which may be any value.
fn activity_fields(payload: &str) -> (r: Result<(String, ObjectField), DispatchError>)
    ensures
        !json_parses(payload@) ==> r == Err::<(String, ObjectField), _>(
            DispatchError::Format(ActivityFormatError::MalformedJson),
        ),
        json_parses(payload@) ==> match json_str_field(payload@, "type"@) {
            None => r == Err::<(String, ObjectField), _>(
                DispatchError::Format(ActivityFormatError::Missing(FieldName::Type)),
            ),
            Some(None) => r == Err::<(String, ObjectField), _>(
                DispatchError::Format(ActivityFormatError::NonString(FieldName::Type)),
            ),
            Some(Some(t)) => match json_str_field(payload@, "actor"@) {
                None => r == Err::<(String, ObjectField), _>(
                    DispatchError::Format(ActivityFormatError::Missing(FieldName::Actor)),
                ),
                Some(None) => r == Err::<(String, ObjectField), _>(
                    DispatchError::Format(ActivityFormatError::NonString(FieldName::Actor)),
                ),
                Some(Some(_)) => match json_str_field(payload@, "object"@) {
                    None => r == Err::<(String, ObjectField), _>(
                        DispatchError::Format(ActivityFormatError::Missing(FieldName::Object)),
                    ),
                    Some(None) => r matches Ok(f) && f.0@ == t && f.1 == ObjectField::Other,
                    Some(Some(o)) => r matches Ok(f) && f.0@ == t && (f.1 matches
                        ObjectField::Str(s) && s@ == o),
                },
            },
        },
{
    if !json_parse_check(payload) {
        return Err(DispatchError::Format(ActivityFormatError::MalformedJson));
    }
    let typ = match json_str_field_read(payload, "type") {
        None => {
            return Err(DispatchError::Format(ActivityFormatError::Missing(FieldName::Type)));
        },
        Some(None) => {
            return Err(DispatchError::Format(ActivityFormatError::NonString(FieldName::Type)));
        },
        Some(Some(typ)) => typ,
    };
    match json_str_field_read(payload, "actor") {
        None => {
            return Err(DispatchError::Format(ActivityFormatError::Missing(FieldName::Actor)));
        },
        Some(None) => {
            return Err(DispatchError::Format(ActivityFormatError::NonString(FieldName::Actor)));
        },
        Some(Some(_)) => {},
    }
    let object = match json_str_field_read(payload, "object") {
        None => {
            return Err(DispatchError::Format(ActivityFormatError::Missing(FieldName::Object)));
        },
        Some(None) => ObjectField::Other,
        Some(Some(s)) => ObjectField::Str(s),
    };
    Ok((typ, object))
}

/// Decides what to do with an activity of declared type `typ` and
/// object `object`: a Follow of this server's actor succeeds (the
/// recorded-follower side effect is the declared extension point); a
/// Follow of anyone else is a target mismatch; every other type is
/// unsupported.
pub fn dispatch(typ: &str, object: &ObjectField, actor_url: &str) -> (r: Result<
    (),
    DispatchError,
>)
    ensures
        lower(typ@) == "follow"@ ==> (match object {
            ObjectField::Str(s) => if s@ == actor_url@ {
                r is Ok
            } else {
                r == Err::<(), _>(DispatchError::TargetMismatch)
            },
            ObjectField::Other => r == Err::<(), _>(
                DispatchError::Format(ActivityFormatError::NonString(FieldName::Object)),
            ),
        }),
        lower(typ@) != "follow"@ ==> (r matches Err(e) && e matches
            DispatchError::UnsupportedActivityType(t) && t@ == lower(typ@)),
{
    let lowered = crate::text::to_lowercase(typ);
    if crate::text::str_eq(lowered.as_str(), "follow") {
        match object {
            ObjectField::Str(s) => {
                if crate::text::str_eq(s.as_str(), actor_url) {
                    // The recorded-follower store is the declared
                    // extension point; success is the contract.
                    Ok(())
                } else {
                    Err(DispatchError::TargetMismatch)
                }
            },
            ObjectField::Other => {
                Err(DispatchError::Format(ActivityFormatError::NonString(FieldName::Object)))
            },
        }
    } else {
        Err(DispatchError::UnsupportedActivityType(lowered))
    }
}

/// What processing one payload against the local actor's URL must
/// yield: unparseable text and missing or mis-typed `type`, `actor`
/// and `object` fields give their format errors, in that order of
/// complaint; then a Follow of the local actor succeeds, a Follow of
/// anyone else is a target mismatch, and every other lowercased type
/// is unsupported.
pub open spec fn activity_outcome(
    payload: Seq<char>,
    actor_url: Seq<char>,
    r: Result<(), DispatchError>,
) -> bool {
    if !json_parses(payload) {
        r == Err::<(), _>(DispatchError::Format(ActivityFormatError::MalformedJson))
    } else {
        match json_str_field(payload, "type"@) {
            None => r == Err::<(), _>(
                DispatchError::Format(ActivityFormatError::Missing(FieldName::Type)),
            ),
            Some(None) => r == Err::<(), _>(
                DispatchError::Format(ActivityFormatError::NonString(FieldName::Type)),
            ),
            Some(Some(t)) => match json_str_field(payload, "actor"@) {
                None => r == Err::<(), _>(
                    DispatchError::Format(ActivityFormatError::Missing(FieldName::Actor)),
                ),
                Some(None) => r == Err::<(), _>(
                    DispatchError::Format(ActivityFormatError::NonString(FieldName::Actor)),
                ),
                Some(Some(_)) => match json_str_field(payload, "object"@) {
                    None => r == Err::<(), _>(
                        DispatchError::Format(ActivityFormatError::Missing(FieldName::Object)),
                    ),
                    Some(None) => if lower(t) == "follow"@ {
                        r == Err::<(), _>(
                            DispatchError::Format(
                                ActivityFormatError::NonString(FieldName::Object),
                            ),
                        )
                    } else {
                        r matches Err(e) && e matches DispatchError::UnsupportedActivityType(u)
                            && u@ == lower(t)
                    },
                    Some(Some(o)) => if lower(t) == "follow"@ {
                        if o == actor_url {
                            r is Ok
                        } else {
                            r == Err::<(), _>(DispatchError::TargetMismatch)
                        }
                    } else {
                        r matches Err(e) && e matches DispatchError::UnsupportedActivityType(u)
                            && u@ == lower(t)
                    },
                },
            },
        }
    }
}

/// Processes one queue entry: re-parses its payload, reads `type`,
/// `actor` and `object`, and dispatches on the lowercased type.
pub fn handle_activity(activity: &Activity, actor_url: &str) -> (r: Result<(), DispatchError>)
    ensures
        activity_outcome(activity.json@, actor_url@, r),
{
    let (typ, object) = match activity_fields(activity.json.as_str()) {
        Ok(fields) => fields,
        Err(e) => {
            return Err(e);
        },
    };
    dispatch(typ.as_str(), &object, actor_url)
}

impl Queue {
    /// One drain pass: processes every entry in ascending sequence
    /// order and deletes each after its attempt, success or failure
    /// alike — there is no retry and no dead-letter store. Returns
    /// each removed entry with its outcome, in processing order.
    pub fn drain(&mut self, actor_url: &str) -> (outcomes: Vec<(Activity, Result<(), DispatchError>)>)
        requires
            old(self).wf(),
        ensures
            final(self)@ == Seq::<Activity>::empty(),
            final(self).next_seq() == old(self).next_seq(),
            final(self).wf(),
            outcomes@.len() == old(self)@.len(),
            forall|i: int| 0 <= i < outcomes@.len() ==> outcomes@[i].0 == old(self)@[i],
            forall|i: int|
                0 <= i < outcomes@.len() ==> activity_outcome(
                    old(self)@[i].json@,
                    actor_url@,
                    outcomes@[i].1,
                ),
    {
        let ghost initial = self@;
        let mut outcomes: Vec<(Activity, Result<(), DispatchError>)> = Vec::new();
        while self.entries.len() > 0
            invariant
                self.next_rowid == old(self).next_rowid,
                outcomes@.len() + self@.len() == initial.len(),
                forall|i: int| 0 <= i < outcomes@.len() ==> outcomes@[i].0 == initial[i],
                forall|i: int|
                    0 <= i < self@.len() ==> self@[i] == initial[outcomes@.len() + i],
                forall|i: int|
                    0 <= i < outcomes@.len() ==> activity_outcome(
                        initial[i].json@,
                        actor_url@,
                        outcomes@[i].1,
                    ),
            decreases self@.len(),
        {
            let activity = self.entries.remove(0);
            let outcome = handle_activity(&activity, actor_url);
            outcomes.push((activity, outcome));
        }
        outcomes
    }

    /// Accepts one delivered body after its signature has verified:
    /// the body must parse as JSON with a top-level string `id`, and
    /// then joins the queue under the next sequence number, its
    /// payload being the raw body text as delivered. A rejected body
    /// leaves the queue untouched.
    pub fn accept(&mut self, body: &str) -> (r: Result<i32, ActivityFormatError>)
        requires
            old(self).wf(),
            old(self).next_seq() < i32::MAX as int,
        ensures
            final(self).wf(),
            r matches Err(_) ==> *final(self) == *old(self),
            !json_parses(body@) ==> r == Err::<i32, _>(ActivityFormatError::MalformedJson),
            json_parses(body@) ==> match json_str_field(body@, "id"@) {
                None => r == Err::<i32, _>(ActivityFormatError::Missing(FieldName::Id)),
                Some(None) => r == Err::<i32, _>(ActivityFormatError::NonString(FieldName::Id)),
                Some(Some(id)) => r matches Ok(rowid) && rowid as int == old(self).next_seq()
                    && final(self).next_seq() == old(self).next_seq() + 1
                    && final(self)@.len() == old(self)@.len() + 1
                    && final(self)@.drop_last() == old(self)@
                    && final(self)@.last().rowid == rowid
                    && final(self)@.last().id@ == id
                    && final(self)@.last().json@ == body@,
            },
    {
        let new_activity = match NewActivity::from_json(body) {
            Ok(new_activity) => new_activity,
            Err(e) => {
                return Err(e);
            },
        };
        let rowid = self.enqueue(new_activity);
        proof {
            assert(self@.drop_last() =~= old(self)@);
        }
        Ok(rowid)
    }
}

} // verus!
