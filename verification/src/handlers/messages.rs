use vstd::prelude::*;
use vstd::string::*;

use crate::errors::{APIError, Reply};
use crate::middleware::auth::Claims;

verus! {

/// A moment in time: seconds since the Unix epoch and the nanoseconds
/// within that second.
#[derive(Clone, Copy, Debug, PartialEq, Eq, Structural)]
pub struct Timestamp {
    pub secs: i64,
    pub nanos: u32,
}

/// A chat message, with its author's name.
pub struct Message {
    pub id: i32,
    pub room_id: i32,
    pub user_id: i32,
    pub username: String,
    pub content: String,
    pub created_at: Timestamp,
    pub deleted: i8,
}

/// The deletion flag of a message that has been deleted.
pub const DELETED_FLAG: i8 = 1;

/// The content that readers of a message see: the placeholder
/// "message deleted" once the message is marked deleted (flag 1),
/// otherwise what was written.
pub open spec fn shown_content(content: Seq<char>, deleted: i8) -> Seq<char> {
    if deleted == DELETED_FLAG {
        "message deleted"@
    } else {
        content
    }
}

/// `out` is the message `row` as readers see it.
pub open spec fn shown_as(out: Message, row: Message) -> bool {
    &&& out.id == row.id
    &&& out.room_id == row.room_id
    &&& out.user_id == row.user_id
    &&& out.username@ == row.username@
    &&& out.content@ == shown_content(row.content@, row.deleted)
    &&& out.created_at == row.created_at
    &&& out.deleted == row.deleted
}

/// A message as readers see it.
pub fn present_message(row: &Message) -> (out: Message)
    ensures
        shown_as(out, *row),
        row.deleted == 1 ==> out.content@ == "message deleted"@,
        row.deleted != 1 ==> out.content@ == row.content@,
{
    let content = if row.deleted == DELETED_FLAG {
        String::from_str("message deleted")
    } else {
        row.content.clone()
    };
    Message {
        id: row.id,
        room_id: row.room_id,
        user_id: row.user_id,
        username: row.username.clone(),
        content,
        created_at: row.created_at,
        deleted: row.deleted,
    }
}

/// The messages of a room as its readers get them, from the stored rows in
/// the order they were read (oldest first): same messages, same order, the
/// content of deleted ones replaced by the placeholder.
pub fn get_messages(rows: &Vec<Message>) -> (r: Vec<Message>)
    ensures
        r.len() == rows.len(),
        forall|i: int| 0 <= i < rows.len() ==> shown_as(#[trigger] r@[i], rows@[i]),
        forall|i: int|
            0 <= i < rows.len() && rows@[i].deleted != 1 ==> #[trigger] r@[i].content@
                == rows@[i].content@,
        forall|i: int|
            0 <= i < rows.len() && rows@[i].deleted == 1 ==> #[trigger] r@[i].content@
                == "message deleted"@,
{
    let mut out: Vec<Message> = Vec::new();
    let mut i: usize = 0;
    while i < rows.len()
        invariant
            i <= rows.len(),
            out.len() == i,
            forall|j: int| 0 <= j < i ==> shown_as(#[trigger] out@[j], rows@[j]),
        decreases rows.len() - i,
    {
        let m = present_message(&rows[i]);
        out.push(m);
        i = i + 1;
    }
    proof {
        lemma_message_content_shown(rows@);
    }
    out
}

/// What a deletion decides, given the author of the message (if it
/// exists): only its author may delete it.
pub fn delete_message(claims: &Claims, author: Option<i32>) -> (r: Result<(), APIError>)
    ensures
        r == (match author {
            None => Err(APIError::NotFound),
            Some(a) => if a == claims.sub {
                Ok(())
            } else {
                Err(APIError::Unauthorized)
            },
        }),
{
    match author {
        Some(a) => {
            if a != claims.sub {
                return Err(APIError::Unauthorized);
            }
        },
        None => return Err(APIError::NotFound),
    }
    Ok(())
}

/// The answer once a message is marked deleted.
pub fn message_deleted() -> (r: Reply)
    ensures
        r.status == 200,
        r.body@ == "Deleted message"@,
{
    Reply { status: 200, body: "Deleted message" }
}

/// Once a message is marked deleted (its flag set to `DELETED_FLAG`, as
/// the deletion writes it), readers get the placeholder instead of its text.
pub proof fn lemma_deleted_message_hidden(row: Message, out: Message)
    requires
        row.deleted == DELETED_FLAG,
        shown_as(out, row),
    ensures
        out.content@ == "message deleted"@,
        out.id == row.id,
{
}

/// Readers see a message's own text unless its deletion flag is 1, and the
/// placeholder "message deleted" exactly when it is 1, whatever the text.
pub proof fn lemma_shown_content(content: Seq<char>, deleted: i8)
    ensures
        deleted != 1 ==> shown_content(content, deleted) == content,
        deleted == 1 ==> shown_content(content, deleted) == "message deleted"@,
{
}

/// Every message read from `rows` shows its own text unless it is flagged
/// deleted (1), and the placeholder when it is.
pub proof fn lemma_message_content_shown(rows: Seq<Message>)
    ensures
        forall|out: Message, i: int|
            0 <= i < rows.len() && #[trigger] shown_as(out, rows[i]) ==> (rows[i].deleted != 1
                ==> out.content@ == rows[i].content@) && (rows[i].deleted == 1 ==> out.content@
                == "message deleted"@),
{
}

} // verus!
