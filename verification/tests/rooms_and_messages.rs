use backend::errors::APIError;
use backend::handlers::messages::{delete_message, get_messages, message_deleted, Message, Timestamp};
use backend::handlers::rooms::{
    check_inviter, create_room, creator_membership, get_all_rooms, get_room, invite_user,
    room_created, user_invited, CreateRoomRequest, Membership, Room,
};
use backend::middleware::auth::Claims;

fn ts(secs: i64) -> Timestamp {
    Timestamp { secs, nanos: 0 }
}

fn msg(id: i32, content: &str, deleted: i8) -> Message {
    Message {
        id,
        room_id: 3,
        user_id: 4,
        username: "ann".to_string(),
        content: content.to_string(),
        created_at: ts(100 + id as i64),
        deleted,
    }
}

fn room(id: i32, is_private: i8) -> Room {
    Room { id, name: format!("r{}", id), created_by: 1, is_private, created_at: ts(5) }
}

#[test]
fn deleted_messages_show_a_placeholder() {
    let rows = vec![msg(1, "hello", 0), msg(2, "secret", 1), msg(3, "other", 2)];
    let shown = get_messages(&rows);
    assert_eq!(shown.len(), 3);
    assert_eq!(shown[0].content, "hello");
    assert_eq!(shown[1].content, "message deleted");
    assert_eq!(shown[1].deleted, 1);
    assert_eq!(shown[2].content, "other");
    assert_eq!(shown[1].id, 2);
    assert_eq!(shown[1].username, "ann");
    assert_eq!(shown[1].created_at, ts(102));
    assert!(get_messages(&Vec::new()).is_empty());
}

#[test]
fn only_the_author_deletes() {
    let claims = Claims { sub: 4, exp: 0 };
    assert_eq!(delete_message(&claims, Some(4)), Ok(()));
    assert_eq!(delete_message(&claims, Some(5)), Err(APIError::Unauthorized));
    assert_eq!(delete_message(&claims, None), Err(APIError::NotFound));
    let reply = message_deleted();
    assert_eq!((reply.status, reply.body), (200, "Deleted message"));
}

#[test]
fn private_rooms_are_listed_to_members_only() {
    let rooms = vec![room(1, 0), room(2, 1), room(3, 1), room(4, 0), room(5, 2)];
    let members = vec![
        Membership { room_id: 3, user_id: 9 },
        Membership { room_id: 2, user_id: 8 },
        Membership { room_id: 5, user_id: 9 },
    ];
    let listed = get_all_rooms(&Claims { sub: 9, exp: 0 }, &rooms, &members);
    let ids: Vec<i32> = listed.iter().map(|r| r.id).collect();
    assert_eq!(ids, vec![1, 3, 4]);
    assert_eq!(listed[1].name, "r3");
    let listed = get_all_rooms(&Claims { sub: 8, exp: 0 }, &rooms, &members);
    let ids: Vec<i32> = listed.iter().map(|r| r.id).collect();
    assert_eq!(ids, vec![1, 2, 4]);
}

#[test]
fn room_lookup() {
    assert_eq!(get_room(Some(room(1, 0))).map(|r| r.id), Ok(1));
    assert!(matches!(get_room(None), Err(APIError::NotFound)));
}

#[test]
fn creator_owns_and_joins_new_room() {
    let claims = Claims { sub: 11, exp: 0 };
    let new_room = create_room(&claims, CreateRoomRequest { name: "lobby".to_string(), is_private: true });
    assert_eq!(new_room.name, "lobby");
    assert_eq!(new_room.created_by, 11);
    assert!(new_room.is_private);
    assert_eq!(creator_membership(&claims, 30), Membership { room_id: 30, user_id: 11 });
    let reply = room_created();
    assert_eq!((reply.status, reply.body), (201, "Room created"));
}

#[test]
fn only_the_creator_invites() {
    let claims = Claims { sub: 1, exp: 0 };
    assert_eq!(check_inviter(&claims, Some(1)), Ok(()));
    assert_eq!(check_inviter(&claims, Some(2)), Err(APIError::Unauthorized));
    assert_eq!(check_inviter(&claims, None), Err(APIError::NotFound));
    assert_eq!(invite_user(&claims, 6, Some(1), Some(5)), Ok(Membership { room_id: 6, user_id: 5 }));
    assert_eq!(invite_user(&claims, 6, Some(1), None), Err(APIError::NotFound));
    assert_eq!(invite_user(&claims, 6, Some(2), Some(5)), Err(APIError::Unauthorized));
    assert_eq!(invite_user(&claims, 6, None, Some(5)), Err(APIError::NotFound));
    let reply = user_invited();
    assert_eq!((reply.status, reply.body), (200, "User invited"));
}
