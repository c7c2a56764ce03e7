use vstd::prelude::*;

use crate::errors::{APIError, Reply};
use crate::handlers::messages::Timestamp;
use crate::middleware::auth::Claims;

verus! {

/// A chat room. `is_private` is 0 for a public room and 1 for a room open
/// only to its members.
pub struct Room {
    pub id: i32,
    pub name: String,
    pub created_by: i32,
    pub is_private: i8,
    pub created_at: Timestamp,
}

/// The body of a request to create a room.
pub struct CreateRoomRequest {
    pub name: String,
    pub is_private: bool,
}

/// The body of a request to invite a user into a room.
pub struct InviteRequest {
    pub username: String,
}

/// A room to be stored.
pub struct NewRoom {
    pub name: String,
    pub created_by: i32,
    pub is_private: bool,
}

/// A user's membership of a room.
#[derive(Clone, Copy, Debug, PartialEq, Eq, Structural)]
pub struct Membership {
    pub room_id: i32,
    pub user_id: i32,
}

/// A room as the specifications see it.
pub struct RoomView {
    pub id: i32,
    pub name: Seq<char>,
    pub created_by: i32,
    pub is_private: i8,
    pub created_at: Timestamp,
}

impl View for Room {
    type V = RoomView;

    open spec fn view(&self) -> RoomView {
        RoomView {
            id: self.id,
            name: self.name@,
            created_by: self.created_by,
            is_private: self.is_private,
            created_at: self.created_at,
        }
    }
}

/// A room is listed to user `user` when it is public, or private and
/// `members` holds the user's membership of it.
pub open spec fn listed_to(room: RoomView, members: Seq<Membership>, user: i32) -> bool {
    room.is_private == 0 || (room.is_private == 1 && members.contains(
        Membership { room_id: room.id, user_id: user },
    ))
}

/// The rooms of `rooms` that are listed to a user, in their order.
pub open spec fn listed_rooms(rooms: Seq<RoomView>, members: Seq<Membership>, user: i32) -> Seq<
    RoomView,
>
    decreases rooms.len(),
{
    if rooms.len() == 0 {
        seq![]
    } else {
        let before = listed_rooms(rooms.drop_last(), members, user);
        if listed_to(rooms.last(), members, user) {
            before.push(rooms.last())
        } else {
            before
        }
    }
}

/// The views of a list of rooms.
pub open spec fn room_views(rooms: Seq<Room>) -> Seq<RoomView> {
    rooms.map_values(|r: Room| r@)
}

fn contains_membership(members: &Vec<Membership>, m: Membership) -> (r: bool)
    ensures
        r == members@.contains(m),
{
    let mut i: usize = 0;
    while i < members.len()
        invariant
            i <= members.len(),
            forall|j: int| 0 <= j < i ==> members@[j] != m,
        decreases members.len() - i,
    {
        if members[i].room_id == m.room_id && members[i].user_id == m.user_id {
            assert(members@[i as int] == m);
            return true;
        }
        i = i + 1;
    }
    false
}

fn copy_room(room: &Room) -> (r: Room)
    ensures
        r@ == room@,
{
    Room {
        id: room.id,
        name: room.name.clone(),
        created_by: room.created_by,
        is_private: room.is_private,
        created_at: room.created_at,
    }
}

/// The rooms listed to the user of `claims`, from the stored rooms and
/// room memberships: every public room and the private rooms the user is a
/// member of, in the order given.
pub fn get_all_rooms(claims: &Claims, rooms: &Vec<Room>, members: &Vec<Membership>) -> (r: Vec<
    Room,
>)
    ensures
        room_views(r@) == listed_rooms(room_views(rooms@), members@, claims.sub),
{
    let mut out: Vec<Room> = Vec::new();
    let mut i: usize = 0;
    while i < rooms.len()
        invariant
            i <= rooms.len(),
            room_views(out@) == listed_rooms(room_views(rooms@).take(i as int), members@, claims.sub),
        decreases rooms.len() - i,
    {
        let room = &rooms[i];
        let listed = room.is_private == 0 || (room.is_private == 1 && contains_membership(
            members,
            Membership { room_id: room.id, user_id: claims.sub },
        ));
        let ghost before = out@;
        assert(room_views(rooms@).take(i + 1).drop_last() =~= room_views(rooms@).take(i as int));
        assert(room_views(rooms@).take(i + 1).last() == room@);
        if listed {
            let copy = copy_room(room);
            out.push(copy);
            assert(room_views(out@) =~= room_views(before).push(room@));
        }
        i = i + 1;
    }
    assert(room_views(rooms@).take(rooms.len() as int) =~= room_views(rooms@));
    out
}

/// What a room lookup decides: the room, or `NotFound`.
pub fn get_room(found: Option<Room>) -> (r: Result<Room, APIError>)
    ensures
        (match found {
            Some(room) => r matches Ok(x) && x@ == room@,
            None => r matches Err(e) && e == APIError::NotFound,
        }),
{
    match found {
        Some(room) => Ok(room),
        None => Err(APIError::NotFound),
    }
}

/// The room that a creation request stores: created by the requester.
pub fn create_room(claims: &Claims, data: CreateRoomRequest) -> (r: NewRoom)
    ensures
        r.name@ == data.name@,
        r.created_by == claims.sub,
        r.is_private == data.is_private,
{
    NewRoom { name: data.name, created_by: claims.sub, is_private: data.is_private }
}

/// The membership stored with a new room: its creator joins it.
pub fn creator_membership(claims: &Claims, room_id: i32) -> (r: Membership)
    ensures
        r == (Membership { room_id, user_id: claims.sub }),
{
    Membership { room_id, user_id: claims.sub }
}

/// The answer once a room and its creator's membership are stored.
pub fn room_created() -> (r: Reply)
    ensures
        r.status == 201,
        r.body@ == "Room created"@,
{
    Reply { status: 201, body: "Room created" }
}

/// The outcome of the room check of an invitation, given the creator of
/// the room (if it exists).
pub open spec fn inviter_check(sub: i32, room_creator: Option<i32>) -> Result<(), APIError> {
    match room_creator {
        None => Err(APIError::NotFound),
        Some(c) => if c == sub {
            Ok(())
        } else {
            Err(APIError::Unauthorized)
        },
    }
}

/// The room check of an invitation: the room must exist and the requester
/// must be its creator.
pub fn check_inviter(claims: &Claims, room_creator: Option<i32>) -> (r: Result<(), APIError>)
    ensures
        r == inviter_check(claims.sub, room_creator),
        r is Ok <==> room_creator == Some(claims.sub),
        room_creator is None ==> r == Err::<(), APIError>(APIError::NotFound),
        room_creator is Some && room_creator != Some(claims.sub) ==> r == Err::<(), APIError>(
            APIError::Unauthorized,
        ),
{
    match room_creator {
        None => Err(APIError::NotFound),
        Some(c) => if c == claims.sub {
            Ok(())
        } else {
            Err(APIError::Unauthorized)
        },
    }
}

/// The outcome of an invitation into room `room_id`, given the creator of
/// the room (if it exists) and the id of the invited user (if that user
/// exists).
pub open spec fn invitation(sub: i32, room_id: i32, room_creator: Option<i32>, invitee: Option<
    i32,
>) -> Result<Membership, APIError> {
    match inviter_check(sub, room_creator) {
        Err(e) => Err(e),
        Ok(_) => match invitee {
            None => Err(APIError::NotFound),
            Some(u) => Ok(Membership { room_id, user_id: u }),
        },
    }
}

/// What an invitation decides: `NotFound` when the room does not exist,
/// `Unauthorized` when the requester did not create it, `NotFound` when the
/// invited user does not exist, otherwise the membership to store.
pub fn invite_user(claims: &Claims, room_id: i32, room_creator: Option<i32>, invitee: Option<i32>) -> (r:
    Result<Membership, APIError>)
    ensures
        r == invitation(claims.sub, room_id, room_creator, invitee),
        room_creator == Some(claims.sub) && invitee is Some ==> r == Ok::<Membership, APIError>(
            Membership { room_id, user_id: invitee->Some_0 },
        ),
        room_creator is None ==> r == Err::<Membership, APIError>(APIError::NotFound),
        room_creator is Some && room_creator != Some(claims.sub) ==> r == Err::<
            Membership,
            APIError,
        >(APIError::Unauthorized),
        room_creator == Some(claims.sub) && invitee is None ==> r == Err::<Membership, APIError>(
            APIError::NotFound,
        ),
{
    proof {
        lemma_invitation(claims.sub, room_id, room_creator, invitee);
    }
    check_inviter(claims, room_creator)?;
    match invitee {
        None => Err(APIError::NotFound),
        Some(user_id) => Ok(Membership { room_id, user_id }),
    }
}

/// The answer once the membership is stored (or was already there).
pub fn user_invited() -> (r: Reply)
    ensures
        r.status == 200,
        r.body@ == "User invited"@,
{
    Reply { status: 200, body: "User invited" }
}

/// Every room listed to a user is one of the stored rooms and is public or
/// has the user as a member; every stored room that is public, or private
/// with the user as a member, is listed.
pub proof fn lemma_listed_rooms_exact(rooms: Seq<RoomView>, members: Seq<Membership>, user: i32)
    ensures
        forall|r: RoomView| #[trigger]
            listed_rooms(rooms, members, user).contains(r) ==> rooms.contains(r) && listed_to(
                r,
                members,
                user,
            ),
        forall|r: RoomView|
            rooms.contains(r) && listed_to(r, members, user) ==> #[trigger] listed_rooms(
                rooms,
                members,
                user,
            ).contains(r),
    decreases rooms.len(),
{
    if rooms.len() > 0 {
        let rest = rooms.drop_last();
        lemma_listed_rooms_exact(rest, members, user);
        let before = listed_rooms(rest, members, user);
        assert forall|r: RoomView| #[trigger]
            listed_rooms(rooms, members, user).contains(r) implies rooms.contains(r) && listed_to(
            r,
            members,
            user,
        ) by {
            if before.contains(r) {
                let k = choose|k: int| 0 <= k < rest.len() && rest[k] == r;
                assert(rooms[k] == r);
            } else {
                let l = listed_rooms(rooms, members, user);
                let k = choose|k: int| 0 <= k < l.len() && l[k] == r;
                assert(listed_to(rooms.last(), members, user));
                assert(l == before.push(rooms.last()));
                assert(k == before.len());
                assert(rooms[rooms.len() - 1] == r);
            }
        }
        assert forall|r: RoomView|
            rooms.contains(r) && listed_to(r, members, user) implies #[trigger] listed_rooms(
            rooms,
            members,
            user,
        ).contains(r) by {
            let k = choose|k: int| 0 <= k < rooms.len() && rooms[k] == r;
            let l = listed_rooms(rooms, members, user);
            if k < rooms.len() - 1 {
                assert(rest[k] == r);
                assert(before.contains(r));
                let j = choose|j: int| 0 <= j < before.len() && before[j] == r;
                if listed_to(rooms.last(), members, user) {
                    assert(l[j] == r);
                } else {
                    assert(l[j] == r);
                }
            } else {
                assert(l == before.push(rooms.last()));
                assert(l[before.len() as int] == r);
            }
        }
    }
}

/// Only the creator of a room can invite into it, and an invitation adds
/// exactly the invited user to exactly that room.
pub proof fn lemma_only_creator_invites(
    sub: i32,
    room_id: i32,
    room_creator: Option<i32>,
    invitee: Option<i32>,
)
    ensures
        invitation(sub, room_id, room_creator, invitee) is Ok ==> room_creator == Some(sub)
            && invitee is Some,
        invitation(sub, room_id, room_creator, invitee) matches Ok(m) ==> m.room_id == room_id
            && Some(m.user_id) == invitee,
        room_creator matches Some(c) && c != sub ==> invitation(sub, room_id, room_creator, invitee)
            == Err::<Membership, APIError>(APIError::Unauthorized),
{
}

/// The `is_private` flag stored for a room created with `is_private`.
pub open spec fn privacy_flag(is_private: bool) -> i8 {
    if is_private {
        1
    } else {
        0
    }
}

/// A user whose invitation into a room was stored sees that room listed,
/// whether it is public or private.
pub proof fn lemma_invited_user_sees_room(
    rooms: Seq<RoomView>,
    members: Seq<Membership>,
    room: RoomView,
    sub: i32,
    room_creator: Option<i32>,
    invitee: Option<i32>,
    m: Membership,
)
    requires
        invitation(sub, room.id, room_creator, invitee) == Ok::<Membership, APIError>(m),
        members.contains(m),
        rooms.contains(room),
        room.is_private == 0 || room.is_private == 1,
    ensures
        listed_rooms(rooms, members, m.user_id).contains(room),
{
    lemma_listed_rooms_exact(rooms, members, m.user_id);
}

/// The creator of a room, once the room and the creator's membership are
/// stored, sees it listed; a private room is not listed to a user who holds
/// no membership of it.
pub proof fn lemma_new_room_listing(
    rooms: Seq<RoomView>,
    members: Seq<Membership>,
    room: RoomView,
    new_room: NewRoom,
    sub: i32,
    other: i32,
)
    requires
        new_room.created_by == sub,
        room.created_by == new_room.created_by,
        room.is_private == privacy_flag(new_room.is_private),
        rooms.contains(room),
        members.contains(Membership { room_id: room.id, user_id: sub }),
    ensures
        listed_rooms(rooms, members, sub).contains(room),
        new_room.is_private && !members.contains(Membership { room_id: room.id, user_id: other })
            ==> !listed_rooms(rooms, members, other).contains(room),
{
    lemma_listed_rooms_exact(rooms, members, sub);
    lemma_listed_rooms_exact(rooms, members, other);
}

/// What an invitation gives for every combination of inputs: the creator
/// of an existing room inviting an existing user gets exactly that user's
/// membership of that room, whatever the ids; a missing room or invitee is
/// `NotFound`; anyone but the creator is `Unauthorized`.
pub proof fn lemma_invitation(sub: i32, room_id: i32, room_creator: Option<i32>, invitee: Option<i32>)
    ensures
        room_creator == Some(sub) && invitee is Some ==> invitation(
            sub,
            room_id,
            room_creator,
            invitee,
        ) == Ok::<Membership, APIError>(Membership { room_id, user_id: invitee->Some_0 }),
        room_creator is None ==> invitation(sub, room_id, room_creator, invitee) == Err::<
            Membership,
            APIError,
        >(APIError::NotFound),
        room_creator is Some && room_creator != Some(sub) ==> invitation(
            sub,
            room_id,
            room_creator,
            invitee,
        ) == Err::<Membership, APIError>(APIError::Unauthorized),
        room_creator == Some(sub) && invitee is None ==> invitation(
            sub,
            room_id,
            room_creator,
            invitee,
        ) == Err::<Membership, APIError>(APIError::NotFound),
        inviter_check(sub, room_creator) is Ok <==> room_creator == Some(sub),
{
}

/// A room is listed to a user exactly when it is one of the stored rooms
/// and either public (flag 0) or private (flag 1) with a stored membership
/// of that user in it.
pub proof fn lemma_listing(rooms: Seq<RoomView>, members: Seq<Membership>, user: i32)
    ensures
        forall|r: RoomView| #[trigger]
            listed_rooms(rooms, members, user).contains(r) <==> rooms.contains(r) && (r.is_private
                == 0 || (r.is_private == 1 && members.contains(
                Membership { room_id: r.id, user_id: user },
            ))),
{
    lemma_listed_rooms_exact(rooms, members, user);
}

} // verus!
