use crate::types::{EncodedRoomTerrain, RoomObject, RoomStatus, RoomTerrain, UserInfo, UserWithId};
use std::collections::HashMap;
use vstd::prelude::*;

verus! {

/// The envelope of every answer: `ok` is 1 on success, and `error` tells what
/// went wrong otherwise. The caller checks it; the client does not.
#[derive(Debug)]
pub struct BaseData {
    pub ok: i32,
    pub error: Option<String>,
}

/// The answer to a sign-in.
#[derive(Debug)]
pub struct TokenData {
    pub base_data: BaseData,
    /// The new session token.
    pub token: Option<String>,
}

/// The answer to a search for a player.
#[derive(Debug)]
pub struct UserInfoData {
    pub base_data: BaseData,
    pub user: Option<UserInfo>,
}

/// The answer to the question for one's own name.
#[derive(Debug)]
pub struct MyNameData {
    pub base_data: BaseData,
    pub username: Option<String>,
}

/// The rooms of a player, owned and reserved, by shard.
#[derive(Debug)]
pub struct UserAllRoomsData {
    pub base_data: BaseData,
    pub shards: Option<HashMap<String, Vec<String>>>,
    pub reservations: Option<HashMap<String, Vec<String>>>,
}

/// The objects of a room and the players they belong to.
#[derive(Debug)]
pub struct RoomObjectsData {
    pub base_data: BaseData,
    pub objects: Option<Vec<RoomObject>>,
    pub users: Option<HashMap<String, UserWithId>>,
}

/// The terrain of a room, cell by cell.
#[derive(Debug)]
pub struct RoomTerrainData {
    pub base_data: BaseData,
    pub terrain: Option<Vec<RoomTerrain>>,
}

/// The terrain of a room in its encoded form.
#[derive(Debug)]
pub struct EncodedRoomTerrainData {
    pub base_data: BaseData,
    pub terrain: Option<Vec<EncodedRoomTerrain>>,
}

/// The status of a room.
#[derive(Debug)]
pub struct RoomStatusData {
    pub base_data: BaseData,
    pub rooms: Option<RoomStatus>,
}

} // verus!
