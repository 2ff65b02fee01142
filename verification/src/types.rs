use std::collections::HashMap;
use vstd::prelude::*;

verus! {

/// The badge that a player shows.
#[derive(Debug)]
pub struct Badge {
    pub kind: BadgeType,
    pub color1: String,
    pub color2: String,
    pub color3: String,
    pub param: i32,
    pub flip: bool,
    pub decoration: Option<String>,
}

/// The shape of a badge: one of the numbered stock shapes, or a pair of paths.
#[derive(Debug)]
pub enum BadgeType {
    Kind(i32),
    Path(BadgePath),
}

/// The two paths of a badge drawn by hand.
#[derive(Debug)]
pub struct BadgePath {
    pub path1: String,
    pub path2: String,
}

/// A player, by name.
#[derive(Debug)]
pub struct User {
    pub username: String,
    pub badge: Option<Badge>,
}

/// A player, by name and id.
#[derive(Debug)]
pub struct UserWithId {
    pub _id: String,
    pub username: String,
    pub badge: Option<Badge>,
}

/// What anyone may know of a player.
#[derive(Debug)]
pub struct UserInfo {
    pub _id: String,
    pub steam: Option<HashMap<String, String>>,
    pub username: String,
    pub gcl: u64,
    pub power: u64,
    pub badge: Option<Badge>,
}

/// How a player wants to be notified.
#[derive(Debug)]
pub struct NotifyPrefs {
    pub send_online: bool,
    pub disabled_on_messages: bool,
}

/// The account-wide resources of a player.
#[derive(Debug)]
pub struct GlobalResources {
    pub access_key: i32,
    pub pixel: i32,
    pub cpu_unlock: i32,
}

/// The Steam account behind a player.
#[derive(Debug)]
pub struct SteamAccount {
    pub id: String,
    pub display_name: String,
    pub ownership: Vec<i32>,
}

/// One cell of a room that is not plain ground.
#[derive(Debug)]
pub struct RoomTerrain {
    pub room: String,
    pub x: i32,
    pub y: i32,
    pub kind: String,
}

/// The terrain of a whole room as one string of digits.
#[derive(Debug)]
pub struct EncodedRoomTerrain {
    pub _id: String,
    pub room: String,
    pub terrain: String,
    pub kind: String,
}

/// Whether a room is open, and to whom.
#[derive(Debug)]
pub struct RoomStatus {
    pub _id: String,
    /// "normal" | "out of borders"
    pub status: String,
    pub respawn_area: Option<i32>,
    pub novice: Option<i32>,
}

/// What every object in a room has: an id, a place and a room.
#[derive(Debug)]
pub struct BaseObject {
    pub _id: String,
    pub x: i32,
    pub y: i32,
    pub room: String,
}

/// An object in a room, told apart by its kind. Kinds that this library does not know come as `Unknown`.
#[derive(Debug)]
pub enum RoomObject {
    Source(Source),
    Mineral(Mineral),
    ConstructedWall(ConstructedWall),
    Road(Road),
    Controller(Controller),
    Spawn(Spawn),
    Extension(Extension),
    Storage(Storage),
    Tower(Tower),
    Rampart(Rampart),
    Extractor(Extractor),
    Terminal(Terminal),
    Observer(Observer),
    PowerSpawn(PowerSpawn),
    Nuker(Nuker),
    Factory(Factory),
    Lab(Lab),
    Creep(Creep),
    PowerCreep(PowerCreep),
    Unknown,
}

/// A `Source`, as the server reports it among the objects of a room.
#[derive(Debug)]
pub struct Source {
    pub base_object: BaseObject,
    pub energy: i32,
    pub energy_capacity: i32,
    pub ticks_to_regeneration: i32,
    pub invader_harvested: i32,
    pub next_regeneration_time: Option<u64>,
}

/// A `Mineral`, as the server reports it among the objects of a room.
#[derive(Debug)]
pub struct Mineral {
    pub base_object: BaseObject,
    pub mineral_type: String,
    pub mineral_amount: i32,
    pub next_regeneration_time: Option<u64>,
}

/// A `ConstructedWall`, as the server reports it among the objects of a room.
#[derive(Debug)]
pub struct ConstructedWall {
    pub base_object: BaseObject,
    pub hits: Option<i32>,
    pub hits_max: Option<i32>,
    pub notify_when_attacked: Option<bool>,
    pub decay_time: Option<DecayTime>,
}

/// The time at which a structure falls apart.
#[derive(Debug)]
pub struct DecayTime {
    pub timestamp: u64,
}

/// A `Road`, as the server reports it among the objects of a room.
#[derive(Debug)]
pub struct Road {
    pub base_object: BaseObject,
    pub hits: i32,
    pub hits_max: i32,
    pub notify_when_attacked: bool,
    pub next_decay_time: Option<u64>,
}

/// The reservation on a controller.
#[derive(Debug)]
pub struct Reservation {
    pub user: String,
    pub ticks_to_end: i32,
}

/// The sign on a controller.
#[derive(Debug)]
pub struct Sign {
    pub user: String,
    pub time: i32,
    pub text: String,
    pub date_time: u64,
}

/// An effect that lies on an object.
#[derive(Debug)]
pub struct Effect {
    pub effect: Option<i32>,
    pub power: Option<i32>,
    pub end_time: Option<u64>,
    pub duration: Option<u64>,
}

/// A `Controller`, as the server reports it among the objects of a room.
#[derive(Debug)]
pub struct Controller {
    pub base_object: BaseObject,
    pub level: i32,
    pub progress: Option<i32>,
    pub progress_total: Option<i32>,
    pub user: Option<String>,
    pub downgrade_time: Option<u64>,
    pub safe_mode: Option<i32>,
    pub safe_mode_available: Option<i32>,
    pub safe_mode_cooldown: Option<i64>,
    pub upgrade_blocked: Option<i32>,
    pub downgrade_blocked: Option<i32>,
    pub reservation: Option<Reservation>,
    pub sign: Option<Sign>,
    pub is_power_enabled: Option<bool>,
    pub effects: Option<HashMap<String, Effect>>,
}

/// The creep that a spawn is making.
#[derive(Debug)]
pub struct Spawning {
    pub name: String,
    pub need_time: u64,
    pub remaining_time: u64,
}

/// The energy held by a spawn or an extension.
#[derive(Debug)]
pub struct SpawnStore {
    pub energy: Option<i32>,
}

/// A `Spawn`, as the server reports it among the objects of a room.
#[derive(Debug)]
pub struct Spawn {
    pub base_object: BaseObject,
    pub name: String,
    pub hits: i32,
    pub hits_max: i32,
    pub notify_when_attacked: bool,
    pub spawning: Option<Spawning>,
    pub off: bool,
    pub store: SpawnStore,
    pub store_capacity_resource: SpawnStore,
}

/// A `Extension`, as the server reports it among the objects of a room.
#[derive(Debug)]
pub struct Extension {
    pub base_object: BaseObject,
    pub hits: i32,
    pub hits_max: i32,
    pub user: String,
    pub notify_when_attacked: bool,
    pub store: SpawnStore,
    pub store_capacity_resource: SpawnStore,
    pub off: bool,
}

/// What a structure holds of each resource.
pub type Store = HashMap<String, Option<i32>>;

/// A `Storage`, as the server reports it among the objects of a room.
#[derive(Debug)]
pub struct Storage {
    pub base_object: BaseObject,
    pub hits: i32,
    pub hits_max: i32,
    pub notify_when_attacked: bool,
    pub user: String,
    pub store: Store,
    pub store_capacity: Option<i32>,
    pub effects: Option<HashMap<String, Effect>>,
}

/// What a tower did in the last tick.
#[derive(Debug)]
pub struct ActionLog {
    pub attack: Option<Point>,
    pub heal: Option<Point>,
    pub repair: Option<Point>,
}

/// A position in a room.
#[derive(Debug)]
pub struct Point {
    pub x: i32,
    pub y: i32,
}

/// A `Tower`, as the server reports it among the objects of a room.
#[derive(Debug)]
pub struct Tower {
    pub base_object: BaseObject,
    pub hits: i32,
    pub hits_max: i32,
    pub notify_when_attacked: bool,
    pub user: String,
    pub store: SpawnStore,
    pub store_capacity_resource: SpawnStore,
    pub action_log: ActionLog,
}

/// A `Rampart`, as the server reports it among the objects of a room.
#[derive(Debug)]
pub struct Rampart {
    pub base_object: BaseObject,
    pub hits: i32,
    pub hits_max: i32,
    pub user: String,
    pub notify_when_attacked: bool,
    pub next_decay_time: Option<u64>,
}

/// A `Extractor`, as the server reports it among the objects of a room.
#[derive(Debug)]
pub struct Extractor {
    pub base_object: BaseObject,
    pub hits: i32,
    pub hits_max: i32,
    pub user: Option<String>,
    pub notify_when_attacked: bool,
    pub cooldown: Option<i32>,
}

/// A `Terminal`, as the server reports it among the objects of a room.
#[derive(Debug)]
pub struct Terminal {
    pub base_object: BaseObject,
    pub hits: i32,
    pub hits_max: i32,
    pub user: String,
    pub notify_when_attacked: bool,
    pub store: Store,
    pub store_capacity: Option<i32>,
    pub cooldown_time: Option<u64>,
    pub send: Option<String>,
}

/// A `Observer`, as the server reports it among the objects of a room.
#[derive(Debug)]
pub struct Observer {
    pub base_object: BaseObject,
    pub hits: i32,
    pub hits_max: i32,
    pub user: String,
    pub notify_when_attacked: bool,
    pub observe_room: Option<String>,
}

/// A `PowerSpawn`, as the server reports it among the objects of a room.
#[derive(Debug)]
pub struct PowerSpawn {
    pub base_object: BaseObject,
    pub hits: i32,
    pub hits_max: i32,
    pub user: String,
    pub notify_when_attacked: bool,
    pub store: HashMap<String, Option<i32>>,
    pub store_capacity_resource: HashMap<String, Option<i32>>,
}

/// A `Nuker`, as the server reports it among the objects of a room.
#[derive(Debug)]
pub struct Nuker {
    pub base_object: BaseObject,
    pub hits: i32,
    pub hits_max: i32,
    pub user: String,
    pub notify_when_attacked: bool,
    pub store: HashMap<String, Option<i32>>,
    pub store_capacity_resource: HashMap<String, Option<i32>>,
    pub cooldown_time: Option<u64>,
}

/// A `Factory`, as the server reports it among the objects of a room.
#[derive(Debug)]
pub struct Factory {
    pub base_object: BaseObject,
    pub hits: i32,
    pub hits_max: i32,
    pub user: String,
    pub notify_when_attacked: bool,
    pub store: Store,
    pub store_capacity: Option<i32>,
    pub cooldown: Option<i32>,
    pub cooldown_time: Option<u64>,
    pub effects: Option<HashMap<String, Effect>>,
    pub level: Option<i32>,
}

/// A `Lab`, as the server reports it among the objects of a room.
#[derive(Debug)]
pub struct Lab {
    pub base_object: BaseObject,
    pub hits: i32,
    pub hits_max: i32,
    pub user: String,
    pub notify_when_attacked: bool,
    pub cooldown: Option<i32>,
    pub cooldown_time: Option<u64>,
    pub store: Store,
    pub store_capacity: Option<i32>,
    pub store_capacity_resource: SpawnStore,
    pub mineral_amount: Option<i32>,
    pub effects: Option<HashMap<String, Effect>>,
}

/// One part of the body of a creep.
#[derive(Debug)]
pub struct CreepBodyPart {
    pub part_type: String,
    pub hits: Option<i32>,
    pub boost: Option<String>,
}

/// A `Creep`, as the server reports it among the objects of a room.
#[derive(Debug)]
pub struct Creep {
    pub base_object: BaseObject,
    pub name: String,
    pub hits: i32,
    pub hits_max: i32,
    pub user: String,
    pub spawning: Option<bool>,
    pub fatigue: Option<i32>,
    pub body: Option<Vec<CreepBodyPart>>,
    pub store: Store,
    pub store_capacity: Option<i32>,
    pub notify_when_attacked: Option<bool>,
}

/// A `PowerCreep`, as the server reports it among the objects of a room.
#[derive(Debug)]
pub struct PowerCreep {
    pub base_object: BaseObject,
    pub name: String,
    pub hits: i32,
    pub hits_max: i32,
    pub user: String,
    pub spawning: Option<bool>,
    pub fatigue: Option<i32>,
    pub body: Option<Vec<CreepBodyPart>>,
    pub store: Store,
    pub store_capacity: Option<i32>,
    pub notify_when_attacked: bool,
    pub class_name: String,
    pub power: Option<HashMap<i32, PowerInfo>>,
}

/// One power of a power creep.
#[derive(Debug)]
pub struct PowerInfo {
    pub level: i32,
    pub cooldown_time: Option<u64>,
}

} // verus!
