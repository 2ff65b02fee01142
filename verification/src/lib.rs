//! A client for the HTTP API of a Screeps game server, without the sending.
//!
//! The library decides what a request looks like, how long it has to wait for
//! its quota, and what a response changes in the quotas and the token that
//! the client holds. Sending, sleeping and decoding are left to the caller.

pub mod api;
pub mod config;
pub mod decimal;
pub mod error;
pub mod headers;
pub mod http_client;
pub mod model;
pub mod rate_limit;
pub mod types;

pub use api::{ApiCall, ScreepsApi};
pub use config::ScreepsConfig;
pub use error::ScreepsError;
pub use http_client::Method::{Get, Post};
pub use http_client::{
    Encoding, Method, PreparedRequest, ScreepsHttpClient, SignIn, TokenHolder,
};
pub use model::{
    BaseData, EncodedRoomTerrainData, MyNameData, RoomObjectsData, RoomStatusData,
    RoomTerrainData, TokenData, UserAllRoomsData, UserInfoData,
};
pub use rate_limit::{Period, RateLimit, RateLimits};
pub use types::{
    Badge, BadgeType, BadgePath, User, UserWithId, UserInfo, NotifyPrefs, GlobalResources,
    SteamAccount, RoomTerrain, EncodedRoomTerrain, RoomStatus, BaseObject, RoomObject, Source,
    Mineral, ConstructedWall, DecayTime, Road, Reservation, Sign, Effect, Controller, Spawning,
    SpawnStore, Spawn, Extension, Store, Storage, ActionLog, Point, Tower, Rampart, Extractor,
    Terminal, Observer, PowerSpawn, Nuker, Factory, Lab, CreepBodyPart, Creep, PowerCreep,
    PowerInfo,
};
