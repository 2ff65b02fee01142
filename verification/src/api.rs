use crate::config::ScreepsConfig;
use crate::error::ScreepsError;
use crate::http_client::{Method, PreparedRequest, ScreepsHttpClient, SignIn};
use crate::rate_limit::published_limits;
use vstd::prelude::*;
use vstd::string::*;

verus! {

/// One call of the server's API: the method, the path and the parameters.
/// A `GET` call sends its parameters as the query string.
#[derive(Debug)]
pub struct ApiCall {
    pub method: Method,
    pub path: String,
    pub query: Vec<(String, String)>,
}

impl ApiCall {
    /// The parameters as pairs of texts, in the order in which they are sent.
    pub open spec fn spec_query(&self) -> Seq<(Seq<char>, Seq<char>)> {
        self.query@.map_values(|p: (String, String)| (p.0@, p.1@))
    }

    /// Whether this is the `GET` call of `path` with the parameters `query`.
    pub open spec fn is_get(&self, path: Seq<char>, query: Seq<(Seq<char>, Seq<char>)>) -> bool {
        &&& self.method == Method::Get
        &&& self.path@ == path
        &&& self.spec_query() =~= query
    }

    /// The `GET` call of `path` without parameters.
    fn get0(path: &str) -> (call: Self)
        ensures
            call.is_get(path@, seq![]),
    {
        let call = ApiCall { method: Method::Get, path: String::from_str(path), query: Vec::new() };
        assert(call.spec_query() =~= seq![]);
        call
    }

    /// Adds the parameter `name` with the value `value` behind the others.
    fn with(self, name: &str, value: &str) -> (call: Self)
        ensures
            call.method == self.method,
            call.path == self.path,
            call.spec_query() == self.spec_query().push((name@, value@)),
    {
        let mut call = self;
        call.query.push((String::from_str(name), String::from_str(value)));
        assert(call.spec_query() =~= self.spec_query().push((name@, value@)));
        call
    }
}

/// The typed surface of the client: one function for each call of the
/// server's API that this library knows, and the client that carries them out.
pub struct ScreepsApi {
    /// The client that prepares the requests and records the responses.
    pub http_client: ScreepsHttpClient,
}

impl ScreepsApi {
    pub fn new(config: ScreepsConfig) -> (api: Self)
        ensures
            api.http_client.config == config,
            api.http_client.token.token == config.token,
            api.http_client.rate_limits@ == published_limits(),
    {
        let http_client = ScreepsHttpClient::new(config);
        Self { http_client }
    }

    /// Prepares the exchange of e-mail and password for a token.
    pub fn auth(&self, now_millis: u128) -> (r: Result<SignIn, ScreepsError>)
        requires
            self.http_client.config.spec_has_credentials()
                ==> self.http_client.token.spec_is_sendable(),
        ensures
            self.http_client.config.spec_has_credentials() ==> (r matches Ok(sign_in) && Some(
                sign_in.email,
            ) == self.http_client.config.email && Some(sign_in.password)
                == self.http_client.config.password && self.http_client.spec_prepares(
                sign_in.request,
                Method::Post,
                "/auth/signin"@,
                now_millis as int,
            )),
            !self.http_client.config.spec_has_credentials() ==> (r matches Err(
                ScreepsError::Config(reason),
            ) && reason@ == "email or password is none"@),
    {
        self.http_client.auth(now_millis)
    }

    /// Prepares a request of `path` with `method` at `now_millis`.
    pub fn request(&self, method: Method, path: &str, now_millis: u128) -> (plan: PreparedRequest)
        requires
            self.http_client.token.spec_is_sendable(),
        ensures
            self.http_client.spec_prepares(plan, method, path@, now_millis as int),
    {
        self.http_client.request(method, path, now_millis)
    }

    /// The call for the caller's own account.
    pub fn get_my_info() -> (call: ApiCall)
        ensures
            call.is_get("/auth/me"@, seq![]),
    {
        ApiCall::get0("/auth/me")
    }

    /// The call for the caller's own name.
    pub fn get_my_name() -> (call: ApiCall)
        ensures
            call.is_get("/user/name"@, seq![]),
    {
        ApiCall::get0("/user/name")
    }

    /// The call for the rooms of the player with the id `id`.
    pub fn get_user_rooms(id: &str) -> (call: ApiCall)
        ensures
            call.is_get("/user/rooms"@, seq![("id"@, id@)]),
    {
        ApiCall::get0("/user/rooms").with("id", id)
    }

    /// The call that finds a player by name.
    pub fn get_user_info_by_name(username: &str) -> (call: ApiCall)
        ensures
            call.is_get("/user/find"@, seq![("username"@, username@)]),
    {
        ApiCall::get0("/user/find").with("username", username)
    }

    /// The call that finds a player by id.
    pub fn get_user_info_by_id(id: &str) -> (call: ApiCall)
        ensures
            call.is_get("/user/find"@, seq![("id"@, id@)]),
    {
        ApiCall::get0("/user/find").with("id", id)
    }

    /// The call for the objects of `room` on `shard`.
    pub fn get_room_objects(room: &str, shard: &str) -> (call: ApiCall)
        ensures
            call.is_get("/game/room-objects"@, seq![("room"@, room@), ("shard"@, shard@)]),
    {
        ApiCall::get0("/game/room-objects").with("room", room).with("shard", shard)
    }

    /// The call for the terrain of `room` on `shard`, cell by cell.
    pub fn get_room_terrain(room: &str, shard: &str) -> (call: ApiCall)
        ensures
            call.is_get("/game/room-terrain"@, seq![("room"@, room@), ("shard"@, shard@)]),
    {
        ApiCall::get0("/game/room-terrain").with("room", room).with("shard", shard)
    }

    /// The call for the terrain of `room` on `shard` as one encoded string.
    /// It goes to the same path as the plain call, and so shares its quota.
    pub fn get_room_terrain_encoded(room: &str, shard: &str) -> (call: ApiCall)
        ensures
            call.is_get(
                "/game/room-terrain"@,
                seq![("room"@, room@), ("shard"@, shard@), ("encoded"@, "true"@)],
            ),
    {
        ApiCall::get0("/game/room-terrain").with("room", room).with("shard", shard).with(
            "encoded",
            "true",
        )
    }

    /// The call for the status of `room` on `shard`.
    pub fn get_room_status(room: &str, shard: &str) -> (call: ApiCall)
        ensures
            call.is_get("/game/room-status"@, seq![("room"@, room@), ("shard"@, shard@)]),
    {
        ApiCall::get0("/game/room-status").with("room", room).with("shard", shard)
    }

    /// The call for the list of shards.
    pub fn get_shards() -> (call: ApiCall)
        ensures
            call.is_get("/game/shards/info"@, seq![]),
    {
        ApiCall::get0("/game/shards/info")
    }

    /// The call for the current tick of `shard`.
    pub fn get_shard_time(shard: &str) -> (call: ApiCall)
        ensures
            call.is_get("/game/time"@, seq![("shard"@, shard@)]),
    {
        ApiCall::get0("/game/time").with("shard", shard)
    }
}

impl Default for ScreepsApi {
    /// A client of the public server without credentials: it can make only
    /// the calls that need no token.
    fn default() -> (api: Self)
        ensures
            api.http_client.config.host@ == "screeps.com"@,
            api.http_client.config.secure,
            api.http_client.config.timeout == 15,
            api.http_client.config.email is None,
            api.http_client.config.password is None,
            api.http_client.token.token is None,
            api.http_client.rate_limits@ == published_limits(),
    {
        let http_client = ScreepsHttpClient::new(ScreepsConfig::default());
        Self { http_client }
    }
}

} // verus!
