use vstd::prelude::*;

verus! {

/// An angle in decimal degrees, held exactly as a whole number of
/// arc-seconds: the angle is `arcseconds / 3600` degrees.
#[derive(Clone, Copy, Debug, PartialEq, Eq, Structural)]
pub struct Degrees {
    /// The angle multiplied by 3600.
    pub arcseconds: u64,
}

impl Degrees {
    /// 3600 times the angle in degrees, as a mathematical integer.
    pub open spec fn times_3600(self) -> int {
        self.arcseconds as int
    }

    /// The whole degrees of the angle.
    pub fn whole_degrees(&self) -> (d: u64)
        ensures
            d == self.times_3600() / 3600,
    {
        self.arcseconds / 3600
    }

    /// The fractional part of the angle in millionths of a degree, rounded
    /// down.
    pub fn micro_degrees(&self) -> (m: u64)
        ensures
            m == ((self.times_3600() % 3600) * 1_000_000) / 3600,
            m < 1_000_000,
    {
        (self.arcseconds % 3600) * 1_000_000 / 3600
    }
}

/// Generic data struct.
///
/// Can hold any data and an optional session.
pub struct Data<T> {
    /// Any model or value.
    pub value: T,
    /// Session (if necessary).
    pub session: Option<Session>,
}

/// Takeoff model.
///
/// * Use [`NewTakeoff`] for creating a new takeoff.
/// * Use [`GetTakeoff`] for optional fields.
#[derive(Clone, Debug, PartialEq, Eq)]
pub struct Takeoff {
    /// Incrementing ID.
    pub id: i32,
    /// Name of the site.
    pub name: String,
    /// Description.
    pub description: String,
    /// Optional image.
    pub image: Option<Vec<u8>>,
    /// Region.
    pub region: String,
    /// Optional meters over sea level.
    pub altitude: Option<i32>,
    /// Optional difference between takeoff and landing in altitude.
    pub altitude_diff: Option<i32>,
    /// Latitude coordinate.
    pub latitude: Degrees,
    /// Longitude coordinate.
    pub longitude: Degrees,
    /// Wind directions.
    pub wind_dirs: Vec<String>,
    /// Optional info URL.
    pub info_url: Option<String>,
    /// Optional source URL.
    pub source_url: Option<String>,
    /// Creation date and author name.
    pub created: String,
    /// Last update date and author name.
    pub updated: String,
}

/// Get takeoff model.
///
/// Used for getting takeoffs of which only some fields were asked for.
#[derive(Clone, Debug, Default, PartialEq, Eq)]
pub struct GetTakeoff {
    /// Incrementing ID.
    pub id: Option<i32>,
    /// Name of the site.
    pub name: Option<String>,
    /// Description.
    pub description: Option<String>,
    /// Optional image.
    pub image: Option<Vec<u8>>,
    /// Region.
    pub region: Option<String>,
    /// Optional meters over sea level.
    pub altitude: Option<i32>,
    /// Optional difference between takeoff and landing in altitude.
    pub altitude_diff: Option<i32>,
    /// Latitude coordinate.
    pub latitude: Option<Degrees>,
    /// Longitude coordinate.
    pub longitude: Option<Degrees>,
    /// Wind directions.
    pub wind_dirs: Option<Vec<String>>,
    /// Optional info URL.
    pub info_url: Option<String>,
    /// Optional source URL.
    pub source_url: Option<String>,
    /// Creation date and author name.
    pub created: Option<String>,
    /// Last update date and author name.
    pub updated: Option<String>,
}

/// New takeoff model.
///
/// A takeoff that is ready to be stored: the finished result of scraping one
/// detail page.
#[derive(Clone, Debug, PartialEq, Eq)]
pub struct NewTakeoff {
    /// Name of the site.
    pub name: String,
    /// Description.
    pub description: String,
    /// Optional image.
    pub image: Option<Vec<u8>>,
    /// Region.
    pub region: String,
    /// Optional meters over sea level.
    pub altitude: Option<i32>,
    /// Optional difference between takeoff and landing in altitude.
    pub altitude_diff: Option<i32>,
    /// Latitude coordinate.
    pub latitude: Degrees,
    /// Longitude coordinate.
    pub longitude: Degrees,
    /// Wind directions.
    pub wind_dirs: Vec<String>,
    /// Optional info URL.
    pub info_url: Option<String>,
    /// Optional source URL.
    pub source_url: Option<String>,
    /// Creation date and author name.
    pub created: String,
    /// Last update date and author name.
    pub updated: String,
}

/// The mathematical content of a [`NewTakeoff`].
pub struct NewTakeoffView {
    pub name: Seq<char>,
    pub description: Seq<char>,
    pub image: Option<Seq<u8>>,
    pub region: Seq<char>,
    pub altitude: Option<i32>,
    pub altitude_diff: Option<i32>,
    pub latitude: Degrees,
    pub longitude: Degrees,
    pub wind_dirs: Seq<Seq<char>>,
    pub info_url: Option<Seq<char>>,
    pub source_url: Option<Seq<char>>,
    pub created: Seq<char>,
    pub updated: Seq<char>,
}

impl View for NewTakeoff {
    type V = NewTakeoffView;

    open spec fn view(&self) -> NewTakeoffView {
        NewTakeoffView {
            name: self.name@,
            description: self.description@,
            image: self.image.deep_view(),
            region: self.region@,
            altitude: self.altitude,
            altitude_diff: self.altitude_diff,
            latitude: self.latitude,
            longitude: self.longitude,
            wind_dirs: self.wind_dirs.deep_view(),
            info_url: self.info_url.deep_view(),
            source_url: self.source_url.deep_view(),
            created: self.created@,
            updated: self.updated@,
        }
    }
}

/// User model.
///
/// * Use [`NewUser`] for creating a user.
/// * Use [`LoginUser`] for logging into an user.
#[derive(Clone, Debug, PartialEq, Eq)]
pub struct User {
    /// Unique user id.
    pub id: i32,
    /// Username.
    pub username: String,
    /// Hashed and randomly salted password.
    pub password: String,
}

/// New user model.
///
/// Used for creating new users.
#[derive(Clone, Debug, PartialEq, Eq)]
pub struct NewUser {
    /// Username.
    pub username: String,
    /// Raw password.
    pub password: String,
}

/// Login user model.
///
/// Used to login to a user.
#[derive(Clone, Debug, PartialEq, Eq)]
pub struct LoginUser {
    /// Username.
    pub username: String,
    /// Raw password.
    pub password: String,
}

/// Session model.
///
/// This is the session saved by the user.
///
/// * Use [`HashedSession`] to save a session on the server.
#[derive(Clone, Debug, PartialEq, Eq)]
pub struct Session {
    /// Unique session id.
    pub id: i32,
    /// User id.
    pub user_id: i32,
    /// Raw session token.
    pub token: Vec<u8>,
}

/// Hashed session model.
///
/// This is the session saved by the server.
///
/// * Use [`Session`] to save a session on the user.
#[derive(Clone, Debug, PartialEq, Eq)]
pub struct HashedSession {
    /// Unique session id.
    pub id: i32,
    /// User id.
    pub user_id: i32,
    /// Hashed and randomly salted session token.
    pub token: String,
}

/// Role model.
///
/// Use this model for fetching roles.
#[derive(Clone, Debug, PartialEq, Eq)]
pub struct Role {
    /// Unique role id.
    pub id: i32,
    /// Role name.
    pub name: String,
}

/// The versions of the HTTP interface.
#[derive(Clone, Copy, Debug, PartialEq, Eq, Structural)]
pub enum Version {
    V0,
}

} // verus!
