//! The records that the store keeps and the bodies of requests. Times are
//! RFC 3339 texts, as the store reports them; ids are UUIDs held as `u128`.

use vstd::prelude::*;

verus! {

/// The process configuration.
pub struct Config {
    pub database_url: String,
    pub redis_url: String,
    pub jwt_secret: String,
    pub jwt_expiry_secs: i64,
    pub jwt_refresh_expiry_secs: i64,
    pub host: String,
    pub port: u16,
}

/// A user as the store keeps it.
pub struct User {
    pub id: u128,
    pub username: String,
    pub email: String,
    pub password_hash: String,
    pub display_name: Option<String>,
    pub avatar_url: Option<String>,
    pub created_at: String,
    pub updated_at: String,
}

/// A user as callers see it: without email or password hash.
pub struct UserResponse {
    pub id: u128,
    pub username: String,
    pub display_name: Option<String>,
    pub avatar_url: Option<String>,
    pub created_at: String,
    pub updated_at: String,
}

impl From<User> for UserResponse {
    fn from(u: User) -> (r: UserResponse) {
        UserResponse {
            id: u.id,
            username: u.username,
            display_name: u.display_name,
            avatar_url: u.avatar_url,
            created_at: u.created_at,
            updated_at: u.updated_at,
        }
    }
}

impl vstd::std_specs::convert::FromSpecImpl<User> for UserResponse {
    open spec fn obeys_from_spec() -> bool {
        true
    }

    open spec fn from_spec(u: User) -> UserResponse {
        UserResponse {
            id: u.id,
            username: u.username,
            display_name: u.display_name,
            avatar_url: u.avatar_url,
            created_at: u.created_at,
            updated_at: u.updated_at,
        }
    }
}

/// A message of a room, as stored.
pub struct Message {
    pub id: u128,
    pub room_id: u128,
    pub sender_id: u128,
    pub content: String,
    pub message_type: String,
    pub meta_data: Option<serde_json::Value>,
    pub created_at: String,
    pub update_at: String,
}

/// A direct message between two users, as stored.
pub struct DirectMessage {
    pub id: u128,
    pub sender_id: u128,
    pub recipient_id: u128,
    pub content: String,
    pub is_read: bool,
    pub created_at: String,
    pub update_at: String,
}

/// A room, as stored.
pub struct Room {
    pub id: u128,
    pub name: String,
    pub description: String,
    pub is_private: bool,
    pub created_at: String,
    pub update_at: String,
    pub created_by: u128,
}

/// A durable membership of a user in a room.
pub struct RoomMember {
    pub room_id: u128,
    pub user_id: u128,
    pub role: String,
    pub join_at: String,
}

/// The cached record of a signed-in user.
pub struct Session {
    pub user_id: u128,
    pub username: String,
    pub created_at: String,
    pub last_active: String,
}

pub struct SendMessageRequest {
    pub content: String,
}

pub struct PaginationParams {
    pub limit: Option<u32>,
    pub offset: Option<u32>,
}

pub struct CreateRoomRequest {
    pub name: String,
    pub description: Option<String>,
    pub is_private: Option<bool>,
}

pub struct UpdateRoomRequest {
    pub name: Option<String>,
    pub description: Option<String>,
    pub is_private: Option<bool>,
}

pub struct RegisterRequest {
    pub username: String,
    pub email: String,
    pub password: String,
    pub display_name: Option<String>,
}

pub struct LoginRequest {
    pub username: String,
    pub password: String,
}

pub struct UpdateProfileRequest {
    pub display_name: Option<String>,
    pub avatar_url: Option<String>,
}

pub struct RefreshRequest {
    pub refresh_token: String,
}

} // verus!
