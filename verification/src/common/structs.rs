use vstd::prelude::*;

verus! {

/// A user row as it is written to the database.
pub struct Users {
    pub user_id: String,
    pub created_at: i64,
    pub hashed_password: String,
    pub username: String,
}

/// A user row as it is read back from the database; every column may be absent.
#[derive(Clone)]
pub struct UsersQuery {
    pub user_id: Option<String>,
    pub created_at: Option<i64>,
    pub hashed_password: Option<String>,
    pub username: Option<String>,
}

/// A session row as it is written to the database.
pub struct Sessions {
    pub session_id: String,
    pub user_id: String,
    pub created_at: i64,
    pub expire_at: i64,
}

/// A session row as it is read back from the database; every column may be absent.
#[derive(Clone)]
pub struct SessionsQuery {
    pub session_id: Option<String>,
    pub user_id: Option<String>,
    pub created_at: Option<i64>,
    pub expire_at: Option<i64>,
}

impl Users {
    /// The row as it reads back from the database after being written.
    pub open spec fn as_stored(self) -> UsersQuery {
        UsersQuery {
            user_id: Some(self.user_id),
            created_at: Some(self.created_at),
            hashed_password: Some(self.hashed_password),
            username: Some(self.username),
        }
    }
}

impl Sessions {
    /// The row as it reads back from the database after being written.
    pub open spec fn as_stored(self) -> SessionsQuery {
        SessionsQuery {
            session_id: Some(self.session_id),
            user_id: Some(self.user_id),
            created_at: Some(self.created_at),
            expire_at: Some(self.expire_at),
        }
    }
}

/// The body of a registration request.
pub struct RegisterRequest {
    pub username: String,
    pub password: String,
}

/// The body of a login request.
pub struct LoginRequest {
    pub username: String,
    pub password: String,
}

/// The path parameters of the profile route.
pub struct UserParams {
    pub user_id: String,
}

} // verus!
