//! Operator, manager and admin logins: the access levels, the login state and the
//! credential check against the stored user list.
use vstd::prelude::*;
use crate::file_io::FileIoError;
use crate::text::{push_str, str_eq};

verus! {

/// File name of the stored user list, in the config directory.
pub const USERS_PATH: &'static str = "users.json";

/// Access levels, lowest first.
#[derive(Debug, Clone, Copy, PartialEq, Eq, Structural, PartialOrd, Ord)]
pub enum AuthLevel {
    Operator,
    Manager,
    Admin,
}

impl AuthLevel {
    pub open spec fn spec_label(self) -> Seq<char> {
        match self {
            AuthLevel::Operator => "Operator"@,
            AuthLevel::Manager => "Manager"@,
            AuthLevel::Admin => "Admin"@,
        }
    }

    /// The level's name as shown to users.
    pub fn label(&self) -> (s: &'static str)
        ensures
            s@ == self.spec_label(),
    {
        match self {
            AuthLevel::Operator => "Operator",
            AuthLevel::Manager => "Manager",
            AuthLevel::Admin => "Admin",
        }
    }
}

/// Who is logged in. An operator session carries no user name.
#[derive(Debug, Clone)]
pub enum AuthState {
    Operator,
    Manager { username: String },
    Admin { username: String },
}

impl Default for AuthState {
    /// Nobody logged in: an operator session.
    fn default() -> (s: Self)
        ensures
            s is Operator,
    {
        AuthState::Operator
    }
}

impl AuthState {
    pub open spec fn spec_level(&self) -> AuthLevel {
        match self {
            AuthState::Operator => AuthLevel::Operator,
            AuthState::Manager { .. } => AuthLevel::Manager,
            AuthState::Admin { .. } => AuthLevel::Admin,
        }
    }

    pub open spec fn spec_username(&self) -> Option<Seq<char>> {
        match self {
            AuthState::Operator => None,
            AuthState::Manager { username } => Some(username@),
            AuthState::Admin { username } => Some(username@),
        }
    }

    pub fn level(&self) -> (l: AuthLevel)
        ensures
            l == self.spec_level(),
    {
        match self {
            AuthState::Operator => AuthLevel::Operator,
            AuthState::Manager { .. } => AuthLevel::Manager,
            AuthState::Admin { .. } => AuthLevel::Admin,
        }
    }

    pub fn username(&self) -> (u: Option<&str>)
        ensures
            match self.spec_username() {
                Some(n) => u matches Some(s) && s@ == n,
                None => u is None,
            },
    {
        match self {
            AuthState::Operator => None,
            AuthState::Manager { username } => Some(username.as_str()),
            AuthState::Admin { username } => Some(username.as_str()),
        }
    }
}

/// One stored user.
#[derive(Debug, Clone)]
pub struct UserRecord {
    pub username: String,
    pub password: String,
    pub level: AuthLevel,
}

impl UserRecord {
    pub fn is_manager(&self) -> (b: bool)
        ensures
            b == (self.level == AuthLevel::Manager),
    {
        self.level == AuthLevel::Manager
    }

    pub fn is_admin(&self) -> (b: bool)
        ensures
            b == (self.level == AuthLevel::Admin),
    {
        self.level == AuthLevel::Admin
    }
}

/// The built-in service login, accepted whatever the stored user list says.
pub open spec fn is_service_login(username: Seq<char>, password: Seq<char>) -> bool {
    username == "MITUSA"@ && password == "admin"@
}

/// The position of the user stored under `name`; of two entries under one name the later
/// one counts, as it does when the list is read into a map.
pub open spec fn spec_user_index(users: Seq<(String, UserRecord)>, name: Seq<char>) -> Option<int>
    decreases users.len(),
{
    if users.len() == 0 {
        None
    } else if users.last().0@ == name {
        Some(users.len() - 1)
    } else {
        spec_user_index(users.drop_last(), name)
    }
}

/// Finds the user stored under `name`.
pub fn find_user(users: &Vec<(String, UserRecord)>, name: &str) -> (r: Option<usize>)
    ensures
        r is None <==> spec_user_index(users@, name@) is None,
        r matches Some(i) ==> i < users@.len() && spec_user_index(users@, name@) == Some(i as int),
{
    let mut i = users.len();
    proof {
        assert(users@.subrange(0, i as int) =~= users@);
    }
    while i > 0
        invariant
            i <= users@.len(),
            spec_user_index(users@, name@) == spec_user_index(users@.subrange(0, i as int), name@),
        decreases i,
    {
        let ghost prefix = users@.subrange(0, i as int);
        if str_eq(users[i - 1].0.as_str(), name) {
            assert(prefix.last() == users@[i - 1]);
            return Some(i - 1);
        }
        proof {
            assert(prefix.drop_last() =~= users@.subrange(0, i - 1));
        }
        i = i - 1;
    }
    None
}

/// The message of a refused login.
pub open spec fn spec_invalid_credentials(username: Seq<char>) -> Seq<char> {
    "Invalid credentials for user '"@ + username + "'"@
}

/// The login a stored user with the right password gets.
pub open spec fn spec_login_of(user: UserRecord, s: AuthState) -> bool {
    &&& s.spec_level() == user.level
    &&& user.level != AuthLevel::Operator ==> s.spec_username() == Some(user.username@)
}

/// The outcome of a login among `users` (the service login aside).
pub open spec fn spec_login_in(users: Seq<(String, UserRecord)>, username: Seq<char>, password: Seq<char>, r: Result<AuthState, String>) -> bool {
    match spec_user_index(users, username) {
        Some(i) if users[i].1.password@ == password => r matches Ok(s) && spec_login_of(users[i].1, s),
        _ => r matches Err(m) && m@ == spec_invalid_credentials(username),
    }
}

/// Checks a login against the stored user list, as it was loaded. The service login is
/// always accepted; a missing user file counts as an empty list; any other failure to
/// load refuses the login with the failure's message.
pub fn verify_credentials(
    username: &str,
    password: &str,
    users: &Result<Vec<(String, UserRecord)>, FileIoError>,
) -> (r: Result<AuthState, String>)
    ensures
        is_service_login(username@, password@) ==> (r matches Ok(s) && s is Admin
            && s.spec_username() == Some(username@)),
        !is_service_login(username@, password@) ==> match users {
            Ok(list) => spec_login_in(list@, username@, password@, r),
            Err(FileIoError::NotFound { .. }) => r matches Err(m) && m@ == spec_invalid_credentials(
                username@,
            ),
            Err(e) => r matches Err(m) && m@ == e.spec_message(),
        },
{
    if str_eq(username, "MITUSA") && str_eq(password, "admin") {
        return Ok(AuthState::Admin { username: String::from_str(username) });
    }
    match users {
        Ok(list) => {
            match find_user(list, username) {
                Some(i) => {
                    let user = &list[i].1;
                    if str_eq(user.password.as_str(), password) {
                        let s = match user.level {
                            AuthLevel::Admin => AuthState::Admin { username: user.username.clone() },
                            AuthLevel::Manager => AuthState::Manager { username: user.username.clone() },
                            AuthLevel::Operator => AuthState::Operator,
                        };
                        return Ok(s);
                    }
                },
                None => {},
            }
        },
        Err(FileIoError::NotFound { .. }) => {},
        Err(e) => {
            return Err(e.message());
        },
    }
    let mut m = String::from_str("Invalid credentials for user '");
    push_str(&mut m, username);
    push_str(&mut m, "'");
    Err(m)
}

/// The user stored under a name is the last entry with that name: its position holds
/// that name and no later entry does; and only a name that no entry holds has no user.
pub proof fn law_user_index_is_last_entry(users: Seq<(String, UserRecord)>, name: Seq<char>)
    ensures
        spec_user_index(users, name) is None <==> forall|j: int| 0 <= j < users.len() ==> (#[trigger] users[j]).0@ != name,
        spec_user_index(users, name) matches Some(i) ==> {
            &&& 0 <= i < users.len()
            &&& users[i].0@ == name
            &&& forall|j: int| i < j < users.len() ==> (#[trigger] users[j]).0@ != name
        },
    decreases users.len(),
{
    if users.len() > 0 && users.last().0@ != name {
        let rest = users.drop_last();
        law_user_index_is_last_entry(rest, name);
        assert forall|j: int| 0 <= j < rest.len() implies #[trigger] rest[j] == users[j] by {}
        if let Some(i) = spec_user_index(rest, name) {
            assert forall|j: int| i < j < users.len() implies (#[trigger] users[j]).0@ != name by {
                if j < rest.len() {
                    assert(rest[j] == users[j]);
                }
            }
        }
        if spec_user_index(rest, name) is None {
            assert forall|j: int| 0 <= j < users.len() implies (#[trigger] users[j]).0@ != name by {
                if j < rest.len() {
                    assert(rest[j] == users[j]);
                }
            }
        }
    }
}

/// A login other than the service login succeeds exactly when the user stored under
/// the name (the last entry with it) has the given password, and then it carries that
/// user's level; every other login is refused with a message naming the user.
pub proof fn law_login_needs_stored_password(
    users: Seq<(String, UserRecord)>,
    username: Seq<char>,
    password: Seq<char>,
    r: Result<AuthState, String>,
)
    requires
        spec_login_in(users, username, password, r),
    ensures
        r is Ok <==> exists|i: int|
            0 <= i < users.len() && (#[trigger] users[i]).0@ == username && users[i].1.password@ == password
                && forall|j: int| i < j < users.len() ==> (#[trigger] users[j]).0@ != username,
        r matches Ok(s) ==> exists|i: int|
            0 <= i < users.len() && (#[trigger] users[i]).0@ == username && s.spec_level() == users[i].1.level,
        r matches Err(m) ==> m@ == "Invalid credentials for user '"@ + username + "'"@,
{
    law_user_index_is_last_entry(users, username);
    match spec_user_index(users, username) {
        Some(i) => {
            if exists|k: int|
                0 <= k < users.len() && (#[trigger] users[k]).0@ == username && users[k].1.password@ == password
                    && forall|j: int| k < j < users.len() ==> (#[trigger] users[j]).0@ != username {
                let k = choose|k: int|
                    0 <= k < users.len() && (#[trigger] users[k]).0@ == username && users[k].1.password@ == password
                        && forall|j: int| k < j < users.len() ==> (#[trigger] users[j]).0@ != username;
                if k < i {
                    assert(users[i].0@ == username);
                } else if k > i {
                    assert(users[k].0@ == username);
                }
            }
        },
        None => {},
    }
}

} // verus!
