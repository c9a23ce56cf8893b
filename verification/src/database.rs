//! The rows and enumerations of the relational schema that the library reads.

use vstd::prelude::*;

verus! {

/// The days of the week, as the schedule tables name them.
#[derive(Clone, Copy, Debug, PartialEq, Eq, Structural)]
pub enum DayOfWeek {
    Sunday,
    Monday,
    Tuesday,
    Wednesday,
    Thursday,
    Friday,
    Saturday,
}

/// The role of a user. There is no order among the roles: a gate asks for one of them exactly.
#[derive(Clone, Copy, Debug, PartialEq, Eq, Structural)]
pub enum Role {
    Admin,
    Student,
    Professor,
}

impl Role {
    /// The name of the role in a token's payload and in the database.
    pub open spec fn spec_name(self) -> Seq<char> {
        match self {
            Role::Admin => "admin"@,
            Role::Student => "student"@,
            Role::Professor => "professor"@,
        }
    }

    /// The role that a name stands for, if it stands for one.
    pub open spec fn spec_from_name(name: Seq<char>) -> Option<Role> {
        if name == "admin"@ {
            Some(Role::Admin)
        } else if name == "student"@ {
            Some(Role::Student)
        } else if name == "professor"@ {
            Some(Role::Professor)
        } else {
            None
        }
    }

    pub fn name(&self) -> (r: String)
        ensures
            r@ == self.spec_name(),
    {
        match self {
            Role::Admin => "admin".to_string(),
            Role::Student => "student".to_string(),
            Role::Professor => "professor".to_string(),
        }
    }

    pub fn from_name(name: &str) -> (r: Option<Role>)
        ensures
            r == Role::spec_from_name(name@),
    {
        let owned = name.to_owned();
        if owned == "admin".to_owned() {
            Some(Role::Admin)
        } else if owned == "student".to_owned() {
            Some(Role::Student)
        } else if owned == "professor".to_owned() {
            Some(Role::Professor)
        } else {
            None
        }
    }

    /// Every role is read back from its own name.
    pub proof fn lemma_name_round_trip(role: Role)
        ensures
            Role::spec_from_name(role.spec_name()) == Some(role),
    {
        reveal_strlit("admin");
        reveal_strlit("student");
        reveal_strlit("professor");
        assert("admin"@.len() == 5);
        assert("student"@.len() == 7);
        assert("professor"@.len() == 9);
    }

}

/// One row of the session table: a login, the user it belongs to, and the refresh token that
/// is current for it. The refresh token is the signed token string itself.
#[derive(Debug)]
pub struct UserSessions {
    pub user_session_id: String,
    pub user_session_user_id: String,
    pub user_session_refresh_token: String,
}

/// A session, as the store keeps it.
pub type Session = UserSessions;

/// What a session row holds besides its key.
pub ghost struct SessionView {
    pub user_id: Seq<char>,
    pub refresh_token: Seq<char>,
}

impl UserSessions {
    /// The key of the row.
    pub open spec fn id(self) -> Seq<char> {
        self.user_session_id@
    }

    /// The row without its key.
    pub open spec fn content(self) -> SessionView {
        SessionView {
            user_id: self.user_session_user_id@,
            refresh_token: self.user_session_refresh_token@,
        }
    }

    /// A copy of the row.
    pub fn duplicate(&self) -> (r: UserSessions)
        ensures
            r.id() == self.id(),
            r.content() == self.content(),
    {
        UserSessions {
            user_session_id: self.user_session_id.clone(),
            user_session_user_id: self.user_session_user_id.clone(),
            user_session_refresh_token: self.user_session_refresh_token.clone(),
        }
    }
}

} // verus!
