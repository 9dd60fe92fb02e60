use vstd::prelude::*;

verus! {

/// A group of users, owning a set of permissions. Identifiers are the
/// 128-bit value of the group's UUID.
pub struct Group {
    pub id: u128,
    pub name: String,
    pub description: Option<String>,
    pub permissions: Vec<String>,
    pub visible: bool,
    pub editable: bool,
    pub locked: bool,
    pub created_at: i64,
    pub updated_at: i64,
    pub deleted_at: Option<i64>,
}

impl Group {
    /// A copy of the permissions this group owns.
    pub fn permissions(&self) -> (r: Vec<String>)
        ensures
            r@ == self.permissions@,
    {
        let mut list: Vec<String> = Vec::new();
        let mut i: usize = 0;
        while i < self.permissions.len()
            invariant
                i <= self.permissions@.len(),
                list@ == self.permissions@.subrange(0, i as int),
            decreases self.permissions@.len() - i,
        {
            list.push(self.permissions[i].clone());
            i = i + 1;
        }
        assert(list@ =~= self.permissions@);
        list
    }
}

/// A user account as the user store keeps it.
pub struct User {
    pub id: u128,
    pub name: String,
    pub phone: Option<String>,
    pub role: Option<String>,
    pub email: String,
    pub username: String,
    pub password_hash: Vec<u8>,
    pub visible: bool,
    pub editable: bool,
    pub locked: bool,
    pub created_at: i64,
    pub updated_at: i64,
    pub deleted_at: Option<i64>,
}

/// A user together with the groups it belongs to.
pub struct UserWithGroups {
    pub user: User,
    pub groups: Vec<Group>,
}

/// The fields a client sends to create or update a group.
pub struct GroupDto {
    pub name: String,
    pub description: Option<String>,
    pub permissions: Vec<String>,
    pub visible: Option<bool>,
    pub editable: Option<bool>,
    pub locked: Option<bool>,
}

/// A new password, and the credential hash derived from it.
pub struct PasswordDto {
    pub password: String,
    pub password_hash: Vec<u8>,
}

/// The credentials a client presents to log in.
pub struct LoginDto {
    pub username: String,
    pub password: String,
}

/// The fields of a user's own profile that the user may change.
pub struct ProfileDto {
    pub name: String,
    pub phone: Option<String>,
    pub role: Option<String>,
}

} // verus!
