//! The user store: the credential table behind the gateway. It resolves a
//! (username, password) pair to the stable identifier of the matching user and
//! registers new users, refusing duplicate usernames.

use vstd::prelude::*;

use crate::decimal::dec_digits;
use crate::decimal::lemma_dec_digits_injective;
use crate::decimal::lemma_dec_digits_nonempty;

verus! {

/// One registered user: a credential pair and the stable identifier the store
/// minted for it.
pub struct UserRecord {
    pub username: String,
    pub password: String,
    pub uuid: String,
}

/// Whether some record in `users` carries this username.
pub open spec fn has_username(users: Seq<UserRecord>, username: Seq<char>) -> bool {
    exists|i: int| 0 <= i < users.len() && users[i].username@ == username
}

/// Whether some record in `users` carries exactly this credential pair.
pub open spec fn has_credentials(
    users: Seq<UserRecord>,
    username: Seq<char>,
    password: Seq<char>,
) -> bool {
    exists|i: int|
        0 <= i < users.len() && users[i].username@ == username && users[i].password@ == password
}

/// The identifier of the user carrying this username (meaningful only when
/// `has_username` holds and usernames are distinct).
pub open spec fn uuid_for(users: Seq<UserRecord>, username: Seq<char>) -> Seq<char> {
    let i = choose|i: int| 0 <= i < users.len() && users[i].username@ == username;
    users[i].uuid@
}

/// The password of the user carrying this username (meaningful only when
/// `has_username` holds and usernames are distinct).
pub open spec fn password_for(users: Seq<UserRecord>, username: Seq<char>) -> Seq<char> {
    let i = choose|i: int| 0 <= i < users.len() && users[i].username@ == username;
    users[i].password@
}

/// No two records share a username.
pub open spec fn distinct_usernames(users: Seq<UserRecord>) -> bool {
    forall|i: int, j: int|
        0 <= i < users.len() && 0 <= j < users.len() && i != j ==> users[i].username@ != users[
            j
        ].username@
}

/// Registration failure: the reasons the store refuses to create a user.
#[derive(Clone, Copy, Debug, PartialEq, Eq, Structural)]
pub enum CreateUserError {
    DuplicateUsername,
}

/// The credential table. Identifiers are minted from the record's position,
/// so they are pairwise distinct and never empty.
pub struct UserStore {
    records: Vec<UserRecord>,
}

impl View for UserStore {
    type V = Seq<UserRecord>;

    closed spec fn view(&self) -> Seq<UserRecord> {
        self.records@
    }
}

impl UserStore {
    /// Internal invariant: usernames are unique and each record's identifier
    /// is the decimal rendering of its position.
    pub closed spec fn wf(&self) -> bool {
        &&& distinct_usernames(self.records@)
        &&& forall|i: int|
            0 <= i < self.records@.len() ==> self.records@[i].uuid@ == dec_digits(i as nat)
    }

    /// Resolves a credential pair to the matching user's identifier; yields
    /// `None` when the username is unknown or the password does not match.
    pub fn get_user_uuid(&self, username: String, password: String) -> (result: Option<String>)
        requires
            self.wf(),
        ensures
            result is Some <==> has_credentials(self@, username@, password@),
            (result matches Some(uuid) ==> uuid@ == uuid_for(self@, username@) && uuid@.len() >= 1),
    {
        let n = self.records.len();
        let mut i: usize = 0;
        while i < n
            invariant
                self.wf(),
                n == self.records@.len(),
                0 <= i <= n,
                forall|j: int| 0 <= j < i ==> self.records@[j].username@ != username@,
            decreases n - i,
        {
            let record = &self.records[i];
            if record.username.eq(&username) {
                if record.password.eq(&password) {
                    proof {
                        let k = choose|k: int|
                            0 <= k < self@.len() && self@[k].username@ == username@;
                        assert(k == i as int);
                        lemma_dec_digits_nonempty(i as nat);
                    }
                    return Some(record.uuid.clone());
                } else {
                    proof {
                        assert forall|k: int|
                            0 <= k < self@.len() implies !(self@[k].username@ == username@
                            && self@[k].password@ == password@) by {
                            if self@[k].username@ == username@ {
                                assert(k == i as int);
                            }
                        }
                    }
                    return None;
                }
            }
            i = i + 1;
        }
        None
    }

    /// Registers a new user and mints its identifier; refuses a username that
    /// is already taken and leaves the table unchanged in that case.
    pub fn create_user(&mut self, username: String, password: String) -> (result: Result<
        String,
        CreateUserError,
    >)
        requires
            old(self).wf(),
        ensures
            final(self).wf(),
            result is Ok <==> !has_username(old(self)@, username@),
            (result matches Err(e) ==> e is DuplicateUsername && final(self)@ == old(self)@),
            (result matches Ok(uuid) ==> {
                &&& uuid@.len() >= 1
                &&& final(self)@.len() == old(self)@.len() + 1
                &&& final(self)@.drop_last() == old(self)@
                &&& final(self)@.last().username@ == username@
                &&& final(self)@.last().password@ == password@
                &&& final(self)@.last().uuid@ == uuid@
                &&& uuid_for(final(self)@, username@) == uuid@
                &&& has_username(final(self)@, username@)
                &&& forall|j: int| 0 <= j < old(self)@.len() ==> old(self)@[j].uuid@ != uuid@
            }),
    {
        let n = self.records.len();
        let mut i: usize = 0;
        while i < n
            invariant
                self.wf(),
                n == self.records@.len(),
                0 <= i <= n,
                forall|j: int| 0 <= j < i ==> self.records@[j].username@ != username@,
            decreases n - i,
        {
            if self.records[i].username.eq(&username) {
                return Err(CreateUserError::DuplicateUsername);
            }
            i = i + 1;
        }
        let uuid = crate::decimal::render_decimal(n as u64);
        proof {
            lemma_dec_digits_nonempty(n as nat);
        }
        let record = UserRecord { username, password, uuid: uuid.clone() };
        self.records.push(record);
        proof {
            assert(self.records@.drop_last() =~= old(self).records@);
            let new_len = self.records@.len();
            assert forall|a: int, b: int|
                0 <= a < new_len && 0 <= b < new_len && a != b implies self.records@[a].username@
                != self.records@[b].username@ by {
                if a < new_len - 1 && b < new_len - 1 {
                    assert(old(self).records@[a].username@ != old(self).records@[b].username@);
                }
            }
            let k = choose|k: int| 0 <= k < self@.len() && self@[k].username@ == username@;
            assert(self@[new_len - 1].username@ == username@);
            assert(k == new_len - 1);
            assert forall|j: int| 0 <= j < old(self)@.len() implies old(self)@[j].uuid@
                != uuid@ by {
                if old(self)@[j].uuid@ == uuid@ {
                    lemma_dec_digits_injective(j as nat, n as nat);
                }
            }
        }
        Ok(uuid)
    }
}

impl Default for UserStore {
    /// An empty credential table.
    fn default() -> (result: Self)
        ensures
            result@ == Seq::<UserRecord>::empty(),
            result.wf(),
    {
        UserStore { records: Vec::new() }
    }
}

/// An unregistered username can never carry matching credentials: looking it
/// up fails whatever password is offered.
pub proof fn lemma_unknown_username_has_no_credentials(
    users: Seq<UserRecord>,
    username: Seq<char>,
    password: Seq<char>,
)
    requires
        !has_username(users, username),
    ensures
        !has_credentials(users, username, password),
{
}

/// A registered username offered with anything but its stored password can
/// never carry matching credentials.
pub proof fn lemma_wrong_password_has_no_credentials(
    users: Seq<UserRecord>,
    username: Seq<char>,
    password: Seq<char>,
)
    requires
        distinct_usernames(users),
        has_username(users, username),
        password != password_for(users, username),
    ensures
        !has_credentials(users, username, password),
{
    let k = choose|k: int| 0 <= k < users.len() && users[k].username@ == username;
    assert forall|i: int|
        0 <= i < users.len() implies !(users[i].username@ == username && users[i].password@
        == password) by {
        if users[i].username@ == username {
            assert(i == k);
        }
    }
}

} // verus!
