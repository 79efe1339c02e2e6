//! The authentication orchestrator: it sequences credential lookup, session
//! issuance and session teardown over the two stores, and maps each outcome
//! to a fixed response shape. The session store is never touched unless the
//! credential lookup already succeeded, and sign-out reports success for any
//! token, known or not.

use vstd::prelude::*;

use crate::sessions::SessionStore;
use crate::sessions::has_token;
use crate::sessions::remove_token;
use crate::sessions::token_value;
use crate::users::UserStore;
use crate::users::has_credentials;
use crate::users::has_username;
use crate::users::uuid_for;

verus! {

/// The status a response reports to the caller.
#[derive(Clone, Copy, Debug, PartialEq, Eq, Structural)]
pub enum StatusCode {
    Failure,
    Success,
}

/// The numeric code a status is carried as on the wire.
pub open spec fn status_code_value(status: StatusCode) -> int {
    match status {
        StatusCode::Failure => 0,
        StatusCode::Success => 1,
    }
}

impl StatusCode {
    /// The numeric wire code: 0 for failure, 1 for success.
    pub fn wire_code(&self) -> (code: i32)
        ensures
            code as int == status_code_value(*self),
    {
        match self {
            StatusCode::Failure => 0,
            StatusCode::Success => 1,
        }
    }
}

/// A sign-in request: the credential pair to authenticate.
pub struct SignInRequest {
    pub username: String,
    pub password: String,
}

/// A sign-in response. On success the identifier and token are the ones the
/// stores produced; on failure both are empty, the "not assigned" sentinel.
pub struct SignInResponse {
    pub status_code: StatusCode,
    pub user_uuid: String,
    pub session_token: String,
}

/// A sign-up request: the credential pair to register.
pub struct SignUpRequest {
    pub username: String,
    pub password: String,
}

/// A sign-up response: only a status.
pub struct SignUpResponse {
    pub status_code: StatusCode,
}

/// A sign-out request: the token of the session to end.
pub struct SignOutRequest {
    pub session_token: String,
}

/// A sign-out response: only a status, and always a successful one.
pub struct SignOutResponse {
    pub status_code: StatusCode,
}

impl SignInResponse {
    /// The wire form of this response. A failure carries the literal
    /// sentinel strings that existing clients expect in place of the empty
    /// payload; a success is carried unchanged.
    pub fn to_wire(&self) -> (wire: SignInResponse)
        ensures
            wire.status_code == self.status_code,
            (self.status_code == StatusCode::Success ==> wire.user_uuid@ == self.user_uuid@
                && wire.session_token@ == self.session_token@),
            (self.status_code == StatusCode::Failure ==> wire.user_uuid@ == "Not assigned"@
                && wire.session_token@ == "Not created"@),
    {
        match self.status_code {
            StatusCode::Success => SignInResponse {
                status_code: StatusCode::Success,
                user_uuid: self.user_uuid.clone(),
                session_token: self.session_token.clone(),
            },
            StatusCode::Failure => SignInResponse {
                status_code: StatusCode::Failure,
                user_uuid: "Not assigned".to_owned(),
                session_token: "Not created".to_owned(),
            },
        }
    }
}

/// The orchestrator. It owns the two stores; the process wrapper around the
/// library is expected to hold it behind one exclusive lock per store (or one
/// for the whole service) and to treat a poisoned lock as fatal.
pub struct AuthService {
    users_service: UserStore,
    sessions_service: SessionStore,
}

impl AuthService {
    /// The credential table, as the user store holds it.
    pub closed spec fn users(&self) -> Seq<crate::users::UserRecord> {
        self.users_service@
    }

    /// The live session table, as the session store holds it.
    pub closed spec fn sessions(&self) -> Seq<crate::sessions::SessionRecord> {
        self.sessions_service@
    }

    /// How many session tokens have ever been issued.
    pub closed spec fn sessions_issued(&self) -> nat {
        self.sessions_service.issued()
    }

    /// Both stores satisfy their internal invariants.
    pub closed spec fn wf(&self) -> bool {
        self.users_service.wf() && self.sessions_service.wf()
    }

    /// Builds the service from explicitly constructed stores.
    pub fn new(users_service: UserStore, sessions_service: SessionStore) -> (service: Self)
        requires
            users_service.wf(),
            sessions_service.wf(),
        ensures
            service.wf(),
            service.users() == users_service@,
            service.sessions() == sessions_service@,
            service.sessions_issued() == sessions_service.issued(),
    {
        Self { users_service, sessions_service }
    }

    /// How many session tokens have ever been issued, as a machine integer;
    /// lets the process wrapper rule out counter exhaustion before a sign-in.
    pub fn sessions_issued_count(&self) -> (count: u64)
        ensures
            count as nat == self.sessions_issued(),
    {
        self.sessions_service.issued_count()
    }

    /// Signs a caller in: resolves the credential pair against the user
    /// store and, only if an identifier was found, creates a session bound
    /// to it. A failed lookup reports failure with an empty payload and
    /// leaves the session store untouched; a successful one reports the
    /// identifier and a fresh, never-before-issued token.
    pub fn sign_in(&mut self, request: SignInRequest) -> (response: SignInResponse)
        requires
            old(self).wf(),
            old(self).sessions_issued() < u64::MAX,
        ensures
            final(self).wf(),
            final(self).users() == old(self).users(),
            (!has_credentials(old(self).users(), request.username@, request.password@) ==> {
                &&& response.status_code == StatusCode::Failure
                &&& response.user_uuid@ == Seq::<char>::empty()
                &&& response.session_token@ == Seq::<char>::empty()
                &&& final(self).sessions() == old(self).sessions()
                &&& final(self).sessions_issued() == old(self).sessions_issued()
            }),
            (has_credentials(old(self).users(), request.username@, request.password@) ==> {
                &&& response.status_code == StatusCode::Success
                &&& response.user_uuid@ == uuid_for(old(self).users(), request.username@)
                &&& response.user_uuid@.len() >= 1
                &&& response.session_token@ == token_value(old(self).sessions_issued())
                &&& response.session_token@.len() >= 1
                &&& final(self).sessions_issued() == old(self).sessions_issued() + 1
                &&& final(self).sessions().len() == old(self).sessions().len() + 1
                &&& final(self).sessions().drop_last() == old(self).sessions()
                &&& final(self).sessions().last().token@ == response.session_token@
                &&& final(self).sessions().last().user_uuid@ == response.user_uuid@
                &&& has_token(final(self).sessions(), response.session_token@)
                &&& (forall|j: int|
                    0 <= j < old(self).sessions().len() ==> old(self).sessions()[j].token@
                        != response.session_token@)
            }),
    {
        let uuid = self.users_service.get_user_uuid(request.username, request.password);
        match uuid {
            Some(user_uuid) => {
                let session_token = self.sessions_service.create_session(&user_uuid);
                SignInResponse { status_code: StatusCode::Success, user_uuid, session_token }
            },
            None => SignInResponse {
                status_code: StatusCode::Failure,
                user_uuid: String::new(),
                session_token: String::new(),
            },
        }
    }

    /// Signs a caller up: asks the user store to register the credential
    /// pair. A taken username reports failure and changes nothing; a fresh
    /// one reports success. No session is created either way.
    pub fn sign_up(&mut self, request: SignUpRequest) -> (response: SignUpResponse)
        requires
            old(self).wf(),
        ensures
            final(self).wf(),
            final(self).sessions() == old(self).sessions(),
            final(self).sessions_issued() == old(self).sessions_issued(),
            (has_username(old(self).users(), request.username@) ==> {
                &&& response.status_code == StatusCode::Failure
                &&& final(self).users() == old(self).users()
            }),
            (!has_username(old(self).users(), request.username@) ==> {
                &&& response.status_code == StatusCode::Success
                &&& final(self).users().len() == old(self).users().len() + 1
                &&& final(self).users().drop_last() == old(self).users()
                &&& final(self).users().last().username@ == request.username@
                &&& final(self).users().last().password@ == request.password@
                &&& final(self).users().last().uuid@.len() >= 1
                &&& has_username(final(self).users(), request.username@)
            }),
    {
        let created = self.users_service.create_user(request.username, request.password);
        match created {
            Ok(_) => SignUpResponse { status_code: StatusCode::Success },
            Err(_) => SignUpResponse { status_code: StatusCode::Failure },
        }
    }

    /// Signs a session out: asks the session store to delete whatever
    /// sessions carry the token. The request is unconditional — an empty,
    /// malformed or never-issued token is a no-op — and the response always
    /// reports success.
    pub fn sign_out(&mut self, request: SignOutRequest) -> (response: SignOutResponse)
        requires
            old(self).wf(),
        ensures
            final(self).wf(),
            response.status_code == StatusCode::Success,
            final(self).users() == old(self).users(),
            final(self).sessions_issued() == old(self).sessions_issued(),
            final(self).sessions() == remove_token(old(self).sessions(), request.session_token@),
    {
        self.sessions_service.delete_session(&request.session_token);
        SignOutResponse { status_code: StatusCode::Success }
    }
}

} // verus!
