//! Accounts: what a client learns before it logs in, the sign-up of a new
//! user, and the revision date of a user's vault.

use vstd::prelude::*;
use crate::allowlist::{allow_listed, is_allow_listed};
use crate::cipher::CipherRow;
use crate::clock::now_rfc3339;
use crate::error::{AppError, AppErrorView};
use crate::folders::{Folder, FolderTable};
use crate::ident::fresh_id;
use crate::revision::{instant_of, latest, revision_from};
use crate::rows::is_latest;
use crate::table::CipherTable;
use crate::text::{opt_str, opt_text};
use crate::unicode::{lowercased, to_lowercase};
use crate::users::{by_email, by_id, has_email, User, UserTable, UserView};

verus! {

/// The number of key-derivation rounds told to a client whose address is
/// not known.
pub const DEFAULT_KDF_ITERATIONS: i32 = 600_000;

/// What a client is told before it logs in: the key-derivation function,
/// where 0 stands for PBKDF2, and its number of rounds.
#[derive(Debug, Clone, Copy, PartialEq, Eq, Structural)]
pub struct PreloginResponse {
    pub kdf: i32,
    pub kdf_iterations: i32,
}

/// The two halves of a user's key pair, the private one encrypted.
#[derive(Debug, Clone, PartialEq, Eq)]
pub struct KeyData {
    pub encrypted_private_key: String,
    pub public_key: String,
}

/// What a new user supplies to sign up.
#[derive(Debug, Clone, PartialEq, Eq)]
pub struct RegisterRequest {
    pub name: Option<String>,
    pub email: String,
    pub master_password_hash: String,
    pub master_password_hint: Option<String>,
    pub user_symmetric_key: String,
    pub user_asymmetric_keys: KeyData,
    pub kdf: i32,
    pub kdf_iterations: i32,
}

/// The mathematical value of a [`RegisterRequest`].
pub struct RegisterRequestView {
    pub name: Option<Seq<char>>,
    pub email: Seq<char>,
    pub master_password_hash: Seq<char>,
    pub master_password_hint: Option<Seq<char>>,
    pub user_symmetric_key: Seq<char>,
    pub encrypted_private_key: Seq<char>,
    pub public_key: Seq<char>,
    pub kdf: i32,
    pub kdf_iterations: i32,
}

impl View for RegisterRequest {
    type V = RegisterRequestView;

    open spec fn view(&self) -> RegisterRequestView {
        RegisterRequestView {
            name: opt_text(self.name),
            email: self.email@,
            master_password_hash: self.master_password_hash@,
            master_password_hint: opt_text(self.master_password_hint),
            user_symmetric_key: self.user_symmetric_key@,
            encrypted_private_key: self.user_asymmetric_keys.encrypted_private_key@,
            public_key: self.user_asymmetric_keys.public_key@,
            kdf: self.kdf,
            kdf_iterations: self.kdf_iterations,
        }
    }
}

/// The value of an answer that carries nothing on success.
pub open spec fn done(r: Result<(), AppError>) -> Result<(), AppErrorView> {
    match r {
        Ok(_) => Ok(()),
        Err(e) => Err(e@),
    }
}

/// The value of a prelogin answer.
pub open spec fn prelogin_answer(r: Result<PreloginResponse, AppError>) -> Result<
    PreloginResponse,
    AppErrorView,
> {
    match r {
        Ok(response) => Ok(response),
        Err(e) => Err(e@),
    }
}

/// The address that a prelogin asks about, or `BadRequest` where none was
/// given.
pub open spec fn required(email: Option<Seq<char>>) -> Result<Seq<char>, AppErrorView> {
    match email {
        Some(address) => Ok(address),
        None => Err(AppErrorView::BadRequest("Missing email"@)),
    }
}

/// What a client is told: PBKDF2, with the stored number of rounds or, where
/// none is stored, the default.
pub open spec fn response_for(kdf_iterations: Option<i32>) -> PreloginResponse {
    PreloginResponse {
        kdf: 0,
        kdf_iterations: match kdf_iterations {
            Some(n) => n,
            None => DEFAULT_KDF_ITERATIONS,
        },
    }
}

/// The number of rounds stored for the user who has this address.
pub open spec fn rounds_of(t: Map<Seq<char>, UserView>, email: Seq<char>) -> Option<i32> {
    match by_email(t, email) {
        Some(user) => Some(user.kdf_iterations),
        None => None,
    }
}

/// Prelogin: `BadRequest` where no address was given; else PBKDF2 with the
/// rounds of the user who has the address, or with the default number where
/// nobody has it.
pub open spec fn prelogin_outcome(t: Map<Seq<char>, UserView>, email: Option<Seq<char>>) -> Result<
    PreloginResponse,
    AppErrorView,
> {
    match required(email) {
        Ok(address) => Ok(response_for(rounds_of(t, address))),
        Err(e) => Err(e),
    }
}

/// The user that a sign-up creates: the request's fields, the address in
/// lowercase and not yet verified, both timestamps at `now`.
pub open spec fn new_user(
    request: RegisterRequestView,
    id: Seq<char>,
    security_stamp: Seq<char>,
    now: Seq<char>,
) -> UserView {
    UserView {
        id,
        name: request.name,
        avatar_color: None,
        email: lowercased(request.email),
        email_verified: false,
        master_password_hash: request.master_password_hash,
        master_password_hint: request.master_password_hint,
        key: request.user_symmetric_key,
        private_key: request.encrypted_private_key,
        public_key: request.public_key,
        kdf_type: request.kdf,
        kdf_iterations: request.kdf_iterations,
        security_stamp,
        created_at: now,
        updated_at: now,
    }
}

/// The value of an answer that carries a user on success.
pub open spec fn user_answer(r: Result<User, AppError>) -> Result<UserView, AppErrorView> {
    match r {
        Ok(user) => Ok(user@),
        Err(e) => Err(e@),
    }
}

/// What a sign-up comes to before anything is written.
///
/// Without a list of allowed addresses the answer is `Internal`. An address
/// that is not on the list, compared as it was typed, is `Unauthorized`.
/// Otherwise the answer is the new user.
pub open spec fn signed_up(
    allowed_emails: Option<Seq<char>>,
    request: RegisterRequestView,
    id: Seq<char>,
    security_stamp: Seq<char>,
    now: Seq<char>,
) -> Result<UserView, AppErrorView> {
    match allowed_emails {
        None => Err(AppErrorView::Internal),
        Some(list) => if allow_listed(list, request.email) {
            Ok(new_user(request, id, security_stamp, now))
        } else {
            Err(AppErrorView::Unauthorized("Not allowed to signup"@))
        },
    }
}

/// Sign-up: the table afterwards, and the answer.
///
/// A sign-up that is turned away writes nothing. Nor does one whose `id`
/// or lowercased address is taken, which ends in `Database`.
pub open spec fn register_outcome(
    t: Map<Seq<char>, UserView>,
    allowed_emails: Option<Seq<char>>,
    request: RegisterRequestView,
    id: Seq<char>,
    security_stamp: Seq<char>,
    now: Seq<char>,
) -> (Map<Seq<char>, UserView>, Result<(), AppErrorView>) {
    match signed_up(allowed_emails, request, id, security_stamp, now) {
        Err(e) => (t, Err(e)),
        Ok(user) => if t.contains_key(id) || has_email(t, user.email) {
            (t, Err(AppErrorView::Database))
        } else {
            (t.insert(id, user), Ok(()))
        },
    }
}

/// The address that a prelogin asks about.
pub fn required_email(email: Option<&str>) -> (r: Result<String, AppError>)
    ensures
        match r {
            Ok(address) => required(opt_str(email)) == Ok::<Seq<char>, AppErrorView>(address@),
            Err(e) => required(opt_str(email)) == Err::<Seq<char>, AppErrorView>(e@),
        },
{
    match email {
        Some(address) => Ok(String::from_str(address)),
        None => Err(AppError::bad_request("Missing email")),
    }
}

/// What a client is told, given the number of rounds stored for its
/// address, if any.
pub fn prelogin_response(kdf_iterations: Option<i32>) -> (response: PreloginResponse)
    ensures
        response == response_for(kdf_iterations),
{
    PreloginResponse {
        kdf: 0,
        kdf_iterations: match kdf_iterations {
            Some(n) => n,
            None => DEFAULT_KDF_ITERATIONS,
        },
    }
}

/// Tells a client how to derive its key, before it logs in.
pub fn prelogin(users: &UserTable, email: Option<&str>) -> (r: Result<PreloginResponse, AppError>)
    ensures
        prelogin_answer(r) == prelogin_outcome(users@, opt_str(email)),
{
    match required_email(email) {
        Err(e) => Err(e),
        Ok(address) => {
            let kdf_iterations = match users.find_by_email(address.as_str()) {
                Some(user) => Some(user.kdf_iterations),
                None => None,
            };
            Ok(prelogin_response(kdf_iterations))
        },
    }
}

/// Decides a sign-up under a given `id`, with a given security stamp, at a
/// given `now`.
pub fn sign_up_as(
    allowed_emails: Option<&str>,
    payload: RegisterRequest,
    id: String,
    security_stamp: String,
    now: String,
) -> (r: Result<User, AppError>)
    ensures
        user_answer(r) == signed_up(opt_str(allowed_emails), payload@, id@, security_stamp@, now@),
{
    let list = match allowed_emails {
        None => {
            return Err(AppError::Internal);
        },
        Some(list) => list,
    };
    if !is_allow_listed(list, payload.email.as_str()) {
        return Err(AppError::unauthorized("Not allowed to signup"));
    }
    Ok(
        User {
            id,
            name: payload.name,
            avatar_color: None,
            email: to_lowercase(payload.email.as_str()),
            email_verified: false,
            master_password_hash: payload.master_password_hash,
            master_password_hint: payload.master_password_hint,
            key: payload.user_symmetric_key,
            private_key: payload.user_asymmetric_keys.encrypted_private_key,
            public_key: payload.user_asymmetric_keys.public_key,
            kdf_type: payload.kdf,
            kdf_iterations: payload.kdf_iterations,
            security_stamp,
            created_at: now.clone(),
            updated_at: now,
        },
    )
}

/// Decides a sign-up, with a fresh identifier, a fresh security stamp and
/// the current time for the new user.
pub fn sign_up(allowed_emails: Option<&str>, payload: RegisterRequest) -> (r: Result<User, AppError>)
    ensures
        exists|id: Seq<char>, security_stamp: Seq<char>, now: Seq<char>|
            id.len() == 36 && security_stamp.len() == 36 && user_answer(r) == #[trigger] signed_up(
                opt_str(allowed_emails),
                payload@,
                id,
                security_stamp,
                now,
            ),
{
    let now = now_rfc3339();
    let id = fresh_id();
    let security_stamp = fresh_id();
    let ghost id_text = id@;
    let ghost stamp_text = security_stamp@;
    let ghost now_text = now@;
    let r = sign_up_as(allowed_emails, payload, id, security_stamp, now);
    assert(user_answer(r) == signed_up(
        opt_str(allowed_emails),
        payload@,
        id_text,
        stamp_text,
        now_text,
    ));
    r
}

/// Writes the user of a sign-up that went through, or passes the refusal on.
fn enrol(users: &mut UserTable, decision: Result<User, AppError>) -> (r: Result<(), AppError>)
    ensures
        match decision {
            Err(e) => final(users)@ == old(users)@ && done(r) == Err::<(), AppErrorView>(e@),
            Ok(user) => if old(users)@.contains_key(user@.id) || has_email(
                old(users)@,
                user@.email,
            ) {
                final(users)@ == old(users)@ && done(r) == Err::<(), AppErrorView>(
                    AppErrorView::Database,
                )
            } else {
                final(users)@ == old(users)@.insert(user@.id, user@) && r is Ok
            },
        },
{
    match decision {
        Err(e) => Err(e),
        Ok(user) => {
            if users.insert(user) {
                Ok(())
            } else {
                Err(AppError::Database)
            }
        },
    }
}

/// Signs a user up under a given `id`, with a given security stamp, at a
/// given `now`.
pub fn register_as(
    users: &mut UserTable,
    allowed_emails: Option<&str>,
    payload: RegisterRequest,
    id: String,
    security_stamp: String,
    now: String,
) -> (r: Result<(), AppError>)
    ensures
        (final(users)@, done(r)) == register_outcome(
            old(users)@,
            opt_str(allowed_emails),
            payload@,
            id@,
            security_stamp@,
            now@,
        ),
{
    enrol(users, sign_up_as(allowed_emails, payload, id, security_stamp, now))
}

/// Signs a user up, with a fresh identifier, a fresh security stamp and
/// the current time.
pub fn register(users: &mut UserTable, allowed_emails: Option<&str>, payload: RegisterRequest) -> (r:
    Result<(), AppError>)
    ensures
        exists|id: Seq<char>, security_stamp: Seq<char>, now: Seq<char>|
            id.len() == 36 && security_stamp.len() == 36 && (final(users)@, done(r))
                == #[trigger] register_outcome(
                old(users)@,
                opt_str(allowed_emails),
                payload@,
                id,
                security_stamp,
                now,
            ),
{
    let ghost before = users@;
    let ghost asked = payload@;
    let decision = sign_up(allowed_emails, payload);
    let ghost (id, security_stamp, now) = choose|
        id: Seq<char>,
        security_stamp: Seq<char>,
        now: Seq<char>,
    |
        id.len() == 36 && security_stamp.len() == 36 && user_answer(decision) == #[trigger] signed_up(
            opt_str(allowed_emails),
            asked,
            id,
            security_stamp,
            now,
        );
    let r = enrol(users, decision);
    assert((users@, done(r)) == register_outcome(
        before,
        opt_str(allowed_emails),
        asked,
        id,
        security_stamp,
        now,
    ));
    r
}

/// The token sent to verify an address. Verification is not carried out:
/// the token is always the same.
pub fn send_verification_email() -> (token: String)
    ensures
        token@ == "fixed-token-to-mock"@,
{
    String::from_str("fixed-token-to-mock")
}

/// The `updated_at` of the user `id`, if there is such a user.
pub open spec fn user_stamp(t: Map<Seq<char>, UserView>, id: Seq<char>) -> Option<Seq<char>> {
    match by_id(t, id) {
        Some(user) => Some(user.updated_at),
        None => None,
    }
}

/// The revision date of `owner`'s vault.
///
/// It is the latest of three instants: the user's own `updated_at`, the
/// greatest `updated_at` among the user's ciphers, tombstoned ones
/// included, and the greatest among the user's folders, each left out
/// where it is absent or does not read as a date-time. Where none is
/// left the result is the current time, of which nothing is known here.
pub fn revision_date(users: &UserTable, ciphers: &CipherTable, folders: &FolderTable, owner: &str) -> (r:
    i64)
    ensures
        exists|cipher_updated: Option<Seq<char>>, folder_updated: Option<Seq<char>>|
            {
                &&& #[trigger] is_latest::<CipherRow>(ciphers@, owner@, cipher_updated)
                &&& #[trigger] is_latest::<Folder>(folders@, owner@, folder_updated)
                &&& latest(
                    instant_of(user_stamp(users@, owner@)),
                    instant_of(cipher_updated),
                    instant_of(folder_updated),
                ) matches Some(millis) ==> r == millis
            },
{
    let user_updated = match users.get(owner) {
        Some(user) => Some(user.updated_at),
        None => None,
    };
    let cipher_updated = ciphers.latest_update(owner);
    let folder_updated = folders.latest_update(owner);
    let r = revision_from(&user_updated, &cipher_updated, &folder_updated);
    assert(is_latest::<CipherRow>(ciphers@, owner@, opt_text(cipher_updated)));
    assert(is_latest::<Folder>(folders@, owner@, opt_text(folder_updated)));
    r
}

} // verus!
