//! Users: their names, their passwords and their keys.

use vstd::prelude::*;
use vstd::string::StrSliceExecFns;
use vstd::utf8::encode_utf8;

use crate::data::validity::{lemma_deleting_stays_unique};
use crate::data::models::{
    views, SourceDomain, SourceDomainView, User, UserSource, UserSourceItem, UserSourceItemView,
    UserSourceView, UserView,
};
use crate::data::password::{
    stored_password, Password, UserAuthError, PBKDF2_ITERATIONS, PASSWORD_DERIVED_KEY_LEN,
    pbkdf2_key,
};
use crate::data::table::{
    any_where, change_each, each_changed, find_first, first_where, lemma_first_index, retain,
};
use crate::data::{take_rows, Data, DataError, DataView};
use crate::random::os_random_bytes;
use crate::text::{copy_bytes, copy_str, str_eq};

verus! {

pub type UserId = i32;

pub type UserTokens = u16;

/// Number of tokens that a new user has.
pub const MAX_TOKEN_COUNT: u16 = 64;

/// Length of a client key in bytes.
pub const CLIENT_KEY_LEN: usize = 32;

pub const USER_NAME_MIN_LEN: usize = 3;

pub const USER_NAME_MAX_LEN: usize = 32;

/// Whether a character is a letter or a digit in the sense of Unicode.
pub uninterp spec fn is_alphanumeric_char(c: char) -> bool;

/// `char::is_alphanumeric`: whether the character is a letter or a digit,
/// which `is_alphanumeric_char` names.
pub assume_specification[ char::is_alphanumeric ](c: char) -> (b: bool)
    ensures
        b == is_alphanumeric_char(c),
;

/// A user name is valid when it is three to thirty-two bytes long and holds
/// letters and digits only.
pub open spec fn valid_user_name(name: Seq<char>) -> bool {
    USER_NAME_MIN_LEN <= encode_utf8(name).len() <= USER_NAME_MAX_LEN && forall|i: int|
        0 <= i < name.len() ==> is_alphanumeric_char(#[trigger] name[i])
}

/// Why a user was not created.
#[derive(Debug, Clone, Copy, PartialEq, Eq, Structural)]
pub enum CreateUserError {
    NameTaken,
    InvalidName,
    PasswordDerivationError,
    Data(DataError),
}

/// Why a user was not changed.
#[derive(Debug, Clone, Copy, PartialEq, Eq, Structural)]
pub enum ModifyUserError {
    NameTaken,
    InvalidName,
    PasswordDerivationError,
    Data(DataError),
}

/// The greatest of the ids, or zero where there is none.
pub open spec fn max_id(ids: Seq<Option<i32>>) -> int
    decreases ids.len(),
{
    if ids.len() == 0 {
        0
    } else {
        let before = max_id(ids.drop_last());
        match ids.last() {
            Some(id) => if id > before {
                id as int
            } else {
                before
            },
            None => before,
        }
    }
}

/// The row of a new user.
pub open spec fn new_user(
    id: i32,
    name: Seq<char>,
    password: Seq<char>,
    secret_key: Seq<char>,
    client_key: Seq<u8>,
) -> UserView {
    UserView {
        id: Some(id),
        name,
        password,
        secret_key,
        tokens: MAX_TOKEN_COUNT as i32,
        client_key,
    }
}

impl DataView {
    /// The user with the id `id`: the first such row.
    pub open spec fn user(self, id: UserId) -> Option<UserView> {
        first_where(self.users, |u: UserView| u.id == Some(id))
    }

    /// The user with the name `name`: the first such row.
    pub open spec fn user_by_name(self, name: Seq<char>) -> Option<UserView> {
        first_where(self.users, |u: UserView| u.name == name)
    }

    /// Whether a user has the name `name`.
    pub open spec fn is_user_name_taken(self, name: Seq<char>) -> bool {
        any_where(self.users, |u: UserView| u.name == name)
    }

    /// The greatest id of a user, or zero where no user has one.
    pub open spec fn max_user_id(self) -> int {
        max_id(self.users.map_values(|u: UserView| u.id))
    }

    /// What adding a user comes to: the store with the new user at the end
    /// of the users, under the id that follows the greatest, or the reason why
    /// nothing changes.
    pub open spec fn insert_user_result(
        self,
        name: Seq<char>,
        password: Seq<char>,
        secret_key: Seq<char>,
        client_key: Seq<u8>,
    ) -> Result<DataView, CreateUserError> {
        if !valid_user_name(name) {
            Err(CreateUserError::InvalidName)
        } else if self.is_user_name_taken(name) {
            Err(CreateUserError::NameTaken)
        } else if self.max_user_id() >= i32::MAX {
            Err(CreateUserError::Data(DataError::Database))
        } else {
            Ok(
                DataView {
                    users: self.users.push(
                        new_user(
                            (self.max_user_id() + 1) as i32,
                            name,
                            password,
                            secret_key,
                            client_key,
                        ),
                    ),
                    ..self
                },
            )
        }
    }

    /// The store with `change` applied to the user with the id `id`, if the
    /// id is one.
    pub open spec fn with_user_changed(self, id: Option<i32>, change: spec_fn(UserView) -> UserView) ->
        DataView {
        DataView {
            users: each_changed(
                self.users,
                |u: UserView|
                    if id is Some && u.id == id {
                        change(u)
                    } else {
                        u
                    },
            ),
            ..self
        }
    }

    /// The store in which the user with the id `id` has the name `name`.
    pub open spec fn with_user_name(self, id: Option<i32>, name: Seq<char>) -> DataView {
        self.with_user_changed(id, |u: UserView| UserView { name, ..u })
    }

    /// The store in which the user with the id `id` has the stored password
    /// `password`.
    pub open spec fn with_user_password(self, id: Option<i32>, password: Seq<char>) -> DataView {
        self.with_user_changed(id, |u: UserView| UserView { password, ..u })
    }

    /// The store in which the user with the id `id` has the secret key
    /// `secret_key`.
    pub open spec fn with_user_secret_key(self, id: Option<i32>, secret_key: Seq<char>) ->
        DataView {
        self.with_user_changed(id, |u: UserView| UserView { secret_key, ..u })
    }

    /// The store in which the user with the id `id` has the client key
    /// `client_key`.
    pub open spec fn with_user_client_key(self, id: Option<i32>, client_key: Seq<u8>) -> DataView {
        self.with_user_changed(id, |u: UserView| UserView { client_key, ..u })
    }

    /// The store in which the user with the id `id` has `tokens` tokens.
    pub open spec fn with_user_tokens(self, id: Option<i32>, tokens: i32) -> DataView {
        self.with_user_changed(id, |u: UserView| UserView { tokens, ..u })
    }

    /// What changing the name of the user with the id `id` comes to.
    pub open spec fn change_user_name_result(self, id: Option<i32>, name: Seq<char>) -> Result<
        DataView,
        ModifyUserError,
    > {
        if !valid_user_name(name) {
            Err(ModifyUserError::InvalidName)
        } else if self.is_user_name_taken(name) {
            Err(ModifyUserError::NameTaken)
        } else {
            Ok(self.with_user_changed(id, |u: UserView| UserView { name, ..u }))
        }
    }

    /// The store without the user `user`: without the user's pointers to
    /// items and sources, the user's domains and the user's row.
    pub open spec fn without_user(self, user: UserId) -> DataView {
        DataView {
            user_source_items: self.user_source_items.filter(
                |p: UserSourceItemView| p.user_id != user,
            ),
            user_sources: self.user_sources.filter(|p: UserSourceView| p.user_id != user),
            source_domains: self.source_domains.filter(|d: SourceDomainView| d.owner_id != user),
            users: self.users.filter(|u: UserView| u.id != Some(user)),
            ..self
        }
    }
}

/// A snapshot of a user's data.
#[derive(Debug)]
pub struct UserSnapshot {
    model: User,
}

impl View for UserSnapshot {
    type V = UserView;

    closed spec fn view(&self) -> UserView {
        self.model@
    }
}

/// Whether `password` is the password that was stored as `stored`, or the
/// reason why the stored password cannot be read.
pub open spec fn auth_result(stored: Seq<char>, password: Seq<char>) -> Result<bool, UserAuthError> {
    match stored_password(encode_utf8(stored)) {
        Ok((key, salt)) => Ok(
            pbkdf2_key(
                encode_utf8(password),
                salt,
                PBKDF2_ITERATIONS,
                PASSWORD_DERIVED_KEY_LEN as nat,
            ) == Some(key),
        ),
        Err(e) => Err(UserAuthError::PasswordParse(e)),
    }
}

/// Whether `e` is an error that creating a user with a valid, free name can
/// end in: the password could not be derived, no random key could be drawn,
/// or no id is left above `max_id`.
pub open spec fn is_creation_failure(e: CreateUserError, max_id: int) -> bool {
    match e {
        CreateUserError::PasswordDerivationError => true,
        CreateUserError::Data(DataError::Io) => true,
        CreateUserError::Data(DataError::Database) => max_id >= i32::MAX,
        _ => false,
    }
}

/// The low sixteen bits of a stored number of tokens.
pub open spec fn tokens_of(stored: i32) -> u16 {
    (stored as int % 0x1_0000) as u16
}

impl UserSnapshot {
    pub fn from(this: User) -> (snapshot: UserSnapshot)
        ensures
            snapshot@ == this@,
    {
        UserSnapshot { model: this }
    }

    /// Whether the user has an id, as every stored user has.
    pub fn has_id(&self) -> (stored: bool)
        ensures
            stored == (self@.id is Some),
    {
        self.model.id.is_some()
    }

    /// The id of the user. A snapshot of a stored user has one.
    pub fn id(&self) -> (id: UserId)
        requires
            self@.id is Some,
        ensures
            Some(id) == self@.id,
    {
        match self.model.id {
            Some(id) => id,
            None => 0,
        }
    }

    pub fn name(&self) -> (name: &str)
        ensures
            name@ == self@.name,
    {
        self.model.name.as_str()
    }

    /// Returns true if the password is correct.
    pub fn auth(&self, password: &str) -> (res: Result<bool, UserAuthError>)
        ensures
            res == auth_result(self@.password, password@),
    {
        match Password::from_string(self.model.password.as_str()) {
            Ok(derived) => Ok(derived.verify(password)),
            Err(e) => Err(UserAuthError::PasswordParse(e)),
        }
    }

    /// Returns the client key.
    pub fn client_key(&self) -> (key: &[u8])
        ensures
            key@ == self@.client_key,
    {
        self.model.client_key.as_slice()
    }

    /// Returns the encrypted secret key.
    pub fn secret_key(&self) -> (key: &str)
        ensures
            key@ == self@.secret_key,
    {
        self.model.secret_key.as_str()
    }

    /// Returns the user's available number of tokens.
    pub fn tokens(&self) -> (tokens: UserTokens)
        ensures
            tokens == tokens_of(self@.tokens),
    {
        let stored: i64 = self.model.tokens as i64;
        let shifted: i64 = stored + 0x8000_0000;
        ((shifted % 0x1_0000) as u16)
    }

    /// Sets the user's token count.
    pub fn set_tokens(&mut self, data: &mut Data, tokens: UserTokens) -> (res: Result<
        (),
        DataError,
    >)
        ensures
            old(data)@.well_formed() ==> final(data)@.well_formed(),
            res is Ok,
            final(self)@ == (UserView { tokens: tokens as i32, ..old(self)@ }),
            final(data)@ == old(data)@.with_user_tokens(old(self)@.id, tokens as i32),
    {
        let id = self.model.id;
        let ghost changed = |u: UserView|
            if id is Some && u.id == id {
                UserView { tokens: tokens as i32, ..u }
            } else {
                u
            };
        let change = |u: User| -> (c: User)
            ensures
                c@ == changed(u@),
            {
                if id.is_some() && same_id(u.id, id) {
                    User {
                        id: u.id,
                        name: u.name,
                        password: u.password,
                        secret_key: u.secret_key,
                        tokens: tokens as i32,
                        client_key: u.client_key,
                    }
                } else {
                    u
                }
            };
        let rows = take_rows(&mut data.users);
        data.users = change_each(rows, change, Ghost(changed));
        self.model.tokens = tokens as i32;
        proof {
            assert(data@ =~~= old(data)@.with_user_tokens(old(self)@.id, tokens as i32));
        }
        Ok(())
    }
}

/// Whether two optional ids are the same.
pub fn same_id(a: Option<i32>, b: Option<i32>) -> (same: bool)
    ensures
        same == (a == b),
{
    match (a, b) {
        (Some(x), Some(y)) => x == y,
        (None, None) => true,
        _ => false,
    }
}

/// Finds the greatest id of a user.
fn greatest_user_id(users: &Vec<User>) -> (max: i32)
    ensures
        max == max_id(views(users@).map_values(|u: UserView| u.id)),
        max >= 0,
{
    let ghost ids = views(users@).map_values(|u: UserView| u.id);
    let mut max: i32 = 0;
    let mut i: usize = 0;
    while i < users.len()
        invariant
            i <= users@.len(),
            ids == views(users@).map_values(|u: UserView| u.id),
            max == max_id(ids.take(i as int)),
            max >= 0,
        decreases users@.len() - i,
    {
        proof {
            assert(ids.take(i + 1).drop_last() =~= ids.take(i as int));
            assert(ids.take(i + 1).last() == users@[i as int]@.id);
        }
        match users[i].id {
            Some(id) => {
                if id > max {
                    max = id;
                }
            },
            None => {},
        }
        i += 1;
    }
    assert(ids.take(i as int) =~= ids);
    max
}

impl Data {
    pub fn user(&self, id: UserId) -> (res: Result<Option<UserSnapshot>, DataError>)
        ensures
            res matches Ok(found) && match (found, self@.user(id)) {
                (Some(snapshot), Some(row)) => snapshot@ == row && snapshot@.id == Some(id),
                (None, None) => true,
                _ => false,
            },
    {
        let ghost pred = |u: UserView| u.id == Some(id);
        let found = |u: &User| -> (b: bool)
            ensures
                b == pred(u@),
            { same_id(u.id, Some(id)) };
        let place = find_first(&self.users, found, Ghost(pred));
        proof {
            lemma_first_index(self@.users, pred);
        }
        match place {
            Some(i) => Ok(Some(UserSnapshot::from(self.users[i].copy()))),
            None => Ok(None),
        }
    }

    /// Returns a user by name.
    pub fn user_by_name(&self, name: &str) -> (res: Result<Option<UserSnapshot>, DataError>)
        ensures
            res matches Ok(found) && match (found, self@.user_by_name(name@)) {
                (Some(snapshot), Some(row)) => snapshot@ == row,
                (None, None) => true,
                _ => false,
            },
    {
        let ghost pred = |u: UserView| u.name == name@;
        let found = |u: &User| -> (b: bool)
            ensures
                b == pred(u@),
            { str_eq(u.name.as_str(), name) };
        match find_first(&self.users, found, Ghost(pred)) {
            Some(i) => Ok(Some(UserSnapshot::from(self.users[i].copy()))),
            None => Ok(None),
        }
    }

    /// Returns whether a username is taken.
    pub fn is_user_name_taken(&self, name: &str) -> (res: Result<bool, DataError>)
        ensures
            res == Ok::<bool, DataError>(self@.is_user_name_taken(name@)),
    {
        let ghost pred = |u: UserView| u.name == name@;
        let found = |u: &User| -> (b: bool)
            ensures
                b == pred(u@),
            { str_eq(u.name.as_str(), name) };
        let place = find_first(&self.users, found, Ghost(pred));
        proof {
            lemma_first_index(self@.users, pred);
        }
        Ok(place.is_some())
    }

    /// Returns whether a string is a valid username.
    pub fn is_valid_user_name(&self, name: &str) -> (valid: bool)
        ensures
            valid == valid_user_name(name@),
    {
        let len = name.as_bytes().len();
        if len < USER_NAME_MIN_LEN || len > USER_NAME_MAX_LEN {
            return false;
        }
        let count = name.unicode_len();
        let mut i: usize = 0;
        while i < count
            invariant
                i <= count,
                count == name@.len(),
                USER_NAME_MIN_LEN <= encode_utf8(name@).len() <= USER_NAME_MAX_LEN,
                forall|j: int| 0 <= j < i ==> is_alphanumeric_char(#[trigger] name@[j]),
            decreases count - i,
        {
            let c = name.get_char(i);
            if !c.is_alphanumeric() {
                return false;
            }
            i += 1;
        }
        true
    }

    /// Adds a user whose password was derived and stored as `password`, and
    /// whose client key was drawn as `client_key`.
    pub fn insert_user(
        &mut self,
        name: &str,
        password: String,
        secret_key: &str,
        client_key: Vec<u8>,
    ) -> (res: Result<(), CreateUserError>)
        ensures
            old(self)@.well_formed() ==> final(self)@.well_formed(),
            match old(self)@.insert_user_result(name@, password@, secret_key@, client_key@) {
                Ok(store) => res is Ok && final(self)@ == store,
                Err(e) => res == Err::<(), CreateUserError>(e) && final(self)@ == old(self)@,
            },
    {
        if !self.is_valid_user_name(name) {
            return Err(CreateUserError::InvalidName);
        }
        match self.is_user_name_taken(name) {
            Ok(true) => {
                return Err(CreateUserError::NameTaken);
            },
            Ok(false) => {},
            Err(e) => {
                return Err(CreateUserError::Data(e));
            },
        }
        let max = greatest_user_id(&self.users);
        if max >= i32::MAX {
            return Err(CreateUserError::Data(DataError::Database));
        }
        let ghost before = self.users@;
        let ghost row = new_user((max + 1) as i32, name@, password@, secret_key@, client_key@);
        self.users.push(
            User {
                id: Some(max + 1),
                name: copy_str(name),
                password,
                secret_key: copy_str(secret_key),
                tokens: MAX_TOKEN_COUNT as i32,
                client_key,
            },
        );
        proof {
            assert(views(self.users@) =~= views(before).push(row));
            assert(self@ =~~= old(self)@.insert_user_result(
                name@,
                password@,
                secret_key@,
                client_key@,
            )->Ok_0);
        }
        Ok(())
    }

    /// Creates a new user.
    ///
    /// An invalid name and a taken name are refused. Otherwise the user is
    /// added with a password verifier of a random salt and with a random
    /// client key, unless the randomness or the derivation fails, or the ids
    /// are used up.
    pub fn create_user(&mut self, name: &str, password: &str, secret_key: &str) -> (res: Result<
        (),
        CreateUserError,
    >)
        ensures
            old(self)@.well_formed() ==> final(self)@.well_formed(),
            !valid_user_name(name@) ==> res == Err::<(), CreateUserError>(
                CreateUserError::InvalidName,
            ),
            valid_user_name(name@) && old(self)@.is_user_name_taken(name@) ==> res == Err::<
                (),
                CreateUserError,
            >(CreateUserError::NameTaken),
            valid_user_name(name@) && !old(self)@.is_user_name_taken(name@) ==> (res matches Err(e)
                ==> is_creation_failure(e, old(self)@.max_user_id())),
            old(self)@.max_user_id() >= i32::MAX ==> res is Err,
            res is Err ==> final(self)@ == old(self)@,
            res is Ok ==> exists|verifier: Password, client_key: Seq<u8>|
                verifier.accepts(password@) && client_key.len() == CLIENT_KEY_LEN && Ok::<
                    DataView,
                    CreateUserError,
                >(final(self)@) == #[trigger] old(self)@.insert_user_result(
                    name@,
                    Password::stored_text(verifier.derived_key@, verifier.salt@),
                    secret_key@,
                    client_key,
                ),
    {
        if !self.is_valid_user_name(name) {
            return Err(CreateUserError::InvalidName);
        }
        match self.is_user_name_taken(name) {
            Ok(true) => {
                return Err(CreateUserError::NameTaken);
            },
            Ok(false) => {},
            Err(e) => {
                return Err(CreateUserError::Data(e));
            },
        }
        let verifier = match Password::create(password) {
            Ok(p) => p,
            Err(_) => {
                return Err(CreateUserError::PasswordDerivationError);
            },
        };
        let client_key = match os_random_bytes(CLIENT_KEY_LEN) {
            Some(k) => k,
            None => {
                return Err(CreateUserError::Data(DataError::Io));
            },
        };
        let ghost key = client_key@;
        let text = verifier.to_string();
        let res = self.insert_user(name, text, secret_key, client_key);
        proof {
            if res is Ok {
                assert(Ok::<DataView, CreateUserError>(self@) == old(self)@.insert_user_result(
                    name@,
                    Password::stored_text(verifier.derived_key@, verifier.salt@),
                    secret_key@,
                    key,
                ));
            }
        }
        res
    }

    /// Replaces the client key of the user with `client_key`.
    pub fn set_user_client_key(&mut self, user: &UserSnapshot, client_key: Vec<u8>)
        ensures
            old(self)@.well_formed() ==> final(self)@.well_formed(),
            final(self)@ == old(self)@.with_user_client_key(user@.id, client_key@),
    {
        let id = user.model.id;
        let ghost changed = |u: UserView|
            if id is Some && u.id == id {
                UserView { client_key: client_key@, ..u }
            } else {
                u
            };
        let key = &client_key;
        let change = |u: User| -> (c: User)
            ensures
                c@ == changed(u@),
            {
                if id.is_some() && same_id(u.id, id) {
                    User {
                        id: u.id,
                        name: u.name,
                        password: u.password,
                        secret_key: u.secret_key,
                        tokens: u.tokens,
                        client_key: copy_bytes(key.as_slice()),
                    }
                } else {
                    u
                }
            };
        let rows = take_rows(&mut self.users);
        self.users = change_each(rows, change, Ghost(changed));
        proof {
            assert(self@ =~~= old(self)@.with_user_client_key(user@.id, client_key@));
        }
    }

    /// Gives the user a new, random client key. Fails, and changes nothing,
    /// where no random bytes can be had.
    pub fn user_regen_client_key(&mut self, user: &UserSnapshot) -> (res: Result<(), DataError>)
        ensures
            old(self)@.well_formed() ==> final(self)@.well_formed(),
            res matches Err(e) ==> e == DataError::Io && final(self)@ == old(self)@,
            res is Ok ==> exists|client_key: Seq<u8>|
                client_key.len() == CLIENT_KEY_LEN
                    && final(self)@ == old(self)@.with_user_client_key(user@.id, client_key),
    {
        let client_key = match os_random_bytes(CLIENT_KEY_LEN) {
            Some(k) => k,
            None => {
                return Err(DataError::Io);
            },
        };
        let ghost key = client_key@;
        self.set_user_client_key(user, client_key);
        proof {
            assert(key.len() == CLIENT_KEY_LEN && self@ == old(self)@.with_user_client_key(user@.id, key));
        }
        Ok(())
    }

    pub fn change_user_name(&mut self, user: &UserSnapshot, new_name: &str) -> (res: Result<
        (),
        ModifyUserError,
    >)
        ensures
            old(self)@.well_formed() ==> final(self)@.well_formed(),
            match old(self)@.change_user_name_result(user@.id, new_name@) {
                Ok(store) => res is Ok && final(self)@ == store,
                Err(e) => res == Err::<(), ModifyUserError>(e) && final(self)@ == old(self)@,
            },
    {
        if !self.is_valid_user_name(new_name) {
            return Err(ModifyUserError::InvalidName);
        }
        match self.is_user_name_taken(new_name) {
            Ok(true) => {
                return Err(ModifyUserError::NameTaken);
            },
            Ok(false) => {},
            Err(e) => {
                return Err(ModifyUserError::Data(e));
            },
        }
        let id = user.model.id;
        let ghost changed = |u: UserView|
            if id is Some && u.id == id {
                UserView { name: new_name@, ..u }
            } else {
                u
            };
        let change = |u: User| -> (c: User)
            ensures
                c@ == changed(u@),
            {
                if id.is_some() && same_id(u.id, id) {
                    User {
                        id: u.id,
                        name: copy_str(new_name),
                        password: u.password,
                        secret_key: u.secret_key,
                        tokens: u.tokens,
                        client_key: u.client_key,
                    }
                } else {
                    u
                }
            };
        let rows = take_rows(&mut self.users);
        self.users = change_each(rows, change, Ghost(changed));
        proof {
            assert(self@ =~~= old(self)@.with_user_name(user@.id, new_name@));
        }
        Ok(())
    }

    /// Stores `password` as the password verifier of the user.
    pub fn set_user_password(&mut self, user: &UserSnapshot, password: &str)
        ensures
            old(self)@.well_formed() ==> final(self)@.well_formed(),
            final(self)@ == old(self)@.with_user_password(user@.id, password@),
    {
        let id = user.model.id;
        let ghost changed = |u: UserView|
            if id is Some && u.id == id {
                UserView { password: password@, ..u }
            } else {
                u
            };
        let change = |u: User| -> (c: User)
            ensures
                c@ == changed(u@),
            {
                if id.is_some() && same_id(u.id, id) {
                    User {
                        id: u.id,
                        name: u.name,
                        password: copy_str(password),
                        secret_key: u.secret_key,
                        tokens: u.tokens,
                        client_key: u.client_key,
                    }
                } else {
                    u
                }
            };
        let rows = take_rows(&mut self.users);
        self.users = change_each(rows, change, Ghost(changed));
        proof {
            assert(self@ =~~= old(self)@.with_user_password(user@.id, password@));
        }
    }

    /// Gives the user a new password. The verifier that is stored accepts
    /// the new password. Fails, and changes nothing, where the randomness or
    /// the derivation fails.
    pub fn change_user_password(&mut self, user: &UserSnapshot, new_password: &str) -> (res:
        Result<(), ModifyUserError>)
        ensures
            old(self)@.well_formed() ==> final(self)@.well_formed(),
            res is Err ==> res == Err::<(), ModifyUserError>(
                ModifyUserError::PasswordDerivationError,
            ) && final(self)@ == old(self)@,
            res is Ok ==> exists|verifier: Password|
                verifier.accepts(new_password@) && final(self)@ == old(self)@.with_user_password(
                    user@.id,
                    Password::stored_text(verifier.derived_key@, verifier.salt@),
                ),
    {
        let verifier = match Password::create(new_password) {
            Ok(p) => p,
            Err(_) => {
                return Err(ModifyUserError::PasswordDerivationError);
            },
        };
        let text = verifier.to_string();
        self.set_user_password(user, text.as_str());
        proof {
            assert(verifier.accepts(new_password@) && self@ == old(self)@.with_user_password(
                user@.id,
                Password::stored_text(verifier.derived_key@, verifier.salt@),
            ));
        }
        Ok(())
    }

    pub fn change_user_secret_key(&mut self, user: &UserSnapshot, new_secret_key: &str) -> (res:
        Result<(), DataError>)
        ensures
            old(self)@.well_formed() ==> final(self)@.well_formed(),
            res is Ok,
            final(self)@ == old(self)@.with_user_secret_key(user@.id, new_secret_key@),
    {
        let id = user.model.id;
        let ghost changed = |u: UserView|
            if id is Some && u.id == id {
                UserView { secret_key: new_secret_key@, ..u }
            } else {
                u
            };
        let change = |u: User| -> (c: User)
            ensures
                c@ == changed(u@),
            {
                if id.is_some() && same_id(u.id, id) {
                    User {
                        id: u.id,
                        name: u.name,
                        password: u.password,
                        secret_key: copy_str(new_secret_key),
                        tokens: u.tokens,
                        client_key: u.client_key,
                    }
                } else {
                    u
                }
            };
        let rows = take_rows(&mut self.users);
        self.users = change_each(rows, change, Ghost(changed));
        proof {
            assert(self@ =~~= old(self)@.with_user_secret_key(user@.id, new_secret_key@));
        }
        Ok(())
    }

    pub fn delete_user(&mut self, user: UserId) -> (res: Result<(), DataError>)
        ensures
            old(self)@.well_formed() ==> final(self)@.well_formed(),
            res is Ok,
            final(self)@ == old(self)@.without_user(user),
    {
        proof {
            if self@.well_formed() {
                lemma_deleting_stays_unique(self@, user);
            }
        }
        {
            let ghost pred = |p: UserSourceItemView| p.user_id != user;
            let keep = |p: &UserSourceItem| -> (b: bool)
                ensures
                    b == pred(p@),
                { p.user_id != user };
            let rows = take_rows(&mut self.user_source_items);
            self.user_source_items = retain(rows, keep, Ghost(pred));
        }
        {
            let ghost pred = |p: UserSourceView| p.user_id != user;
            let keep = |p: &UserSource| -> (b: bool)
                ensures
                    b == pred(p@),
                { p.user_id != user };
            let rows = take_rows(&mut self.user_sources);
            self.user_sources = retain(rows, keep, Ghost(pred));
        }
        {
            let ghost pred = |d: SourceDomainView| d.owner_id != user;
            let keep = |d: &SourceDomain| -> (b: bool)
                ensures
                    b == pred(d@),
                { d.owner_id != user };
            let rows = take_rows(&mut self.source_domains);
            self.source_domains = retain(rows, keep, Ghost(pred));
        }
        {
            let ghost pred = |u: UserView| u.id != Some(user);
            let keep = |u: &User| -> (b: bool)
                ensures
                    b == pred(u@),
                { !same_id(u.id, Some(user)) };
            let rows = take_rows(&mut self.users);
            self.users = retain(rows, keep, Ghost(pred));
        }
        proof {
            assert(self@ =~~= old(self)@.without_user(user));
        }
        Ok(())
    }
}

} // verus!
