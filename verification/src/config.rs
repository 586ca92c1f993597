//! The gateway's configuration, and in it the credential store: the one
//! administrator's name and the hash of their password.

use crate::zerotier::ZeroTier;
use vstd::prelude::*;

verus! {

/// The error of the crate `bcrypt`. Which error it is makes no difference here.
#[verifier::external_type_specification]
#[verifier::external_body]
pub struct ExBcryptError(bcrypt::BcryptError);

/// The work factor of the hashes that this store makes.
pub const HASH_COST: u32 = 8;

/// The length of every bcrypt hash, in characters.
pub const HASH_LEN: usize = 60;

/// The administrator's name before anyone has changed it.
pub const DEFAULT_USERNAME: &'static str = "admin";

/// The hash of the administrator's password before anyone has changed it.
pub const DEFAULT_PASSWORD_HASH: &'static str =
    "$2b$08$ygLvX.7v3/IRSxgsp/dBF.nNE1uTb4Nd0IWQHurbC6bnzr8Hru.Ly";

/// The credential record: the administrator's name and the hash of their password.
#[derive(Debug)]
pub struct Info {
    pub username: String,
    /// A bcrypt hash, never the password itself.
    pub password: String,
}

/// Everything the gateway is configured with.
#[derive(Debug)]
pub struct AppConfig {
    pub info: Info,
    /// The address the gateway listens on.
    pub listen: String,
    pub zerotier: ZeroTier,
}

/// Why a credential record could not be made.
#[derive(Clone, Copy, Debug, PartialEq, Eq, Structural)]
pub enum CredentialError {
    /// The password could not be hashed.
    Hashing,
}

/// What bcrypt says of a password and a hash: `Some(true)` where the hash is
/// one of this password, `Some(false)` where it is a hash of something else,
/// `None` where the text is no bcrypt hash at all.
pub uninterp spec fn bcrypt_verdict(password: Seq<char>, hash: Seq<char>) -> Option<bool>;

/// Calls `bcrypt::verify`. The contract names the answer `bcrypt_verdict` of
/// the two texts, with every error of the crate standing for `None`; how the
/// answer comes about was not proved here. A text that is not sixty characters
/// long is no hash, and the answer to it is an error.
#[verifier::external_body]
fn bcrypt_verify(password: &str, hash: &str) -> (answer: Result<bool, bcrypt::BcryptError>)
    ensures
        answer.is_ok() == bcrypt_verdict(password@, hash@).is_some(),
        answer matches Ok(same) ==> bcrypt_verdict(password@, hash@) == Some(same),
        hash@.len() != HASH_LEN ==> answer.is_err(),
{
    bcrypt::verify(password, hash)
}

/// Calls `bcrypt::hash`, which salts at random and fails where no salt can be
/// had. A cost outside 4..=31 is an error. Every hash that comes back is
/// written at this cost, and `bcrypt::verify` accepts the password against it.
#[verifier::external_body]
fn bcrypt_hash(password: &str, cost: u32) -> (hashed: Result<String, bcrypt::BcryptError>)
    ensures
        hashed matches Ok(hash) ==> bcrypt_verdict(password@, hash@) == Some(true),
        hashed matches Ok(hash) ==> is_hash_at(hash@, cost),
        !(4 <= cost <= 31) ==> hashed.is_err(),
{
    bcrypt::hash(password, cost)
}

/// Whether the answer of a password check admits the password: only a clear
/// yes does, an error never.
pub fn password_accepted(answer: Result<bool, bcrypt::BcryptError>) -> (accepted: bool)
    ensures
        accepted == (answer matches Ok(true)),
{
    match answer {
        Ok(same) => same,
        Err(_) => false,
    }
}

/// Checks `password` against a stored hash that may be missing. A missing
/// hash, or one that is no bcrypt hash, admits nothing; a text of another
/// length than a hash has is none.
pub fn password_matches(stored: Option<&str>, password: &str) -> (accepted: bool)
    ensures
        accepted == (stored matches Some(hash) && bcrypt_verdict(password@, hash@) == Some(true)),
        accepted ==> (stored matches Some(hash) && hash@.len() == HASH_LEN),
{
    match stored {
        Some(hash) => password_accepted(bcrypt_verify(password, hash)),
        None => false,
    }
}

impl Info {
    /// Whether this record admits the pair `username`, `password`.
    pub open spec fn admits(&self, username: Seq<char>, password: Seq<char>) -> bool {
        username == self.username@ && bcrypt_verdict(password, self.password@) == Some(true)
    }

    /// The record of a gateway that was just set up: the default name and the
    /// hash of the default password.
    pub fn initial() -> (info: Self)
        ensures
            info.username@ == DEFAULT_USERNAME@,
            info.password@ == DEFAULT_PASSWORD_HASH@,
    {
        Info { username: DEFAULT_USERNAME.to_owned(), password: DEFAULT_PASSWORD_HASH.to_owned() }
    }

    /// Makes the record of `username` from the outcome of hashing their
    /// password: the record holds the hash, and no record comes of a failure.
    pub fn from_hash(username: &str, hashed: Result<String, bcrypt::BcryptError>) -> (made: Result<
        Info,
        CredentialError,
    >)
        ensures
            match hashed {
                Ok(hash) => made matches Ok(info) && info.username@ == username@ && info.password
                    == hash,
                Err(_) => made matches Err(error) && error == CredentialError::Hashing,
            },
    {
        match hashed {
            Ok(hash) => Ok(Info { username: username.to_owned(), password: hash }),
            Err(_) => Err(CredentialError::Hashing),
        }
    }

    /// Makes the record of `username` with a fresh hash of `password` at the
    /// work factor `cost`. The record admits exactly this name, and admits it
    /// with this password. A work factor outside 4..=31 makes no record.
    pub fn with_cost(username: &str, password: &str, cost: u32) -> (made: Result<
        Info,
        CredentialError,
    >)
        ensures
            made matches Ok(info) ==> info.username@ == username@ && info.admits(
                username@,
                password@,
            ) && is_hash_at(info.password@, cost),
            made matches Err(error) ==> error == CredentialError::Hashing,
            !(4 <= cost <= 31) ==> made.is_err(),
    {
        Info::from_hash(username, bcrypt_hash(password, cost))
    }

    /// Makes the record of `username` with a fresh hash of `password` at the
    /// work factor of this store.
    pub fn with_password(username: &str, password: &str) -> (made: Result<Info, CredentialError>)
        ensures
            made matches Ok(info) ==> info.username@ == username@ && info.admits(
                username@,
                password@,
            ) && is_hash_at(info.password@, HASH_COST),
            made matches Err(error) ==> error == CredentialError::Hashing,
    {
        Info::with_cost(username, password, HASH_COST)
    }

    /// Whether `username` is the stored name and `password` fits the stored
    /// hash. A stored text that bcrypt cannot read admits nothing, and so does
    /// every text of another length than a hash has.
    pub fn verify(&self, username: &str, password: &str) -> (accepted: bool)
        ensures
            accepted == self.admits(username@, password@),
            accepted ==> self.password@.len() == HASH_LEN,
    {
        if username.to_owned() != self.username {
            return false;
        }
        password_accepted(bcrypt_verify(password, self.password.as_str()))
    }
}

impl AppConfig {
    /// Whether the credential record admits the pair `username`, `password`.
    pub fn verify(&self, username: &str, password: &str) -> (accepted: bool)
        ensures
            accepted == self.info.admits(username@, password@),
            accepted ==> self.info.password@.len() == HASH_LEN,
    {
        self.info.verify(username, password)
    }

    /// Puts `info` in the place of the credential record. This is the whole
    /// change that an update makes to the configuration in memory.
    pub fn replace_info(&mut self, info: Info)
        ensures
            final(self).info == info,
            final(self).listen == old(self).listen,
            final(self).zerotier == old(self).zerotier,
    {
        self.info = info;
    }

    /// The end of an update: a record that was made takes the place of the
    /// stored one; where none was made the store stays as it was and the
    /// error is handed on.
    pub fn store(&mut self, made: Result<Info, CredentialError>) -> (outcome: Result<
        (),
        CredentialError,
    >)
        ensures
            match made {
                Ok(info) => outcome.is_ok() && final(self).info == info,
                Err(error) => outcome == Err::<(), CredentialError>(error) && final(self).info
                    == old(self).info,
            },
            final(self).listen == old(self).listen,
            final(self).zerotier == old(self).zerotier,
    {
        match made {
            Ok(info) => {
                self.replace_info(info);
                Ok(())
            },
            Err(error) => Err(error),
        }
    }

    /// Replaces the stored name by `username` and the stored hash by a fresh
    /// hash of `password` at the work factor of this store, which the record
    /// then admits `username` with. Where no hash can be made, nothing changes.
    pub fn update_user_info(&mut self, username: &str, password: &str) -> (outcome: Result<
        (),
        CredentialError,
    >)
        ensures
            outcome.is_ok() ==> final(self).info.username@ == username@ && final(self).info.admits(
                username@,
                password@,
            ) && is_hash_at(final(self).info.password@, HASH_COST),
            outcome matches Err(error) ==> error == CredentialError::Hashing && final(self).info
                == old(self).info,
            final(self).listen == old(self).listen,
            final(self).zerotier == old(self).zerotier,
    {
        self.store(Info::with_password(username, password))
    }
}

impl Default for AppConfig {
    /// A configuration with every text empty.
    fn default() -> (config: Self)
        ensures
            config.info.username@ == Seq::<char>::empty(),
            config.info.password@ == Seq::<char>::empty(),
            config.listen@ == Seq::<char>::empty(),
            config.zerotier.auth_token@ == Seq::<char>::empty(),
            config.zerotier.address@ == Seq::<char>::empty(),
    {
        AppConfig {
            info: Info { username: String::new(), password: String::new() },
            listen: String::new(),
            zerotier: ZeroTier { auth_token: String::new(), address: String::new() },
        }
    }
}

/// The character that writes the digit `d`.
pub open spec fn digit(d: int) -> char {
    if d == 0 {
        '0'
    } else if d == 1 {
        '1'
    } else if d == 2 {
        '2'
    } else if d == 3 {
        '3'
    } else if d == 4 {
        '4'
    } else if d == 5 {
        '5'
    } else if d == 6 {
        '6'
    } else if d == 7 {
        '7'
    } else if d == 8 {
        '8'
    } else {
        '9'
    }
}

/// Whether `hash` is written as bcrypt writes a hash made at the work factor
/// `cost`: sixty characters, of which the first seven are `$2b$`, the work
/// factor in two digits, and `$`.
pub open spec fn is_hash_at(hash: Seq<char>, cost: u32) -> bool {
    &&& hash.len() == HASH_LEN
    &&& hash[0] == '$' && hash[1] == '2' && hash[2] == 'b' && hash[3] == '$'
    &&& hash[4] == digit((cost / 10) as int)
    &&& hash[5] == digit((cost % 10) as int)
    &&& hash[6] == '$'
}

} // verus!
