//! The Pixiv account: its stored record, the keyring that protects its
//! session cookie, and the decisions taken while validating it.

use vstd::prelude::*;
use crate::crypto::{os_random_bytes, spec_xchacha_open, spec_xchacha_seal, string_from_utf8, xchacha_open, xchacha_seal};
use crate::domain::{DbError, PixivAccountState, PixivErrorClass};
use crate::text::{chars_of, spec_trim_bounds, str_eq, trim_bounds};

verus! {

/// An encrypted session cookie as stored with the account.
#[derive(Clone, Debug, PartialEq, Eq)]
pub struct PixivCredentialEnvelope {
    pub key_id: String,
    pub nonce: Vec<u8>,
    pub ciphertext: Vec<u8>,
}

/// The stored Pixiv account. Times are seconds since the epoch.
#[derive(Clone, Debug)]
pub struct PixivAccountRecord {
    pub id: u128,
    pub pixiv_user_id: i64,
    pub display_name: String,
    pub avatar_url: Option<String>,
    pub state: PixivAccountState,
    pub credential: Option<PixivCredentialEnvelope>,
    pub user_agent: String,
    pub bookmark_writeback_enabled: bool,
    pub last_validated_at: Option<i64>,
    pub revision: i64,
}

/// One cookie protection key.
pub struct PixivCookieKeyConfig {
    key_id: String,
    key: [u8; 32],
}

impl Clone for PixivCookieKeyConfig {
    fn clone(&self) -> (copy: Self)
        ensures
            copy == *self,
    {
        PixivCookieKeyConfig { key_id: self.key_id.clone(), key: self.key }
    }
}

impl PixivCookieKeyConfig {
    pub fn new(key_id: &str, key: [u8; 32]) -> (k: Self)
        ensures
            k.key_id() == key_id@,
            k.key() == key@,
    {
        PixivCookieKeyConfig { key_id: String::from_str(key_id), key }
    }

    pub closed spec fn key_id(&self) -> Seq<char> {
        self.key_id@
    }

    pub closed spec fn key(&self) -> Seq<u8> {
        self.key@
    }
}

/// The key that encrypts new cookies and the earlier keys that may still
/// decrypt stored ones.
#[derive(Clone)]
pub struct PixivCookieKeyringConfig {
    primary: PixivCookieKeyConfig,
    previous: Vec<PixivCookieKeyConfig>,
}

impl PixivCookieKeyringConfig {
    pub fn new(primary: PixivCookieKeyConfig) -> (c: Self)
        ensures
            c.key_ids() == seq![primary.key_id()],
            c.keys() == seq![primary],
    {
        PixivCookieKeyringConfig { primary, previous: Vec::new() }
    }

    pub fn with_previous(self, previous: Vec<PixivCookieKeyConfig>) -> (c: Self)
        ensures
            c.keys() == seq![self.keys()[0]] + previous@,
    {
        PixivCookieKeyringConfig { primary: self.primary, previous }
    }

    /// All keys, the primary first.
    pub closed spec fn keys(&self) -> Seq<PixivCookieKeyConfig> {
        seq![self.primary] + self.previous@
    }

    pub open spec fn key_ids(&self) -> Seq<Seq<char>> {
        self.keys().map_values(|k: PixivCookieKeyConfig| k.key_id())
    }
}

#[derive(Clone, Copy, Debug, PartialEq, Eq, Structural)]
pub enum PixivCookieCipherError {
    InvalidKeyring,
    InvalidCredential,
    Encryption,
    Random,
}

/// Why a Pixiv request context could not be made for an account.
#[derive(Clone, Debug, PartialEq, Eq)]
pub enum PixivAccountContextError {
    AccountUnavailable { state: PixivAccountState },
    Storage(DbError),
    Cipher(PixivCookieCipherError),
}

/// A key identifier is usable when it has a non-blank character.
pub open spec fn spec_key_id_usable(id: Seq<char>) -> bool {
    let (a, b) = spec_trim_bounds(id, 0, id.len() as int);
    a < b
}

/// A keyring is valid when every key identifier is usable and no two keys
/// share an identifier.
pub open spec fn spec_keyring_valid(keys: Seq<PixivCookieKeyConfig>) -> bool {
    &&& forall|i: int| 0 <= i < keys.len() ==> spec_key_id_usable(#[trigger] keys[i].key_id())
    &&& forall|i: int, j: int| 0 <= i < j < keys.len() ==> #[trigger] keys[i].key_id() != #[trigger] keys[j].key_id()
}

/// The associated data that binds a ciphertext to its Pixiv account:
/// the ASCII prefix `PixivArchive:pixiv-cookie:v1:` and the user id as
/// eight big-endian bytes.
pub open spec fn spec_cookie_aad(pixiv_user_id: i64) -> Seq<u8> {
    "PixivArchive:pixiv-cookie:v1:"@.map_values(|c: char| c as u8)
        + Seq::new(8, |i: int| (((pixiv_user_id as u64) >> ((56 - 8 * i) as u64)) & 0xff) as u8)
}

/// The associated data of [`spec_cookie_aad`].
pub fn cookie_aad(pixiv_user_id: i64) -> (aad: Vec<u8>)
    ensures
        aad@ == spec_cookie_aad(pixiv_user_id),
{
    let prefix = chars_of("PixivArchive:pixiv-cookie:v1:");
    let mut aad: Vec<u8> = Vec::new();
    let mut i: usize = 0;
    while i < prefix.len()
        invariant
            i <= prefix@.len(),
            prefix@ == "PixivArchive:pixiv-cookie:v1:"@,
            aad@ == prefix@.take(i as int).map_values(|c: char| c as u8),
        decreases prefix.len() - i,
    {
        aad.push(prefix[i] as u8);
        i = i + 1;
        assert(aad@ =~= prefix@.take(i as int).map_values(|c: char| c as u8));
    }
    assert(prefix@.take(prefix@.len() as int) =~= prefix@);
    let value = pixiv_user_id as u64;
    let ghost head = aad@;
    let mut k: u64 = 0;
    while k < 8
        invariant
            k <= 8,
            value == pixiv_user_id as u64,
            head == "PixivArchive:pixiv-cookie:v1:"@.map_values(|c: char| c as u8),
            aad@ == head + Seq::new(k as nat, |j: int| (((pixiv_user_id as u64) >> ((56 - 8 * j) as u64)) & 0xff) as u8),
        decreases 8 - k,
    {
        let byte = ((value >> (56 - 8 * k)) & 0xff) as u8;
        aad.push(byte);
        k = k + 1;
        assert(aad@ =~= head + Seq::new(k as nat, |j: int| (((pixiv_user_id as u64) >> ((56 - 8 * j) as u64)) & 0xff) as u8));
    }
    aad
}

/// A cookie sealed for an account.
pub struct EncryptedPixivCookie {
    pub key_id: String,
    pub nonce: Vec<u8>,
    pub ciphertext: Vec<u8>,
}

/// The cookie's UTF-8 bytes fit XChaCha20-Poly1305 (fewer than
/// 2^32 - 1 blocks of 64 bytes).
pub open spec fn seal_fits(cookie: Seq<char>) -> bool {
    vstd::utf8::encode_utf8(cookie).len() / 64 < 0xFFFF_FFFF
}

/// Encrypts and decrypts session cookies with a keyring.
pub struct PixivCookieCipher {
    primary: PixivCookieKeyConfig,
    keys: Vec<PixivCookieKeyConfig>,
}

impl Clone for PixivCookieCipher {
    fn clone(&self) -> (copy: Self)
        ensures
            copy.keys() == self.keys(),
    {
        proof {
            use_type_invariant(self);
        }
        let mut keys: Vec<PixivCookieKeyConfig> = Vec::new();
        let mut i: usize = 0;
        while i < self.keys.len()
            invariant
                i <= self.keys@.len(),
                keys@ == self.keys@.take(i as int),
            decreases self.keys.len() - i,
        {
            keys.push(self.keys[i].clone());
            i = i + 1;
            assert(keys@ =~= self.keys@.take(i as int));
        }
        assert(keys@ =~= self.keys@);
        PixivCookieCipher { primary: self.primary.clone(), keys }
    }
}

/// The outcome of decrypting a stored credential for `pixiv_user_id` with
/// `keys`: the key with the credential's identifier opens the ciphertext
/// bound to the account, and the plaintext is UTF-8.
pub open spec fn spec_decrypt(keys: Seq<PixivCookieKeyConfig>, pixiv_user_id: i64, credential: Option<PixivCredentialEnvelope>) -> Option<Seq<char>> {
    match credential {
        None => None,
        Some(c) => {
            if c.nonce@.len() != 24 || !(exists|i: int| 0 <= i < keys.len() && #[trigger] keys[i].key_id() == c.key_id@) {
                None
            } else {
                let i = choose|i: int| 0 <= i < keys.len() && #[trigger] keys[i].key_id() == c.key_id@;
                match spec_xchacha_open(keys[i].key(), c.nonce@, c.ciphertext@, spec_cookie_aad(pixiv_user_id)) {
                    None => None,
                    Some(m) => if vstd::utf8::valid_utf8(m) { Some(vstd::utf8::decode_utf8(m)) } else { None },
                }
            }
        },
    }
}

/// A cookie sealed for an account with the first key of the keyring: that
/// key's identifier, a 24-byte nonce, the XChaCha20-Poly1305 ciphertext of
/// the cookie bound to the account, which decrypts back to the cookie.
pub open spec fn sealed_for(keys: Seq<PixivCookieKeyConfig>, pixiv_user_id: i64, cookie: Seq<char>, sealed: EncryptedPixivCookie) -> bool {
    &&& sealed.key_id@ == keys[0].key_id()
    &&& sealed.nonce@.len() == 24
    &&& sealed.ciphertext@ == spec_xchacha_seal(keys[0].key(), sealed.nonce@, vstd::utf8::encode_utf8(cookie), spec_cookie_aad(pixiv_user_id))
    &&& spec_decrypt(keys, pixiv_user_id, Some(PixivCredentialEnvelope { key_id: sealed.key_id, nonce: sealed.nonce, ciphertext: sealed.ciphertext })) == Some(cookie)
}

impl PixivCookieCipher {
    #[verifier::type_invariant]
    spec fn wf(self) -> bool {
        &&& self.keys@.len() > 0
        &&& self.keys@[0] == self.primary
        &&& spec_keyring_valid(self.keys@)
    }

    /// All keys, the primary first.
    pub closed spec fn keys(&self) -> Seq<PixivCookieKeyConfig> {
        self.keys@
    }

    /// Accepts a keyring whose identifiers are all usable and distinct.
    pub fn new(config: PixivCookieKeyringConfig) -> (res: Result<Self, PixivCookieCipherError>)
        ensures
            res is Ok <==> spec_keyring_valid(config.keys()),
            res matches Ok(c) ==> c.keys() == config.keys(),
            res matches Err(e) ==> e == PixivCookieCipherError::InvalidKeyring,
    {
        let mut keys: Vec<PixivCookieKeyConfig> = Vec::new();
        keys.push(config.primary.clone());
        let mut previous = config.previous;
        let ghost all = config.keys();
        assert(keys@ =~= all.take(1));
        let mut i: usize = 0;
        while i < previous.len()
            invariant
                all == seq![config.primary] + previous@,
                i <= previous@.len(),
                keys@ == all.take(i as int + 1),
            decreases previous.len() - i,
        {
            keys.push(previous[i].clone());
            i = i + 1;
            assert(keys@ =~= all.take(i as int + 1));
        }
        assert(keys@ =~= all);
        let mut k: usize = 0;
        while k < keys.len()
            invariant
                keys@ == all,
                all == config.keys(),
                k <= keys@.len(),
                forall|a: int| 0 <= a < k ==> spec_key_id_usable(#[trigger] all[a].key_id()),
                forall|a: int, b: int| 0 <= a < b < k ==> #[trigger] all[a].key_id() != #[trigger] all[b].key_id(),
            decreases keys.len() - k,
        {
            let id_chars = chars_of(keys[k].key_id.as_str());
            let (ta, tb) = trim_bounds(&id_chars, 0, id_chars.len());
            if ta == tb {
                assert(!spec_key_id_usable(all[k as int].key_id()));
                return Err(PixivCookieCipherError::InvalidKeyring);
            }
            let mut m: usize = 0;
            while m < k
                invariant
                    keys@ == all,
                    all == config.keys(),
                    m <= k < keys@.len(),
                    forall|a: int| 0 <= a < m ==> all[a].key_id() != all[k as int].key_id(),
                decreases k - m,
            {
                if str_eq(keys[m].key_id.as_str(), keys[k].key_id.as_str()) {
                    assert(all[m as int].key_id() == all[k as int].key_id());
                    return Err(PixivCookieCipherError::InvalidKeyring);
                }
                m = m + 1;
            }
            k = k + 1;
        }
        Ok(PixivCookieCipher { primary: keys[0].clone(), keys })
    }

    /// Seals a session cookie for the given account with the primary key
    /// and a fresh random nonce: the outcome of `seal_cookie` with the nonce
    /// drawn, unless the random source fails.
    pub fn encrypt(&self, pixiv_user_id: i64, cookie: &str) -> (res: Result<EncryptedPixivCookie, PixivCookieCipherError>)
        ensures
            (pixiv_user_id <= 0 || cookie@.len() == 0) ==> res == Err::<EncryptedPixivCookie, PixivCookieCipherError>(PixivCookieCipherError::InvalidCredential),
            res matches Err(e) ==> (e == PixivCookieCipherError::InvalidCredential && (pixiv_user_id <= 0 || cookie@.len() == 0))
                || e == PixivCookieCipherError::Random
                || (e == PixivCookieCipherError::Encryption && !seal_fits(cookie@)),
            res matches Ok(sealed) ==> sealed_for(self.keys(), pixiv_user_id, cookie@, sealed),
    {
        if pixiv_user_id <= 0 || cookie.unicode_len() == 0 {
            return Err(PixivCookieCipherError::InvalidCredential);
        }
        let nonce = match os_random_bytes(24) {
            Some(bytes) => bytes,
            None => {
                return Err(PixivCookieCipherError::Random);
            },
        };
        self.seal_cookie(pixiv_user_id, cookie, nonce)
    }

    /// Seals a session cookie for the given account with the primary key
    /// and this nonce. It succeeds exactly when the cookie's UTF-8 bytes fit
    /// the cipher, with the primary key's identifier, this nonce and the
    /// XChaCha20-Poly1305 ciphertext bound to the account; the sealed cookie
    /// decrypts back to the cookie.
    pub fn seal_cookie(&self, pixiv_user_id: i64, cookie: &str, nonce: Vec<u8>) -> (res: Result<EncryptedPixivCookie, PixivCookieCipherError>)
        requires
            nonce@.len() == 24,
            pixiv_user_id > 0,
            cookie@.len() > 0,
        ensures
            seal_fits(cookie@) ==> res is Ok,
            res matches Ok(sealed) ==> sealed_for(self.keys(), pixiv_user_id, cookie@, sealed) && sealed.nonce@ == nonce@,
            !seal_fits(cookie@) ==> res == Err::<EncryptedPixivCookie, PixivCookieCipherError>(PixivCookieCipherError::Encryption),
    {
        proof {
            use_type_invariant(self);
        }
        let aad = cookie_aad(pixiv_user_id);
        let message = cookie.as_bytes();
        let ciphertext = match xchacha_seal(&self.primary.key, nonce.as_slice(), message, aad.as_slice()) {
            Some(c) => c,
            None => {
                return Err(PixivCookieCipherError::Encryption);
            },
        };
        let sealed = EncryptedPixivCookie { key_id: self.primary.key_id.clone(), nonce, ciphertext };
        proof {
            let keys = self.keys@;
            let cred = PixivCredentialEnvelope { key_id: sealed.key_id, nonce: sealed.nonce, ciphertext: sealed.ciphertext };
            assert(keys[0].key_id() == cred.key_id@);
            let i = choose|i: int| 0 <= i < keys.len() && #[trigger] keys[i].key_id() == cred.key_id@;
            if i != 0 {
                assert(keys[0].key_id() != keys[i].key_id());
            }
            vstd::utf8::encode_utf8_valid_utf8(cookie@);
            vstd::utf8::encode_utf8_decode_utf8(cookie@);
        }
        Ok(sealed)
    }

    /// Opens the stored credential of an account.
    pub fn decrypt(&self, record: &PixivAccountRecord) -> (res: Result<String, PixivCookieCipherError>)
        ensures
            match spec_decrypt(self.keys(), record.pixiv_user_id, record.credential) {
                Some(cookie) => res matches Ok(c) && c@ == cookie,
                None => res == Err::<String, PixivCookieCipherError>(PixivCookieCipherError::InvalidCredential),
            },
    {
        proof {
            use_type_invariant(self);
        }
        let credential = match &record.credential {
            Some(c) => c,
            None => {
                return Err(PixivCookieCipherError::InvalidCredential);
            },
        };
        if credential.nonce.len() != 24 {
            return Err(PixivCookieCipherError::InvalidCredential);
        }
        let mut i: usize = 0;
        while i < self.keys.len() && !str_eq(self.keys[i].key_id.as_str(), credential.key_id.as_str())
            invariant
                i <= self.keys@.len(),
                forall|k: int| 0 <= k < i ==> #[trigger] self.keys@[k].key_id() != credential.key_id@,
            decreases self.keys.len() - i,
        {
            i = i + 1;
        }
        if i == self.keys.len() {
            return Err(PixivCookieCipherError::InvalidCredential);
        }
        let key = &self.keys[i];
        proof {
            let keys = self.keys@;
            assert(keys[i as int].key_id() == credential.key_id@);
            let j = choose|j: int| 0 <= j < keys.len() && #[trigger] keys[j].key_id() == credential.key_id@;
            if j != i {
                if j < i {
                    assert(keys[j].key_id() != keys[i as int].key_id());
                } else {
                    assert(keys[i as int].key_id() != keys[j].key_id());
                }
            }
        }
        let aad = cookie_aad(record.pixiv_user_id);
        let plaintext = match xchacha_open(&key.key, credential.nonce.as_slice(), credential.ciphertext.as_slice(), aad.as_slice()) {
            Some(p) => p,
            None => {
                return Err(PixivCookieCipherError::InvalidCredential);
            },
        };
        match string_from_utf8(plaintext) {
            Some(cookie) => Ok(cookie),
            None => Err(PixivCookieCipherError::InvalidCredential),
        }
    }
}

/// A cookie encrypted for an account decrypts to itself when the account
/// record holds the credential: what the cipher writes it reads back.
pub proof fn lemma_cookie_round_trip(
    keys: Seq<PixivCookieKeyConfig>,
    pixiv_user_id: i64,
    cookie: Seq<char>,
    nonce: Seq<u8>,
    credential: PixivCredentialEnvelope,
)
    requires
        keys.len() > 0,
        spec_keyring_valid(keys),
        nonce.len() == 24,
        credential.key_id@ == keys[0].key_id(),
        credential.nonce@ == nonce,
        credential.ciphertext@ == spec_xchacha_seal(keys[0].key(), nonce, vstd::utf8::encode_utf8(cookie), spec_cookie_aad(pixiv_user_id)),
        spec_xchacha_open(keys[0].key(), nonce, credential.ciphertext@, spec_cookie_aad(pixiv_user_id)) == Some(vstd::utf8::encode_utf8(cookie)),
    ensures
        spec_decrypt(keys, pixiv_user_id, Some(credential)) == Some(cookie),
{
    assert(keys[0].key_id() == credential.key_id@);
    let i = choose|i: int| 0 <= i < keys.len() && #[trigger] keys[i].key_id() == credential.key_id@;
    if i != 0 {
        assert(keys[0].key_id() != keys[i].key_id());
    }
    vstd::utf8::encode_utf8_valid_utf8(cookie);
    vstd::utf8::encode_utf8_decode_utf8(cookie);
}

/// The Pixiv request a failure came from, as far as the account logic
/// tells them apart.
#[derive(Clone, Copy, Debug, PartialEq, Eq, Structural)]
pub enum PixivEndpoint {
    Profile,
    Other,
}

/// Why validating or storing an account failed.
#[derive(Clone, Debug, PartialEq, Eq)]
pub enum AccountServiceError {
    Storage(DbError),
    Validation { class: PixivErrorClass, endpoint: Option<PixivEndpoint> },
}

/// Why an administrator's account command failed.
#[derive(Clone, Debug, PartialEq, Eq)]
pub enum PixivAccountAdminError {
    InvalidInput,
    NotConfigured,
    Unavailable,
    Validation { class: PixivErrorClass, endpoint: Option<PixivEndpoint> },
    Storage(DbError),
    Cipher(PixivCookieCipherError),
}

impl From<AccountServiceError> for PixivAccountAdminError {
    fn from(error: AccountServiceError) -> (e: Self) {
        match error {
            AccountServiceError::Storage(db) => PixivAccountAdminError::Storage(db),
            AccountServiceError::Validation { class, endpoint } => PixivAccountAdminError::Validation { class, endpoint },
        }
    }
}

impl vstd::std_specs::convert::FromSpecImpl<AccountServiceError> for PixivAccountAdminError {
    open spec fn obeys_from_spec() -> bool {
        true
    }

    open spec fn from_spec(error: AccountServiceError) -> Self {
        match error {
            AccountServiceError::Storage(db) => PixivAccountAdminError::Storage(db),
            AccountServiceError::Validation { class, endpoint } => PixivAccountAdminError::Validation { class, endpoint },
        }
    }
}

/// An administrator's new session cookie.
#[derive(Clone, Debug, PartialEq, Eq)]
pub struct UpdatePixivAccountRequest {
    pub cookie: String,
}

/// The account command port used when Pixiv commands are switched off.
#[derive(Clone, Copy, Debug, Default)]
pub struct DisabledPixivAccountCommandPort;

impl DisabledPixivAccountCommandPort {
    pub fn update(&self, request: UpdatePixivAccountRequest) -> (r: Result<(), PixivAccountAdminError>)
        ensures
            r == Err::<(), PixivAccountAdminError>(PixivAccountAdminError::Unavailable),
    {
        Err(PixivAccountAdminError::Unavailable)
    }

    pub fn validate(&self, expected_account_id: Option<u128>) -> (r: Result<(), PixivAccountAdminError>)
        ensures
            r == Err::<(), PixivAccountAdminError>(PixivAccountAdminError::Unavailable),
    {
        Err(PixivAccountAdminError::Unavailable)
    }
}

/// Before validating the saved account on an administrator's request:
/// there must be one, it must be the one the administrator saw, and it
/// must hold a credential.
pub fn validate_request_check(current: Option<(u128, PixivAccountState)>, expected_account_id: Option<u128>) -> (r: Result<(), PixivAccountAdminError>)
    ensures
        r == (match current {
            None => Err(PixivAccountAdminError::NotConfigured),
            Some((id, state)) => if (expected_account_id matches Some(e) && e != id) {
                Err(PixivAccountAdminError::Storage(DbError::RevisionConflict))
            } else if state == PixivAccountState::Unconfigured {
                Err(PixivAccountAdminError::NotConfigured)
            } else {
                Ok(())
            },
        }),
{
    match current {
        None => Err(PixivAccountAdminError::NotConfigured),
        Some((id, state)) => {
            match expected_account_id {
                Some(e) => if e != id {
                    return Err(PixivAccountAdminError::Storage(DbError::RevisionConflict));
                },
                None => {},
            }
            if state == PixivAccountState::Unconfigured {
                Err(PixivAccountAdminError::NotConfigured)
            } else {
                Ok(())
            }
        },
    }
}

/// How an account is stored once validated.
#[derive(Clone, Copy, Debug, PartialEq, Eq, Structural)]
pub struct AccountActivation {
    pub state: PixivAccountState,
    /// Jobs that waited for the account are requeued (the account was not
    /// normal before).
    pub recover_waiting_jobs: bool,
    /// The validation time is recorded (the account is normal).
    pub validated_now: bool,
}

pub open spec fn activation(state: PixivAccountState, previous: Option<PixivAccountState>) -> AccountActivation {
    AccountActivation {
        state,
        recover_waiting_jobs: previous matches Some(p) && p != PixivAccountState::Normal,
        validated_now: state == PixivAccountState::Normal,
    }
}

fn make_activation(state: PixivAccountState, previous: Option<PixivAccountState>) -> (a: AccountActivation)
    ensures
        a == activation(state, previous),
{
    AccountActivation {
        state,
        recover_waiting_jobs: match previous {
            Some(p) => p != PixivAccountState::Normal,
            None => false,
        },
        validated_now: state == PixivAccountState::Normal,
    }
}

/// The outcome of the age-restricted ranking probe, as the account state
/// it gives: a refused credential is an error, disabled age-restricted
/// content restricts the account, any other failure leaves it validating.
pub open spec fn spec_probe_state(failure: Option<(PixivErrorClass, Option<PixivEndpoint>)>) -> Result<PixivAccountState, AccountServiceError> {
    match failure {
        None => Ok(PixivAccountState::Normal),
        Some((class, endpoint)) => if class == PixivErrorClass::CredentialInvalid {
            Err(AccountServiceError::Validation { class, endpoint })
        } else if class == PixivErrorClass::AgeRestrictedDisabled {
            Ok(PixivAccountState::Restricted)
        } else {
            Ok(PixivAccountState::Validating)
        },
    }
}

pub fn probe_state(failure: Option<(PixivErrorClass, Option<PixivEndpoint>)>) -> (r: Result<PixivAccountState, AccountServiceError>)
    ensures
        r == spec_probe_state(failure),
{
    match failure {
        None => Ok(PixivAccountState::Normal),
        Some((class, endpoint)) => match class {
            PixivErrorClass::CredentialInvalid => Err(AccountServiceError::Validation { class, endpoint }),
            PixivErrorClass::AgeRestrictedDisabled => Ok(PixivAccountState::Restricted),
            _ => Ok(PixivAccountState::Validating),
        },
    }
}

/// Where validating an account stands.
#[derive(Clone, Copy, Debug, PartialEq, Eq, Structural)]
pub enum AccountPhase {
    FindingExisting,
    Validating { existing: Option<PixivAccountState> },
    CheckingSubscriptions { existing: Option<PixivAccountState> },
    Probing { existing: Option<PixivAccountState> },
    Blocking,
    Reloading,
    SettingState,
    Persisting,
    Finished,
}

/// What the last call reported.
#[derive(Clone, Debug, PartialEq, Eq)]
pub enum AccountEvent {
    /// The stored account of the cookie's Pixiv user, with its state.
    ExistingFound(Option<PixivAccountState>),
    /// Pixiv accepted the cookie as this user.
    Validated { pixiv_user_id: i64 },
    ValidationFailed { class: PixivErrorClass, endpoint: Option<PixivEndpoint> },
    /// Whether the account has an enabled age-restricted subscription.
    R18Subscriptions { enabled: bool },
    /// The age-restricted ranking probe passed (`None`) or failed.
    Probed(Option<(PixivErrorClass, Option<PixivEndpoint>)>),
    AccountBlocked,
    Reloaded,
    StateSet,
    Persisted,
    StorageFailed(DbError),
}

/// The next call to make, or the outcome.
#[derive(Debug, PartialEq, Eq)]
pub enum AccountAction {
    ValidateCredential,
    CheckR18Subscriptions,
    ProbeR18Ranking,
    /// Block the account and park its jobs until a new credential.
    BlockAccount,
    ReloadAccount,
    SetState(PixivAccountState),
    Persist(AccountActivation),
    /// The saved account holds no credential to keep.
    RejectMissingCredential,
    Complete(Result<(), AccountServiceError>),
}

pub open spec fn account_done(r: Result<(), AccountServiceError>) -> (AccountPhase, AccountAction) {
    (AccountPhase::Finished, AccountAction::Complete(r))
}

pub open spec fn spec_persist_step(has_credential: bool, state: PixivAccountState, previous: Option<PixivAccountState>) -> (AccountPhase, AccountAction) {
    if !has_credential {
        (AccountPhase::Finished, AccountAction::RejectMissingCredential)
    } else {
        (AccountPhase::Persisting, AccountAction::Persist(activation(state, previous)))
    }
}

/// Re-validating the saved account: `account_user_id`, `account_state`
/// and `has_credential` describe the saved account.
pub open spec fn spec_revalidate_step(account_user_id: i64, account_state: PixivAccountState, has_credential: bool, phase: AccountPhase, event: AccountEvent) -> (AccountPhase, AccountAction) {
    match (phase, event) {
        (AccountPhase::Validating { .. }, AccountEvent::ValidationFailed { class, .. }) => if class == PixivErrorClass::CredentialInvalid {
            (AccountPhase::Blocking, AccountAction::BlockAccount)
        } else {
            (AccountPhase::SettingState, AccountAction::SetState(
                if class == PixivErrorClass::AgeRestrictedDisabled { PixivAccountState::Restricted } else { PixivAccountState::Validating },
            ))
        },
        (AccountPhase::Validating { existing }, AccountEvent::Validated { pixiv_user_id }) => if pixiv_user_id != account_user_id {
            (AccountPhase::Blocking, AccountAction::BlockAccount)
        } else {
            (AccountPhase::CheckingSubscriptions { existing }, AccountAction::CheckR18Subscriptions)
        },
        (AccountPhase::CheckingSubscriptions { .. }, AccountEvent::R18Subscriptions { enabled }) => if enabled {
            (AccountPhase::Probing { existing: Some(account_state) }, AccountAction::ProbeR18Ranking)
        } else {
            spec_persist_step(has_credential, PixivAccountState::Normal, Some(account_state))
        },
        (AccountPhase::Probing { .. }, AccountEvent::Probed(failure)) => match spec_probe_state(failure) {
            Ok(state) => spec_persist_step(has_credential, state, Some(account_state)),
            Err(_) => (AccountPhase::Blocking, AccountAction::BlockAccount),
        },
        (AccountPhase::Blocking, AccountEvent::AccountBlocked) => (AccountPhase::Reloading, AccountAction::ReloadAccount),
        (AccountPhase::Reloading, AccountEvent::Reloaded) => account_done(Ok(())),
        (AccountPhase::SettingState, AccountEvent::StateSet) => account_done(Ok(())),
        (AccountPhase::Persisting, AccountEvent::Persisted) => account_done(Ok(())),
        (_, AccountEvent::StorageFailed(db)) => account_done(Err(AccountServiceError::Storage(db))),
        _ => account_done(Err(AccountServiceError::Storage(DbError::RevisionConflict))),
    }
}

/// Storing a new cookie for the Pixiv user it belongs to.
pub open spec fn spec_cookie_update_step(cookie_user_id: i64, phase: AccountPhase, event: AccountEvent) -> (AccountPhase, AccountAction) {
    match (phase, event) {
        (AccountPhase::FindingExisting, AccountEvent::ExistingFound(existing)) =>
            (AccountPhase::Validating { existing }, AccountAction::ValidateCredential),
        (AccountPhase::Validating { .. }, AccountEvent::ValidationFailed { class, endpoint }) =>
            account_done(Err(AccountServiceError::Validation { class, endpoint })),
        (AccountPhase::Validating { existing }, AccountEvent::Validated { pixiv_user_id }) => if pixiv_user_id != cookie_user_id {
            account_done(Err(AccountServiceError::Validation { class: PixivErrorClass::CredentialInvalid, endpoint: Some(PixivEndpoint::Profile) }))
        } else {
            match existing {
                None => spec_persist_step(true, PixivAccountState::Normal, None),
                Some(_) => (AccountPhase::CheckingSubscriptions { existing }, AccountAction::CheckR18Subscriptions),
            }
        },
        (AccountPhase::CheckingSubscriptions { existing }, AccountEvent::R18Subscriptions { enabled }) => if enabled {
            (AccountPhase::Probing { existing }, AccountAction::ProbeR18Ranking)
        } else {
            spec_persist_step(true, PixivAccountState::Normal, existing)
        },
        (AccountPhase::Probing { existing }, AccountEvent::Probed(failure)) => match spec_probe_state(failure) {
            Ok(state) => spec_persist_step(true, state, existing),
            Err(e) => account_done(Err(e)),
        },
        (AccountPhase::Persisting, AccountEvent::Persisted) => account_done(Ok(())),
        (_, AccountEvent::StorageFailed(db)) => account_done(Err(AccountServiceError::Storage(db))),
        _ => account_done(Err(AccountServiceError::Storage(DbError::RevisionConflict))),
    }
}

fn persist_step(has_credential: bool, state: PixivAccountState, previous: Option<PixivAccountState>) -> (r: (AccountPhase, AccountAction))
    ensures
        r == spec_persist_step(has_credential, state, previous),
{
    if !has_credential {
        (AccountPhase::Finished, AccountAction::RejectMissingCredential)
    } else {
        (AccountPhase::Persisting, AccountAction::Persist(make_activation(state, previous)))
    }
}

/// One decision of re-validating the saved account. A refused credential,
/// or a cookie of another Pixiv user, blocks the account (its jobs wait
/// for a new credential) and answers the reloaded account; other request
/// failures mark it restricted (age-restricted content disabled) or
/// validating; a valid credential is probed for age-restricted access when
/// an enabled subscription needs it, and the account is stored with the
/// resulting state, recovering its waiting jobs when it was not normal.
pub fn revalidate_step(account_user_id: i64, account_state: PixivAccountState, has_credential: bool, phase: AccountPhase, event: AccountEvent) -> (next: (AccountPhase, AccountAction))
    ensures
        next == spec_revalidate_step(account_user_id, account_state, has_credential, phase, event),
{
    match (phase, event) {
        (AccountPhase::Validating { .. }, AccountEvent::ValidationFailed { class, .. }) => match class {
            PixivErrorClass::CredentialInvalid => (AccountPhase::Blocking, AccountAction::BlockAccount),
            PixivErrorClass::AgeRestrictedDisabled => (AccountPhase::SettingState, AccountAction::SetState(PixivAccountState::Restricted)),
            _ => (AccountPhase::SettingState, AccountAction::SetState(PixivAccountState::Validating)),
        },
        (AccountPhase::Validating { existing }, AccountEvent::Validated { pixiv_user_id }) => if pixiv_user_id != account_user_id {
            (AccountPhase::Blocking, AccountAction::BlockAccount)
        } else {
            (AccountPhase::CheckingSubscriptions { existing }, AccountAction::CheckR18Subscriptions)
        },
        (AccountPhase::CheckingSubscriptions { .. }, AccountEvent::R18Subscriptions { enabled }) => if enabled {
            (AccountPhase::Probing { existing: Some(account_state) }, AccountAction::ProbeR18Ranking)
        } else {
            persist_step(has_credential, PixivAccountState::Normal, Some(account_state))
        },
        (AccountPhase::Probing { .. }, AccountEvent::Probed(failure)) => match probe_state(failure) {
            Ok(state) => persist_step(has_credential, state, Some(account_state)),
            Err(_) => (AccountPhase::Blocking, AccountAction::BlockAccount),
        },
        (AccountPhase::Blocking, AccountEvent::AccountBlocked) => (AccountPhase::Reloading, AccountAction::ReloadAccount),
        (AccountPhase::Reloading, AccountEvent::Reloaded) => (AccountPhase::Finished, AccountAction::Complete(Ok(()))),
        (AccountPhase::SettingState, AccountEvent::StateSet) => (AccountPhase::Finished, AccountAction::Complete(Ok(()))),
        (AccountPhase::Persisting, AccountEvent::Persisted) => (AccountPhase::Finished, AccountAction::Complete(Ok(()))),
        (_, AccountEvent::StorageFailed(db)) => (AccountPhase::Finished, AccountAction::Complete(Err(AccountServiceError::Storage(db)))),
        _ => (AccountPhase::Finished, AccountAction::Complete(Err(AccountServiceError::Storage(DbError::RevisionConflict)))),
    }
}

/// One decision of storing a new cookie: Pixiv must accept it as the
/// cookie's own user (else validation fails on the profile request); a
/// new account is normal, an existing one is probed as in re-validation
/// (a refused probe fails the update) and recovers its waiting jobs when
/// it was not normal.
pub fn cookie_update_step(cookie_user_id: i64, phase: AccountPhase, event: AccountEvent) -> (next: (AccountPhase, AccountAction))
    ensures
        next == spec_cookie_update_step(cookie_user_id, phase, event),
{
    match (phase, event) {
        (AccountPhase::FindingExisting, AccountEvent::ExistingFound(existing)) =>
            (AccountPhase::Validating { existing }, AccountAction::ValidateCredential),
        (AccountPhase::Validating { .. }, AccountEvent::ValidationFailed { class, endpoint }) =>
            (AccountPhase::Finished, AccountAction::Complete(Err(AccountServiceError::Validation { class, endpoint }))),
        (AccountPhase::Validating { existing }, AccountEvent::Validated { pixiv_user_id }) => if pixiv_user_id != cookie_user_id {
            (AccountPhase::Finished, AccountAction::Complete(Err(AccountServiceError::Validation {
                class: PixivErrorClass::CredentialInvalid,
                endpoint: Some(PixivEndpoint::Profile),
            })))
        } else {
            match existing {
                None => persist_step(true, PixivAccountState::Normal, None),
                Some(_) => (AccountPhase::CheckingSubscriptions { existing }, AccountAction::CheckR18Subscriptions),
            }
        },
        (AccountPhase::CheckingSubscriptions { existing }, AccountEvent::R18Subscriptions { enabled }) => if enabled {
            (AccountPhase::Probing { existing }, AccountAction::ProbeR18Ranking)
        } else {
            persist_step(true, PixivAccountState::Normal, existing)
        },
        (AccountPhase::Probing { existing }, AccountEvent::Probed(failure)) => match probe_state(failure) {
            Ok(state) => persist_step(true, state, existing),
            Err(e) => (AccountPhase::Finished, AccountAction::Complete(Err(e))),
        },
        (AccountPhase::Persisting, AccountEvent::Persisted) => (AccountPhase::Finished, AccountAction::Complete(Ok(()))),
        (_, AccountEvent::StorageFailed(db)) => (AccountPhase::Finished, AccountAction::Complete(Err(AccountServiceError::Storage(db)))),
        _ => (AccountPhase::Finished, AccountAction::Complete(Err(AccountServiceError::Storage(DbError::RevisionConflict)))),
    }
}

/// An account is stored as normal only when no age-restricted probe was
/// needed or the probe passed; a cookie of another Pixiv user is never
/// stored; and waiting jobs are recovered exactly when the account was
/// known and not normal.
pub proof fn lemma_account_persisted_state(account_user_id: i64, account_state: PixivAccountState, has_credential: bool, phase: AccountPhase, event: AccountEvent)
    ensures
        ({
            let (next, action) = spec_revalidate_step(account_user_id, account_state, has_credential, phase, event);
            &&& (action matches AccountAction::Persist(a) ==> a.recover_waiting_jobs == (account_state != PixivAccountState::Normal)
                && a.validated_now == (a.state == PixivAccountState::Normal))
            &&& (action matches AccountAction::Persist(a) && a.state == PixivAccountState::Normal ==> (
                event == (AccountEvent::R18Subscriptions { enabled: false }) || event == AccountEvent::Probed(None)))
            &&& (event matches AccountEvent::Validated { pixiv_user_id } && pixiv_user_id != account_user_id && phase is Validating
                ==> action == AccountAction::BlockAccount)
        }),
        ({
            let (next, action) = spec_cookie_update_step(account_user_id, phase, event);
            (event matches AccountEvent::Validated { pixiv_user_id } && pixiv_user_id != account_user_id)
                ==> !(action is Persist)
        }),
{
}

} // verus!
