//! The per-installation cookie protection key kept beside the media:
//! its stored form, validation on load, and creation.

use vstd::prelude::*;
use crate::crypto::{base64_url_decode, base64_url_encode, os_random_bytes, spec_base64_url_decode, spec_base64_url_encode};
use crate::text::{chars_of, is_control, spec_is_control, spec_trim_bounds, trim_bounds};

verus! {

pub const PIXIV_COOKIE_KEY_VERSION: u8 = 1;
pub const MAX_PIXIV_COOKIE_KEY_FILE_BYTES: u64 = 4096;

/// The key that protects stored Pixiv cookies.
#[derive(Clone, Debug, PartialEq, Eq)]
pub struct PixivCookieInstallationKey {
    key_id: String,
    key: [u8; 32],
}

impl PixivCookieInstallationKey {
    pub closed spec fn id(&self) -> Seq<char> {
        self.key_id@
    }

    pub closed spec fn bytes(&self) -> Seq<u8> {
        self.key@
    }

    pub fn key_id(&self) -> (id: &str)
        ensures
            id@ == self.id(),
    {
        self.key_id.as_str()
    }

    pub fn key(&self) -> (key: [u8; 32])
        ensures
            key@ == self.bytes(),
    {
        self.key
    }
}

/// Failures while preparing or reading installation data. Paths are
/// rendered as text.
#[derive(Clone, Debug, PartialEq, Eq)]
pub enum InstallationError {
    InvalidEntry(String),
    InvalidKey(String),
    InvalidLegacyKey,
    Io { path: String, message: String },
    Random,
}

/// Failures of the media root's path resolution.
#[derive(Clone, Debug, PartialEq, Eq)]
pub enum MediaPathError {
    Io { path: String, message: String },
    InvalidRoot(String),
    InvalidRelativePath(String),
    UnsafeEntry(String),
    Worker(String),
}

/// Path failures surface as installation failures: an unusable entry for
/// any path the media root refuses, an I/O failure otherwise.
pub fn installation_path_error(error: MediaPathError) -> (e: InstallationError)
    ensures
        match error {
            MediaPathError::Io { path, message } => e == InstallationError::Io { path, message },
            MediaPathError::InvalidRoot(p) | MediaPathError::InvalidRelativePath(p) | MediaPathError::UnsafeEntry(p) => e == InstallationError::InvalidEntry(p),
            MediaPathError::Worker(p) => (e matches InstallationError::Io { path, message } && path == p
                && message@ == "media path worker stopped unexpectedly"@),
        },
{
    match error {
        MediaPathError::Io { path, message } => InstallationError::Io { path, message },
        MediaPathError::InvalidRoot(p) | MediaPathError::InvalidRelativePath(p) | MediaPathError::UnsafeEntry(p) => InstallationError::InvalidEntry(p),
        MediaPathError::Worker(p) => InstallationError::Io { path: p, message: String::from_str("media path worker stopped unexpectedly") },
    }
}

/// A key identifier is valid when it is non-empty, at most 128 bytes long,
/// has no surrounding whitespace and no control character.
pub open spec fn spec_valid_key_id(key_id: Seq<char>) -> bool {
    &&& key_id.len() > 0
    &&& (vstd::utf8::encode_utf8(key_id).len() as usize) <= 128
    &&& spec_trim_bounds(key_id, 0, key_id.len() as int) == (0int, key_id.len() as int)
    &&& forall|i: int| 0 <= i < key_id.len() ==> !spec_is_control(#[trigger] key_id[i])
}

#[verifier::loop_isolation(false)]
pub fn valid_key_id(key_id: &str) -> (valid: bool)
    ensures
        valid == spec_valid_key_id(key_id@),
{
    let chars = chars_of(key_id);
    if chars.len() == 0 || key_id.len() > 128 {
        return false;
    }
    let (a, b) = trim_bounds(&chars, 0, chars.len());
    if a != 0 || b != chars.len() {
        return false;
    }
    let mut i: usize = 0;
    while i < chars.len()
        invariant
            i <= chars@.len(),
            chars@ == key_id@,
            forall|k: int| 0 <= k < i ==> !spec_is_control(#[trigger] chars@[k]),
        decreases chars.len() - i,
    {
        if is_control(chars[i]) {
            return false;
        }
        i = i + 1;
    }
    true
}

/// Copies exactly 32 bytes into a key.
fn key_from_bytes(bytes: &Vec<u8>) -> (key: [u8; 32])
    requires
        bytes@.len() == 32,
    ensures
        key@ == bytes@,
{
    let mut key = [0u8; 32];
    let mut i: usize = 0;
    while i < 32
        invariant
            i <= 32,
            bytes@.len() == 32,
            key@.len() == 32,
            forall|k: int| 0 <= k < i ==> key@[k] == bytes@[k],
        decreases 32 - i,
    {
        key[i] = bytes[i];
        i = i + 1;
    }
    assert(key@ =~= bytes@);
    key
}

/// The key a valid identifier and its encoded bytes denote, if the text is
/// unpadded URL-safe base64 of exactly 32 bytes.
pub open spec fn spec_decoded_key(encoded: Seq<char>) -> Option<Seq<u8>> {
    match spec_base64_url_decode(encoded) {
        Some(bytes) => if bytes.len() == 32 { Some(bytes) } else { None },
        None => None,
    }
}

/// Reads a key supplied by an earlier deployment's configuration.
pub fn decode_legacy_key(key_id: &str, encoded_key: &str) -> (res: Result<PixivCookieInstallationKey, InstallationError>)
    ensures
        (spec_valid_key_id(key_id@) && spec_decoded_key(encoded_key@) is Some) <==> res is Ok,
        res matches Ok(k) ==> k.id() == key_id@ && k.bytes() == spec_decoded_key(encoded_key@)->0,
        res matches Err(e) ==> e == InstallationError::InvalidLegacyKey,
{
    if !valid_key_id(key_id) {
        return Err(InstallationError::InvalidLegacyKey);
    }
    let bytes = match base64_url_decode(encoded_key) {
        Some(b) => b,
        None => {
            return Err(InstallationError::InvalidLegacyKey);
        },
    };
    if bytes.len() != 32 {
        return Err(InstallationError::InvalidLegacyKey);
    }
    Ok(PixivCookieInstallationKey { key_id: String::from_str(key_id), key: key_from_bytes(&bytes) })
}

/// The key file's content: a format version, the key identifier and the
/// key in unpadded URL-safe base64.
#[derive(Clone, Debug, PartialEq, Eq)]
pub struct StoredPixivCookieKey {
    pub version: u8,
    pub key_id: String,
    pub key: String,
}

/// A key file larger than the limit is not read.
pub fn check_key_file_size(len: u64, path: &str) -> (res: Result<(), InstallationError>)
    ensures
        res is Ok <==> len <= MAX_PIXIV_COOKIE_KEY_FILE_BYTES,
        res matches Err(e) ==> (e matches InstallationError::InvalidKey(p) && p@ == path@),
{
    if len > MAX_PIXIV_COOKIE_KEY_FILE_BYTES {
        Err(InstallationError::InvalidKey(String::from_str(path)))
    } else {
        Ok(())
    }
}

/// Whether a stored key is acceptable: current version, valid identifier,
/// 32 key bytes.
pub open spec fn spec_stored_key_accepted(stored: StoredPixivCookieKey) -> bool {
    stored.version == PIXIV_COOKIE_KEY_VERSION && spec_valid_key_id(stored.key_id@) && spec_decoded_key(stored.key@) is Some
}

/// Reads the key out of the key file's content.
pub fn key_from_stored(stored: &StoredPixivCookieKey, path: &str) -> (res: Result<PixivCookieInstallationKey, InstallationError>)
    ensures
        res is Ok <==> spec_stored_key_accepted(*stored),
        res matches Ok(k) ==> k.id() == stored.key_id@ && k.bytes() == spec_decoded_key(stored.key@)->0,
        res matches Err(e) ==> (e matches InstallationError::InvalidKey(p) && p@ == path@),
{
    if stored.version != PIXIV_COOKIE_KEY_VERSION || !valid_key_id(stored.key_id.as_str()) {
        return Err(InstallationError::InvalidKey(String::from_str(path)));
    }
    let bytes = match base64_url_decode(stored.key.as_str()) {
        Some(b) => b,
        None => {
            return Err(InstallationError::InvalidKey(String::from_str(path)));
        },
    };
    if bytes.len() != 32 {
        return Err(InstallationError::InvalidKey(String::from_str(path)));
    }
    Ok(PixivCookieInstallationKey { key_id: stored.key_id.clone(), key: key_from_bytes(&bytes) })
}

/// The content written to a new key file.
pub fn stored_form(key: &PixivCookieInstallationKey) -> (stored: StoredPixivCookieKey)
    ensures
        stored.version == PIXIV_COOKIE_KEY_VERSION,
        stored.key_id@ == key.id(),
        stored.key@ == spec_base64_url_encode(key.bytes()),
        spec_decoded_key(stored.key@) == Some(key.bytes()),
{
    let encoded = base64_url_encode(key.key.as_slice());
    StoredPixivCookieKey { version: PIXIV_COOKIE_KEY_VERSION, key_id: key.key_id.clone(), key: encoded }
}

/// The key to write when none exists yet: the imported legacy key, or 32
/// random bytes under the identifier `primary`.
pub fn new_installation_key(imported: Option<PixivCookieInstallationKey>) -> (res: Result<PixivCookieInstallationKey, InstallationError>)
    ensures
        imported is Some ==> res == Ok::<PixivCookieInstallationKey, InstallationError>(imported->0),
        imported is None ==> match res {
            Ok(k) => k.id() == "primary"@ && k.bytes().len() == 32,
            Err(e) => e == InstallationError::Random,
        },
{
    match imported {
        Some(key) => Ok(key),
        None => {
            let bytes = match os_random_bytes(32) {
                Some(b) => b,
                None => {
                    return Err(InstallationError::Random);
                },
            };
            Ok(PixivCookieInstallationKey { key_id: String::from_str("primary"), key: key_from_bytes(&bytes) })
        },
    }
}

/// The key to create when the key file is missing: the legacy key when one
/// is configured (it must decode), otherwise none, i.e. a fresh random one.
pub fn key_to_create(legacy: Option<(&str, &str)>) -> (res: Result<Option<PixivCookieInstallationKey>, InstallationError>)
    ensures
        legacy is None ==> res == Ok::<Option<PixivCookieInstallationKey>, InstallationError>(None),
        legacy matches Some((id, encoded)) ==> match res {
            Ok(k) => spec_valid_key_id(id@) && spec_decoded_key(encoded@) is Some
                && (k matches Some(key) && key.id() == id@ && key.bytes() == spec_decoded_key(encoded@)->0),
            Err(e) => e == InstallationError::InvalidLegacyKey && !(spec_valid_key_id(id@) && spec_decoded_key(encoded@) is Some),
        },
{
    match legacy {
        None => Ok(None),
        Some((id, encoded)) => match decode_legacy_key(id, encoded) {
            Ok(key) => Ok(Some(key)),
            Err(e) => Err(e),
        },
    }
}

/// A key written by this installation is read back unchanged: the stored
/// form of a key with a valid identifier is accepted and denotes the same
/// identifier and bytes.
pub proof fn lemma_stored_key_round_trip(key_id: Seq<char>, key: Seq<u8>, stored: StoredPixivCookieKey)
    requires
        spec_valid_key_id(key_id),
        key.len() == 32,
        stored.version == PIXIV_COOKIE_KEY_VERSION,
        stored.key_id@ == key_id,
        spec_decoded_key(stored.key@) == Some(key),
    ensures
        spec_stored_key_accepted(stored),
        spec_decoded_key(stored.key@)->0 == key,
{
}

/// The identifier of generated keys is valid.
pub proof fn lemma_primary_key_id_valid()
    ensures
        spec_valid_key_id("primary"@),
{
    reveal_strlit("primary");
    let s = "primary"@;
    assert(!crate::text::spec_is_whitespace(s[0]));
    assert(!crate::text::spec_is_whitespace(s[6]));
    assert(vstd::utf8::is_ascii_chars(s));
    vstd::utf8::is_ascii_chars_encode_utf8(s);
}

/// Where preparing the installation data stands.
#[derive(Clone, Copy, Debug, PartialEq, Eq, Structural)]
pub enum InstallPhase {
    PreparingDirectories,
    Loading,
    Creating,
    LoadingWinner,
    Finished,
}

/// What the last file system step reported.
#[derive(Clone, Debug, PartialEq, Eq)]
pub enum InstallEvent {
    DirectoriesReady,
    KeyLoaded,
    /// The key file does not exist.
    KeyMissing,
    /// The new key file was written.
    KeyWritten,
    /// Another process created the key file first.
    KeyFileExists,
    Failed(InstallationError),
}

/// The next step, or how preparing ended.
#[derive(Debug, PartialEq, Eq)]
pub enum InstallAction {
    LoadKey,
    /// Write a new key file (the legacy key, or a random one), refusing to
    /// replace an existing file.
    CreateKey,
    Complete(Result<(), InstallationError>),
}

pub open spec fn spec_install_step(phase: InstallPhase, event: InstallEvent) -> (InstallPhase, InstallAction) {
    match (phase, event) {
        (InstallPhase::PreparingDirectories, InstallEvent::DirectoriesReady) => (InstallPhase::Loading, InstallAction::LoadKey),
        (InstallPhase::Loading, InstallEvent::KeyLoaded) => (InstallPhase::Finished, InstallAction::Complete(Ok(()))),
        (InstallPhase::Loading, InstallEvent::KeyMissing) => (InstallPhase::Creating, InstallAction::CreateKey),
        (InstallPhase::Creating, InstallEvent::KeyWritten) => (InstallPhase::Finished, InstallAction::Complete(Ok(()))),
        (InstallPhase::Creating, InstallEvent::KeyFileExists) => (InstallPhase::LoadingWinner, InstallAction::LoadKey),
        (InstallPhase::LoadingWinner, InstallEvent::KeyLoaded) => (InstallPhase::Finished, InstallAction::Complete(Ok(()))),
        (_, InstallEvent::Failed(e)) => (InstallPhase::Finished, InstallAction::Complete(Err(e))),
        _ => (InstallPhase::Finished, InstallAction::Complete(Err(InstallationError::Random))),
    }
}

/// One step of preparing the installation: the data directories first,
/// then the key file is read; only a missing file is created, and a file
/// created meanwhile by another process is read instead of replaced.
pub fn install_step(phase: InstallPhase, event: InstallEvent) -> (next: (InstallPhase, InstallAction))
    ensures
        next == spec_install_step(phase, event),
{
    match (phase, event) {
        (InstallPhase::PreparingDirectories, InstallEvent::DirectoriesReady) => (InstallPhase::Loading, InstallAction::LoadKey),
        (InstallPhase::Loading, InstallEvent::KeyLoaded) => (InstallPhase::Finished, InstallAction::Complete(Ok(()))),
        (InstallPhase::Loading, InstallEvent::KeyMissing) => (InstallPhase::Creating, InstallAction::CreateKey),
        (InstallPhase::Creating, InstallEvent::KeyWritten) => (InstallPhase::Finished, InstallAction::Complete(Ok(()))),
        (InstallPhase::Creating, InstallEvent::KeyFileExists) => (InstallPhase::LoadingWinner, InstallAction::LoadKey),
        (InstallPhase::LoadingWinner, InstallEvent::KeyLoaded) => (InstallPhase::Finished, InstallAction::Complete(Ok(()))),
        (_, InstallEvent::Failed(e)) => (InstallPhase::Finished, InstallAction::Complete(Err(e))),
        _ => (InstallPhase::Finished, InstallAction::Complete(Err(InstallationError::Random))),
    }
}

/// An existing key is never replaced: a key is created only right after
/// the key file was found missing, and a lost creation race ends by
/// reading the existing key.
pub proof fn lemma_existing_key_is_kept(phase: InstallPhase, event: InstallEvent)
    ensures
        spec_install_step(phase, event).1 == InstallAction::CreateKey ==> (phase == InstallPhase::Loading && event == InstallEvent::KeyMissing),
        (phase == InstallPhase::Creating && event == InstallEvent::KeyFileExists) ==> spec_install_step(phase, event).1 == InstallAction::LoadKey,
{
}

} // verus!
