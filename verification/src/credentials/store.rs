use vstd::prelude::*;

use crate::credentials::base64::{b64_decode, b64_encode, base64_decode, base64_encode};
use crate::error::SynoError;
use crate::platform::{join, join_path};
use crate::text::{find_char, str_equal, substring};
use vstd::string::StringSliceAdditionalSpecFns;
use vstd::utf8::{decode_utf8, encode_utf8, valid_utf8};

verus! {

/// Abstraction over credential storage backends.
///
/// Currently implemented:
/// - EncryptedFile: base64-encoded file (fallback for headless systems)
///
/// Future (requires libdbus-1-dev):
/// - Keyring: OS-native secure storage (GNOME Keyring, macOS Keychain)
#[derive(Debug)]
pub enum CredentialStore {
    Keyring,
    EncryptedFile { path: String },
}

/// The answer of the keyring backend to a save.
pub const KEYRING_SAVE_MESSAGE: &'static str =
    "Keyring backend not available. Use credential_store = \"encrypted_file\" in config.";

/// A file to write: where and what.
#[derive(Debug)]
pub struct StoredFile {
    pub path: String,
    pub contents: String,
}

/// `String::from_utf8`: the text of UTF-8 bytes, or the message of the decoding error.
/// Stated, as the standard library documents it: the result is `Ok` exactly for valid UTF-8,
/// and then holds the decoded characters. The error message is not stated.
#[verifier::external_body]
fn utf8_to_string(bytes: Vec<u8>) -> (r: Result<String, String>)
    ensures
        r is Ok <==> valid_utf8(bytes@),
        r matches Ok(s) ==> s@ == decode_utf8(bytes@),
{
    match String::from_utf8(bytes) {
        Ok(s) => Ok(s),
        Err(e) => Err(e.to_string()),
    }
}

/// A line without the carriage return of a `\r\n` ending.
pub open spec fn strip_cr(l: Seq<char>) -> Seq<char> {
    if l.len() > 0 && l.last() == '\r' {
        l.drop_last()
    } else {
        l
    }
}

/// The first line of a text, as `str::lines` gives it; the whole text when it has no newline.
pub open spec fn first_line(s: Seq<char>) -> Seq<char> {
    match s.index_of_first('\n') {
        Some(k) => strip_cr(s.take(k)),
        None => s,
    }
}

/// What follows the first newline; empty when there is none.
pub open spec fn after_first_line(s: Seq<char>) -> Seq<char> {
    match s.index_of_first('\n') {
        Some(k) => s.skip(k + 1),
        None => Seq::empty(),
    }
}

/// The text the credential file holds for a user name and password: base64 of the UTF-8
/// bytes of `username\npassword`.
pub open spec fn stored_text(username: Seq<char>, password: Seq<char>) -> Seq<char> {
    b64_encode(encode_utf8(username + seq!['\n'] + password))
}

/// What a stored text decodes to: `None` when it is not base64 of UTF-8; else the user name
/// and password on its first two lines, or no credentials when the user name is empty.
pub open spec fn spec_parse_stored(text: Seq<char>) -> Option<Option<(Seq<char>, Seq<char>)>> {
    match b64_decode(encode_utf8(text)) {
        Err(_) => None,
        Ok(bytes) => if !valid_utf8(bytes) {
            None
        } else {
            let t = decode_utf8(bytes);
            let username = first_line(t);
            let password = first_line(after_first_line(t));
            Some(if username.len() == 0 { None } else { Some((username, password)) })
        },
    }
}

/// The path of the credential file under an optional configuration directory.
pub open spec fn credentials_path_under(dir: Option<String>) -> Seq<char> {
    join_path(
        match dir {
            Some(d) => d@,
            None => "."@,
        },
        "synoplayer/credentials.enc"@,
    )
}

/// The first line of `s`, and the text after its first newline.
fn split_first_line(s: &str) -> (r: (String, String))
    ensures
        r.0@ == first_line(s@),
        r.1@ == after_first_line(s@),
{
    let n = s.unicode_len();
    proof {
        s@.index_of_first_ensures('\n');
    }
    match find_char(s, '\n') {
        Some(k) => {
            let end = if k > 0 && s.get_char(k - 1) == '\r' {
                k - 1
            } else {
                k
            };
            let line = substring(s, 0, end);
            let rest = substring(s, k + 1, n);
            assert(line@ =~= first_line(s@));
            assert(rest@ =~= after_first_line(s@));
            (line, rest)
        },
        None => {
            let line = substring(s, 0, n);
            assert(line@ =~= s@);
            (line, String::new())
        },
    }
}

impl CredentialStore {
    /// Create a keyring-backed store.
    pub fn keyring() -> (s: Self)
        ensures
            s is Keyring,
    {
        CredentialStore::Keyring
    }

    /// Create an encrypted-file-backed store.
    pub fn encrypted_file(path: String) -> (s: Self)
        ensures
            s == (CredentialStore::EncryptedFile { path }),
    {
        CredentialStore::EncryptedFile { path }
    }

    /// Choose backend based on config string: `encrypted_file` selects the file under the
    /// configuration directory, anything else the keyring.
    pub fn from_config(store_type: &str) -> (s: Self)
        ensures
            store_type@ == "encrypted_file"@ ==> (s matches CredentialStore::EncryptedFile { path }
                && exists|dir: Option<String>| path@ == #[trigger] credentials_path_under(dir)),
            store_type@ != "encrypted_file"@ ==> s is Keyring,
    {
        if str_equal(store_type, "encrypted_file") {
            let dir = crate::platform::config_dir();
            let path = match &dir {
                Some(d) => join(d.as_str(), "synoplayer/credentials.enc"),
                None => join(".", "synoplayer/credentials.enc"),
            };
            assert(path@ == credentials_path_under(dir));
            Self::encrypted_file(path)
        } else {
            Self::keyring()
        }
    }

    /// Credentials to save: the file and the text to write to it. The keyring backend is not
    /// available and answers with an error.
    pub fn save(&self, username: &str, password: &str) -> (r: Result<StoredFile, SynoError>)
        ensures
            *self is Keyring ==> (r matches Err(SynoError::Credential(m)) && m@
                == KEYRING_SAVE_MESSAGE@),
            *self matches CredentialStore::EncryptedFile { path } ==> (r matches Ok(f) && f.path
                == path && f.contents@ == stored_text(username@, password@)),
    {
        match self {
            CredentialStore::Keyring => Err(SynoError::Credential(KEYRING_SAVE_MESSAGE.to_string())),
            CredentialStore::EncryptedFile { path } => {
                // Simple encoding: base64(username\npassword)
                let mut data = username.to_string();
                data.append("\n");
                data.append(password);
                proof {
                    reveal_strlit("\n");
                    assert(data@ =~= username@ + seq!['\n'] + password@);
                }
                let contents = base64_encode(data.as_str().as_bytes());
                Ok(StoredFile { path: path.clone(), contents })
            },
        }
    }

    /// Credentials from the stored file text (`None` when the file does not exist).
    /// Returns `Ok(None)` if nothing is stored. The keyring backend is not available.
    pub fn load(&self, stored: Option<&str>) -> (r: Result<Option<(String, String)>, SynoError>)
        ensures
            match *self {
                CredentialStore::Keyring => r matches Err(SynoError::Credential(m)) && m@
                    == "Keyring backend not available."@,
                CredentialStore::EncryptedFile { .. } => match stored {
                    None => r matches Ok(None),
                    Some(text) => match spec_parse_stored(text@) {
                        None => r matches Err(SynoError::Credential(m)) && (b64_decode(
                            encode_utf8(text@),
                        ) matches Err(e) ==> m@ == e),
                        Some(None) => r matches Ok(None),
                        Some(Some((u, p))) => r matches Ok(Some((ru, rp))) && ru@ == u && rp@ == p,
                    },
                },
            },
    {
        match self {
            CredentialStore::Keyring => Err(SynoError::Credential("Keyring backend not available.".to_string())),
            CredentialStore::EncryptedFile { .. } => {
                let text = match stored {
                    None => {
                        return Ok(None);
                    },
                    Some(t) => t,
                };
                let decoded = match base64_decode(text) {
                    Ok(d) => d,
                    Err(m) => {
                        return Err(SynoError::Credential(m));
                    },
                };
                let ghost bytes = decoded@;
                let plain = match utf8_to_string(decoded) {
                    Ok(s) => s,
                    Err(m) => {
                        return Err(SynoError::Credential(m));
                    },
                };
                let (username, rest) = split_first_line(plain.as_str());
                let (password, _) = split_first_line(rest.as_str());
                if username.as_str().is_empty() {
                    return Ok(None);
                }
                Ok(Some((username, password)))
            },
        }
    }

    /// The file to remove to clear stored credentials. The keyring backend is not available.
    pub fn clear(&self) -> (r: Result<String, SynoError>)
        ensures
            match *self {
                CredentialStore::Keyring => r matches Err(SynoError::Credential(m)) && m@
                    == "Keyring backend not available."@,
                CredentialStore::EncryptedFile { path } => r == Ok::<String, SynoError>(path),
            },
    {
        match self {
            CredentialStore::Keyring => Err(SynoError::Credential("Keyring backend not available.".to_string())),
            CredentialStore::EncryptedFile { path } => Ok(path.clone()),
        }
    }

    /// Check if credentials are stored, given the stored file text.
    pub fn has_stored(&self, stored: Option<&str>) -> (b: bool)
        ensures
            b == (match *self {
                CredentialStore::Keyring => false,
                CredentialStore::EncryptedFile { .. } => match stored {
                    None => false,
                    Some(text) => spec_parse_stored(text@) matches Some(Some(_)),
                },
            }),
    {
        match self.load(stored) {
            Ok(Some(_)) => true,
            _ => false,
        }
    }
}

/// Credentials saved to the file load back unchanged, for a non-empty user name without a
/// newline that does not end in a carriage return, and a password without a newline.
pub proof fn lemma_saved_credentials_load_back(username: Seq<char>, password: Seq<char>)
    requires
        username.len() > 0,
        !username.contains('\n'),
        username.last() != '\r',
        !password.contains('\n'),
    ensures
        spec_parse_stored(stored_text(username, password)) == Some(Some((username, password))),
{
    let plain = username + seq!['\n'] + password;
    let bytes = encode_utf8(plain);
    crate::credentials::base64::lemma_base64_round_trip(bytes);
    vstd::utf8::encode_utf8_valid_utf8(plain);
    vstd::utf8::encode_utf8_decode_utf8(plain);
    plain.index_of_first_ensures('\n');
    assert(plain[username.len() as int] == '\n');
    assert forall|j: int| 0 <= j < username.len() implies plain[j] != '\n' by {
        assert(plain[j] == username[j]);
    }
    assert(plain.contains('\n'));
    let k = plain.index_of_first('\n')->0;
    assert(k == username.len()) by {
        if k < username.len() {
            assert(plain[k] == username[k]);
        }
    }
    assert(plain.take(k) =~= username);
    assert(plain.skip(k + 1) =~= password);
    password.index_of_first_ensures('\n');
}

} // verus!
