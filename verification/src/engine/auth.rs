//! Credentials: where they are kept, and the encrypted store's table of tokens.
use vstd::prelude::*;

use crate::error::MultiGitError;
use crate::named_map::NamedMap;
use crate::text::{concat2, concat3, owned};

verus! {

/// Where credentials are kept.
#[derive(Debug, Clone, Copy, PartialEq, Eq, Structural)]
pub enum AuthBackend {
    /// The operating system keyring.
    Keyring,
    /// An encrypted file.
    EncryptedFile,
    /// Environment variables.
    Environment,
}

/// The key under which a credential for `provider`, `host` and `username` is stored.
pub open spec fn credential_key(provider: Seq<char>, host: Seq<char>, username: Seq<char>) -> Seq<
    char,
> {
    provider + ":"@ + host + ":"@ + username
}

/// The key that credentials were stored under before they were bound to a host.
pub open spec fn legacy_key(provider: Seq<char>, username: Seq<char>) -> Seq<char> {
    provider + ":"@ + username
}

/// The token a lookup finds in table `m`: under the host-bound key, else under the
/// legacy key.
pub open spec fn lookup_spec(
    m: Map<Seq<char>, Seq<char>>,
    provider: Seq<char>,
    host: Seq<char>,
    username: Seq<char>,
) -> Option<Seq<char>> {
    let key = credential_key(provider, host, username);
    let legacy = legacy_key(provider, username);
    if m.contains_key(key) {
        Some(m[key])
    } else if m.contains_key(legacy) {
        Some(m[legacy])
    } else {
        None
    }
}

/// The table after storing `token` for a credential.
pub open spec fn store_spec(
    m: Map<Seq<char>, Seq<char>>,
    provider: Seq<char>,
    host: Seq<char>,
    username: Seq<char>,
    token: Seq<char>,
) -> Map<Seq<char>, Seq<char>> {
    m.insert(credential_key(provider, host, username), token)
}

/// The table after deleting a credential under both of its keys.
pub open spec fn delete_spec(
    m: Map<Seq<char>, Seq<char>>,
    provider: Seq<char>,
    host: Seq<char>,
    username: Seq<char>,
) -> Map<Seq<char>, Seq<char>> {
    m.remove(credential_key(provider, host, username)).remove(legacy_key(provider, username))
}

/// The table after a token found under the legacy key moves to the host-bound key.
pub open spec fn migrate_spec(
    m: Map<Seq<char>, Seq<char>>,
    provider: Seq<char>,
    host: Seq<char>,
    username: Seq<char>,
) -> Map<Seq<char>, Seq<char>> {
    let legacy = legacy_key(provider, username);
    m.insert(credential_key(provider, host, username), m[legacy]).remove(legacy)
}

/// Looking a credential up right after storing it gives the stored token.
pub proof fn law_lookup_after_store(
    m: Map<Seq<char>, Seq<char>>,
    provider: Seq<char>,
    host: Seq<char>,
    username: Seq<char>,
    token: Seq<char>,
)
    ensures
        lookup_spec(store_spec(m, provider, host, username, token), provider, host, username)
            == Some(token),
{
}

/// Looking a credential up right after deleting it finds nothing.
pub proof fn law_lookup_after_delete(
    m: Map<Seq<char>, Seq<char>>,
    provider: Seq<char>,
    host: Seq<char>,
    username: Seq<char>,
)
    ensures
        lookup_spec(delete_spec(m, provider, host, username), provider, host, username) is None,
{
}

/// Storing one credential leaves every other key's token as it was.
pub proof fn law_store_keeps_other_keys(
    m: Map<Seq<char>, Seq<char>>,
    provider: Seq<char>,
    host: Seq<char>,
    username: Seq<char>,
    token: Seq<char>,
    k: Seq<char>,
)
    requires
        k != credential_key(provider, host, username),
    ensures
        store_spec(m, provider, host, username, token).contains_key(k) == m.contains_key(k),
        m.contains_key(k) ==> store_spec(m, provider, host, username, token)[k] == m[k],
{
}

/// Migrating a legacy credential keeps what a lookup finds, and leaves the legacy key
/// empty when the two keys differ.
pub proof fn law_migration_keeps_lookup(
    m: Map<Seq<char>, Seq<char>>,
    provider: Seq<char>,
    host: Seq<char>,
    username: Seq<char>,
)
    requires
        !m.contains_key(credential_key(provider, host, username)),
        m.contains_key(legacy_key(provider, username)),
        credential_key(provider, host, username) != legacy_key(provider, username),
    ensures
        lookup_spec(migrate_spec(m, provider, host, username), provider, host, username)
            == lookup_spec(m, provider, host, username),
        !migrate_spec(m, provider, host, username).contains_key(legacy_key(provider, username)),
{
}

/// What a lookup of `provider`, `host` and `username` in table `m` gives: the token under
/// the host-bound key; else the token under the legacy key, with the table in which it
/// has moved to the host-bound key; else `Credential not found: <key>`.
pub open spec fn lookup_outcome(
    m: Map<Seq<char>, Seq<char>>,
    provider: Seq<char>,
    host: Seq<char>,
    username: Seq<char>,
    r: Result<Retrieved, MultiGitError>,
) -> bool {
    let key = credential_key(provider, host, username);
    let legacy = legacy_key(provider, username);
    &&& r is Ok <==> lookup_spec(m, provider, host, username) is Some
    &&& r matches Ok(found) ==> found.token@ == lookup_spec(m, provider, host, username)->0
    &&& if m.contains_key(key) {
        r is Ok && r->Ok_0.migrated is None
    } else if m.contains_key(legacy) {
        r is Ok && r->Ok_0.migrated is Some && r->Ok_0.migrated->0.wf()
            && r->Ok_0.migrated->0@ == migrate_spec(m, provider, host, username)
    } else {
        r is Err && r->Err_0 is Other && r->Err_0->Other_0@ == "Credential not found: "@ + key
    }
}

/// The key under which a credential is stored: `provider:host:username`.
pub fn make_credential_key(provider: &str, host: &str, username: &str) -> (r: String)
    ensures
        r@ == credential_key(provider@, host@, username@),
{
    let mut r = concat3(provider, ":", host);
    r.append(":");
    r.append(username);
    r
}

/// The key used before credentials were bound to a host: `provider:username`.
pub fn make_legacy_key(provider: &str, username: &str) -> (r: String)
    ensures
        r@ == legacy_key(provider@, username@),
{
    concat3(provider, ":", username)
}

/// The decrypted contents of the encrypted credential store: tokens by key.
pub struct CredentialTable {
    tokens: NamedMap<String>,
}

/// A token found by a lookup, and the table to save when it was found under the legacy
/// key and moved to the host-bound key.
pub struct Retrieved {
    /// The token.
    pub token: String,
    /// The table with the token moved to the host-bound key, when it was migrated.
    pub migrated: Option<CredentialTable>,
}

impl CredentialTable {
    /// Well formed: each key at most once.
    pub closed spec fn wf(&self) -> bool {
        self.tokens.wf()
    }

    /// The tokens by key, as text.
    pub closed spec fn view(&self) -> Map<Seq<char>, Seq<char>> {
        self.tokens@.map_values(|t: String| t@)
    }

    /// An empty table.
    pub fn new() -> (r: Self)
        ensures
            r.wf(),
            r@ == Map::<Seq<char>, Seq<char>>::empty(),
    {
        let r = CredentialTable { tokens: NamedMap::new() };
        assert(r@ =~= Map::<Seq<char>, Seq<char>>::empty());
        r
    }

    /// Sets the token stored under `key`.
    pub fn set(&mut self, key: String, token: String)
        requires
            old(self).wf(),
        ensures
            final(self).wf(),
            final(self)@ == old(self)@.insert(key@, token@),
    {
        self.tokens.insert(key, token);
        assert(self@ =~= old(self)@.insert(key@, token@));
    }

    /// The token stored under `key`.
    pub fn get(&self, key: &str) -> (r: Option<String>)
        requires
            self.wf(),
        ensures
            match r {
                Some(t) => self@.contains_key(key@) && t@ == self@[key@],
                None => !self@.contains_key(key@),
            },
    {
        match self.tokens.get(key) {
            Some(t) => Some(t.clone()),
            None => None,
        }
    }

    /// Drops the token stored under `key`.
    pub fn unset(&mut self, key: &str)
        requires
            old(self).wf(),
        ensures
            final(self).wf(),
            final(self)@ == old(self)@.remove(key@),
    {
        self.tokens.remove(key);
        assert(self@ =~= old(self)@.remove(key@));
    }

    /// Stores `token` for `provider`, `host` and `username`.
    pub fn store(&mut self, provider: &str, host: &str, username: &str, token: &str)
        requires
            old(self).wf(),
        ensures
            final(self).wf(),
            final(self)@ == store_spec(old(self)@, provider@, host@, username@, token@),
    {
        let key = make_credential_key(provider, host, username);
        self.set(key, owned(token));
    }

    /// Looks a credential up: under the host-bound key first, then under the legacy key,
    /// in which case the token is moved to the host-bound key in the returned table.
    /// Missing: `Credential not found: <key>`.
    pub fn retrieve(&self, provider: &str, host: &str, username: &str) -> (r: Result<
        Retrieved,
        MultiGitError,
    >)
        requires
            self.wf(),
        ensures
            lookup_outcome(self@, provider@, host@, username@, r),
    {
        let key = make_credential_key(provider, host, username);
        match self.get(key.as_str()) {
            Some(t) => {
                return Ok(Retrieved { token: t, migrated: None });
            },
            None => {},
        }
        let legacy = make_legacy_key(provider, username);
        match self.get(legacy.as_str()) {
            Some(t) => {
                let mut moved = self.copy();
                moved.set(key, t.clone());
                moved.unset(legacy.as_str());
                Ok(Retrieved { token: t, migrated: Some(moved) })
            },
            None => Err(MultiGitError::Other(concat2("Credential not found: ", key.as_str()))),
        }
    }

    /// Deletes the credential for `provider`, `host` and `username`, under both keys.
    pub fn delete(&mut self, provider: &str, host: &str, username: &str)
        requires
            old(self).wf(),
        ensures
            final(self).wf(),
            final(self)@ == delete_spec(old(self)@, provider@, host@, username@),
    {
        let key = make_credential_key(provider, host, username);
        self.unset(key.as_str());
        let legacy = make_legacy_key(provider, username);
        self.unset(legacy.as_str());
    }

    /// A copy of the table.
    pub fn copy(&self) -> (r: Self)
        requires
            self.wf(),
        ensures
            r.wf(),
            r@ == self@,
    {
        CredentialTable { tokens: self.tokens.copy() }
    }
}

/// Where a credential operation goes.
#[derive(Debug, Clone, Copy, PartialEq, Eq, Structural)]
pub enum CredentialTarget {
    /// The operating system keyring.
    Keyring,
    /// The encrypted credential file.
    EncryptedFile,
}

/// Where the encrypted credential file is and how it is unlocked.
pub struct EncryptedStoreLocation {
    /// Passphrase that unlocks the file.
    pub passphrase: String,
    /// Path of the file.
    pub path: String,
}

/// Chooses where credentials are stored, read and deleted.
pub struct AuthManager {
    keyring: bool,
    encrypted_store: Option<EncryptedStoreLocation>,
    audit: bool,
    preferred_backend: AuthBackend,
}

/// The error for an operation that has nowhere to go.
pub open spec fn other_error(e: MultiGitError, msg: Seq<char>) -> bool {
    e is Other && e->Other_0@ == msg
}

/// `r` goes where `route` says, or fails with the message that `route` gives.
pub open spec fn routed(
    r: Result<CredentialTarget, MultiGitError>,
    route: Result<CredentialTarget, Seq<char>>,
) -> bool {
    match route {
        Ok(t) => r == Ok::<CredentialTarget, MultiGitError>(t),
        Err(msg) => r is Err && other_error(r->Err_0, msg),
    }
}

/// What a credential lookup gives its caller.
pub enum Retrieval {
    /// The token, found in the environment or in the encrypted file's table.
    Found(Retrieved),
    /// The keyring is to be asked.
    FromKeyring,
}

/// The lookup result inside a retrieval (no token when the keyring is to be asked).
pub open spec fn found_of(r: Result<Retrieval, MultiGitError>) -> Result<Retrieved, MultiGitError> {
    match r {
        Ok(Retrieval::Found(f)) => Ok(f),
        Ok(Retrieval::FromKeyring) => Err(MultiGitError::AlreadyInitialized),
        Err(e) => Err(e),
    }
}

impl AuthManager {
    /// Whether the keyring is set up.
    pub closed spec fn keyring_ready(&self) -> bool {
        self.keyring
    }

    /// Whether the encrypted store is set up.
    pub closed spec fn encrypted_ready(&self) -> bool {
        self.encrypted_store is Some
    }

    /// The encrypted store's location, when set up.
    pub closed spec fn store_location(&self) -> Option<EncryptedStoreLocation> {
        self.encrypted_store
    }

    /// Whether sensitive operations are logged.
    pub closed spec fn audit_enabled(&self) -> bool {
        self.audit
    }

    /// The preferred backend.
    pub closed spec fn backend(&self) -> AuthBackend {
        self.preferred_backend
    }

    /// A manager for `preferred_backend`: the keyring is set up when it is preferred;
    /// the encrypted store is not set up yet.
    pub fn new(preferred_backend: AuthBackend, enable_audit: bool) -> (r: Self)
        ensures
            r.backend() == preferred_backend,
            r.keyring_ready() == (preferred_backend == AuthBackend::Keyring),
            !r.encrypted_ready(),
            r.audit_enabled() == enable_audit,
    {
        AuthManager {
            keyring: match preferred_backend {
                AuthBackend::Keyring => true,
                _ => false,
            },
            encrypted_store: None,
            audit: enable_audit,
            preferred_backend,
        }
    }

    /// Whether the keyring is set up.
    pub fn has_keyring(&self) -> (r: bool)
        ensures
            r == self.keyring_ready(),
    {
        self.keyring
    }

    /// Whether sensitive operations are logged.
    pub fn audit(&self) -> (r: bool)
        ensures
            r == self.audit_enabled(),
    {
        self.audit
    }

    /// The preferred backend.
    pub fn preferred_backend(&self) -> (r: AuthBackend)
        ensures
            r == self.backend(),
    {
        self.preferred_backend
    }

    /// The encrypted store, when set up.
    pub fn encrypted_store(&self) -> (r: &Option<EncryptedStoreLocation>)
        ensures
            *r == self.store_location(),
            r is Some == self.encrypted_ready(),
    {
        &self.encrypted_store
    }

    /// Sets up the encrypted credential file.
    pub fn init_encrypted_store(&mut self, passphrase: String, path: String)
        ensures
            final(self).encrypted_ready(),
            final(self).store_location() == Some(EncryptedStoreLocation { passphrase, path }),
            final(self).keyring_ready() == old(self).keyring_ready(),
            final(self).audit_enabled() == old(self).audit_enabled(),
            final(self).backend() == old(self).backend(),
    {
        self.encrypted_store = Some(EncryptedStoreLocation { passphrase, path });
    }

    /// Where a credential is stored: the keyring or the encrypted file as preferred, if
    /// set up; never the environment.
    pub open spec fn store_route(&self) -> Result<CredentialTarget, Seq<char>> {
        match self.backend() {
            AuthBackend::Keyring => self.keyring_route(),
            AuthBackend::EncryptedFile => self.encrypted_route(),
            AuthBackend::Environment => Err(
                "Cannot store credentials in environment variables"@,
            ),
        }
    }

    /// Where a credential is read from (after any environment variable): the keyring
    /// for the keyring and environment backends, else the encrypted file, if set up.
    pub open spec fn retrieve_route(&self) -> Result<CredentialTarget, Seq<char>> {
        match self.backend() {
            AuthBackend::EncryptedFile => self.encrypted_route(),
            _ => self.keyring_route(),
        }
    }

    /// Where a credential is deleted: as for storing; environment variables are never
    /// deleted.
    pub open spec fn delete_route(&self) -> Result<CredentialTarget, Seq<char>> {
        match self.backend() {
            AuthBackend::Keyring => self.keyring_route(),
            AuthBackend::EncryptedFile => self.encrypted_route(),
            AuthBackend::Environment => Err("Cannot delete environment variables"@),
        }
    }

    /// The keyring, if set up.
    pub open spec fn keyring_route(&self) -> Result<CredentialTarget, Seq<char>> {
        if self.keyring_ready() {
            Ok(CredentialTarget::Keyring)
        } else {
            Err("Keyring not initialized"@)
        }
    }

    /// The encrypted file, if set up.
    pub open spec fn encrypted_route(&self) -> Result<CredentialTarget, Seq<char>> {
        if self.encrypted_ready() {
            Ok(CredentialTarget::EncryptedFile)
        } else {
            Err("Encrypted store not initialized"@)
        }
    }

    /// Where a credential is stored.
    pub fn store_target(&self) -> (r: Result<CredentialTarget, MultiGitError>)
        ensures
            routed(r, self.store_route()),
    {
        match self.preferred_backend {
            AuthBackend::Keyring => self.keyring_target(),
            AuthBackend::EncryptedFile => self.encrypted_target(),
            AuthBackend::Environment => Err(
                MultiGitError::Other(owned("Cannot store credentials in environment variables")),
            ),
        }
    }

    /// Where a credential is read from, when no environment variable supplies it.
    pub fn retrieve_target(&self) -> (r: Result<CredentialTarget, MultiGitError>)
        ensures
            routed(r, self.retrieve_route()),
    {
        match self.preferred_backend {
            AuthBackend::EncryptedFile => self.encrypted_target(),
            _ => self.keyring_target(),
        }
    }

    /// Where a credential is deleted.
    pub fn delete_target(&self) -> (r: Result<CredentialTarget, MultiGitError>)
        ensures
            routed(r, self.delete_route()),
    {
        match self.preferred_backend {
            AuthBackend::Keyring => self.keyring_target(),
            AuthBackend::EncryptedFile => self.encrypted_target(),
            AuthBackend::Environment => Err(
                MultiGitError::Other(owned("Cannot delete environment variables")),
            ),
        }
    }

    /// Stores `token` for `provider`, `host` and `username`. When the encrypted file is
    /// the target, `table` (its decrypted contents) takes the token, to be saved by the
    /// caller; for the keyring, the caller hands the token to the keyring.
    pub fn store_credential(
        &self,
        table: &mut CredentialTable,
        provider: &str,
        host: &str,
        username: &str,
        token: &str,
    ) -> (r: Result<CredentialTarget, MultiGitError>)
        requires
            old(table).wf(),
        ensures
            routed(r, self.store_route()),
            final(table).wf(),
            final(table)@ == if self.store_route() == Ok::<CredentialTarget, Seq<char>>(
                CredentialTarget::EncryptedFile,
            ) {
                store_spec(old(table)@, provider@, host@, username@, token@)
            } else {
                old(table)@
            },
    {
        let r = self.store_target();
        match r {
            Ok(CredentialTarget::EncryptedFile) => {
                table.store(provider, host, username, token);
            },
            _ => {},
        }
        r
    }

    /// Looks a credential up. A token from the provider's environment variable
    /// (`env_token`) wins when `allow_env`; else the encrypted file's table is searched,
    /// or the caller is told to ask the keyring.
    pub fn retrieve_credential(
        &self,
        table: &CredentialTable,
        provider: &str,
        host: &str,
        username: &str,
        allow_env: bool,
        env_token: Option<String>,
    ) -> (r: Result<Retrieval, MultiGitError>)
        requires
            table.wf(),
        ensures
            if allow_env && env_token is Some {
                r matches Ok(Retrieval::Found(found)) && found.token == env_token->0
                    && found.migrated is None
            } else {
                match self.retrieve_route() {
                    Err(msg) => r is Err && other_error(r->Err_0, msg),
                    Ok(CredentialTarget::Keyring) => r matches Ok(Retrieval::FromKeyring),
                    Ok(CredentialTarget::EncryptedFile) => !(r matches Ok(Retrieval::FromKeyring))
                        && lookup_outcome(table@, provider@, host@, username@, found_of(r)),
                }
            },
    {
        if allow_env {
            match env_token {
                Some(t) => {
                    return Ok(Retrieval::Found(Retrieved { token: t, migrated: None }));
                },
                None => {},
            }
        }
        match self.retrieve_target() {
            Err(e) => Err(e),
            Ok(CredentialTarget::Keyring) => Ok(Retrieval::FromKeyring),
            Ok(CredentialTarget::EncryptedFile) => match table.retrieve(provider, host, username) {
                Ok(found) => Ok(Retrieval::Found(found)),
                Err(e) => Err(e),
            },
        }
    }

    /// Deletes a credential. When the encrypted file is the target, it is dropped from
    /// `table` under both of its keys, to be saved by the caller.
    pub fn delete_credential(
        &self,
        table: &mut CredentialTable,
        provider: &str,
        host: &str,
        username: &str,
    ) -> (r: Result<CredentialTarget, MultiGitError>)
        requires
            old(table).wf(),
        ensures
            routed(r, self.delete_route()),
            final(table).wf(),
            final(table)@ == if self.delete_route() == Ok::<CredentialTarget, Seq<char>>(
                CredentialTarget::EncryptedFile,
            ) {
                delete_spec(old(table)@, provider@, host@, username@)
            } else {
                old(table)@
            },
    {
        let r = self.delete_target();
        match r {
            Ok(CredentialTarget::EncryptedFile) => {
                table.delete(provider, host, username);
            },
            _ => {},
        }
        r
    }

    /// The same as `delete_credential`.
    pub fn remove_credential(
        &self,
        table: &mut CredentialTable,
        provider: &str,
        host: &str,
        username: &str,
    ) -> (r: Result<CredentialTarget, MultiGitError>)
        requires
            old(table).wf(),
        ensures
            routed(r, self.delete_route()),
            final(table).wf(),
            final(table)@ == if self.delete_route() == Ok::<CredentialTarget, Seq<char>>(
                CredentialTarget::EncryptedFile,
            ) {
                delete_spec(old(table)@, provider@, host@, username@)
            } else {
                old(table)@
            },
    {
        self.delete_credential(table, provider, host, username)
    }

    fn keyring_target(&self) -> (r: Result<CredentialTarget, MultiGitError>)
        ensures
            routed(r, self.keyring_route()),
    {
        if self.keyring {
            Ok(CredentialTarget::Keyring)
        } else {
            Err(MultiGitError::Other(owned("Keyring not initialized")))
        }
    }

    fn encrypted_target(&self) -> (r: Result<CredentialTarget, MultiGitError>)
        ensures
            routed(r, self.encrypted_route()),
    {
        if self.encrypted_store.is_some() {
            Ok(CredentialTarget::EncryptedFile)
        } else {
            Err(MultiGitError::Other(owned("Encrypted store not initialized")))
        }
    }
}

impl Default for AuthManager {
    fn default() -> (r: Self)
        ensures
            r.backend() == AuthBackend::Keyring,
            r.keyring_ready(),
            !r.encrypted_ready(),
            !r.audit_enabled(),
    {
        Self::new(AuthBackend::Keyring, false)
    }
}

/// What `str::to_uppercase` returns for a string (Unicode uppercase mapping).
pub uninterp spec fn uppercase(s: Seq<char>) -> Seq<char>;

/// Calls `str::to_uppercase`; the contract names its result.
#[verifier::external_body]
fn to_uppercase(s: &str) -> (r: String)
    ensures
        r@ == uppercase(s@),
{
    s.to_uppercase()
}

/// The environment variable that may hold a provider's token: `MULTIGIT_<PROVIDER>_TOKEN`.
pub fn token_env_var(provider: &str) -> (r: String)
    ensures
        r@ == "MULTIGIT_"@ + uppercase(provider@) + "_TOKEN"@,
{
    let up = to_uppercase(provider);
    concat3("MULTIGIT_", up.as_str(), "_TOKEN")
}

} // verus!
