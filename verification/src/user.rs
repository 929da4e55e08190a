use vstd::prelude::*;
use crate::ids::{
    base64_url_no_pad, encode_url_safe_no_pad, lemma_encoding_url_safe, name_based_uuid, name_uuid, new_uuid, random_key_bytes,
    url_safe_char, uuid_text, uuid_to_text,
};

verus! {

/// What a user may do. A superuser may do everything.
#[derive(Debug, Clone, Copy, PartialEq, Eq)]
pub struct Permissions {
    pub perm_superuser: bool,
    pub perm_load_llm: bool,
    pub perm_unload_llm: bool,
    pub perm_download_llm: bool,
    /// Creating and prompting sessions.
    pub perm_session: bool,
    pub perm_request_download: bool,
    pub perm_request_load: bool,
    pub perm_request_unload: bool,
    pub perm_view_llms: bool,
    pub perm_bare_model: bool,
}

/// A caller of the API. `id` is the 128-bit value of the user's UUID; the
/// name is self-chosen and proves nothing.
#[derive(Debug, Clone)]
pub struct User {
    pub id: u128,
    pub name: String,
    /// In clear on a user just made; in the row the user table keeps, its
    /// hash (see `User::stored`).
    pub api_key: String,
    pub perm_superuser: bool,
    pub perm_load_llm: bool,
    pub perm_unload_llm: bool,
    pub perm_download_llm: bool,
    pub perm_session: bool,
    pub perm_request_download: bool,
    pub perm_request_load: bool,
    pub perm_request_unload: bool,
    pub perm_view_llms: bool,
    pub perm_bare_model: bool,
}

/// What the API tells a user about itself.
#[derive(Debug, Clone)]
pub struct UserInfo {
    pub id: u128,
    pub name: String,
    pub api_key: String,
    pub perm_superuser: bool,
    pub perm_load_llm: bool,
    pub perm_unload_llm: bool,
    pub perm_download_llm: bool,
    pub perm_session: bool,
    pub perm_request_download: bool,
    pub perm_request_load: bool,
    pub perm_request_unload: bool,
    pub perm_view_llms: bool,
    pub perm_bare_model: bool,
}

/// The permissions a user holds.
pub open spec fn permissions_of(u: User) -> Permissions {
    Permissions {
        perm_superuser: u.perm_superuser,
        perm_load_llm: u.perm_load_llm,
        perm_unload_llm: u.perm_unload_llm,
        perm_download_llm: u.perm_download_llm,
        perm_session: u.perm_session,
        perm_request_download: u.perm_request_download,
        perm_request_load: u.perm_request_load,
        perm_request_unload: u.perm_request_unload,
        perm_view_llms: u.perm_view_llms,
        perm_bare_model: u.perm_bare_model,
    }
}

/// No permission at all.
pub open spec fn no_permissions() -> Permissions {
    Permissions {
        perm_superuser: false,
        perm_load_llm: false,
        perm_unload_llm: false,
        perm_download_llm: false,
        perm_session: false,
        perm_request_download: false,
        perm_request_load: false,
        perm_request_unload: false,
        perm_view_llms: false,
        perm_bare_model: false,
    }
}

impl Permissions {
    /// The permissions a user holds.
    pub fn from(user: &User) -> (p: Permissions)
        ensures
            p == permissions_of(*user),
    {
        Permissions {
            perm_superuser: user.perm_superuser,
            perm_load_llm: user.perm_load_llm,
            perm_unload_llm: user.perm_unload_llm,
            perm_download_llm: user.perm_download_llm,
            perm_session: user.perm_session,
            perm_request_download: user.perm_request_download,
            perm_request_load: user.perm_request_load,
            perm_request_unload: user.perm_request_unload,
            perm_view_llms: user.perm_view_llms,
            perm_bare_model: user.perm_bare_model,
        }
    }
}

impl User {
    /// Gives the user exactly the given permissions.
    pub fn set_permissions(&mut self, p: Permissions)
        ensures
            permissions_of(*final(self)) == p,
            final(self).id == old(self).id,
            final(self).name == old(self).name,
            final(self).api_key == old(self).api_key,
    {
        self.perm_superuser = p.perm_superuser;
        self.perm_load_llm = p.perm_load_llm;
        self.perm_unload_llm = p.perm_unload_llm;
        self.perm_download_llm = p.perm_download_llm;
        self.perm_session = p.perm_session;
        self.perm_request_download = p.perm_request_download;
        self.perm_request_load = p.perm_request_load;
        self.perm_request_unload = p.perm_request_unload;
        self.perm_view_llms = p.perm_view_llms;
        self.perm_bare_model = p.perm_bare_model;
    }
}

impl UserInfo {
    /// Everything the API shows of a user: all of its fields.
    pub fn from(user: &User) -> (info: UserInfo)
        ensures
            info.id == user.id,
            info.name@ == user.name@,
            info.api_key@ == user.api_key@,
            info.perm_superuser == user.perm_superuser,
            info.perm_load_llm == user.perm_load_llm,
            info.perm_unload_llm == user.perm_unload_llm,
            info.perm_download_llm == user.perm_download_llm,
            info.perm_session == user.perm_session,
            info.perm_request_download == user.perm_request_download,
            info.perm_request_load == user.perm_request_load,
            info.perm_request_unload == user.perm_request_unload,
            info.perm_view_llms == user.perm_view_llms,
            info.perm_bare_model == user.perm_bare_model,
    {
        UserInfo {
            id: user.id,
            name: user.name.clone(),
            api_key: user.api_key.clone(),
            perm_superuser: user.perm_superuser,
            perm_load_llm: user.perm_load_llm,
            perm_unload_llm: user.perm_unload_llm,
            perm_download_llm: user.perm_download_llm,
            perm_session: user.perm_session,
            perm_request_download: user.perm_request_download,
            perm_request_load: user.perm_request_load,
            perm_request_unload: user.perm_request_unload,
            perm_view_llms: user.perm_view_llms,
            perm_bare_model: user.perm_bare_model,
        }
    }
}

/// A key is the URL-safe, unpadded base64 text of 32 bytes: 43 characters
/// of the URL-safe alphabet.
pub open spec fn is_api_key_text(key: Seq<char>) -> bool {
    &&& exists|bytes: Seq<u8>| bytes.len() == 32 && key == #[trigger] base64_url_no_pad(bytes)
    &&& key.len() == 43
    &&& forall|i: int| 0 <= i < key.len() ==> url_safe_char(#[trigger] key[i])
}

/// A fresh API key: 32 random bytes in URL-safe base64 without padding.
pub fn generate_api_key() -> (key: String)
    ensures
        is_api_key_text(key@),
{
    let bytes = random_key_bytes();
    let key = encode_url_safe_no_pad(bytes.as_slice());
    proof {
        lemma_encoding_url_safe(bytes@);
    }
    assert(bytes@.len() == 32 && key@ == base64_url_no_pad(bytes@));
    key
}

/// What the user table keeps in place of an API key: the hyphenated text of
/// the name-based (SHA-1) UUID of the key. The clear key is handed to the
/// user once, when it is made, and never stored.
pub open spec fn api_key_hash(key: Seq<char>) -> Seq<char> {
    uuid_text(name_based_uuid(key))
}

/// The text the user table keeps for an API key.
pub fn hash_api_key(key: &str) -> (h: String)
    ensures
        h@ == api_key_hash(key@),
{
    uuid_to_text(name_uuid(key))
}

/// Whether `row` is what the user table keeps of `user`: the same id, name
/// and permissions, and the hash of its API key in place of the key.
pub open spec fn is_stored_form(row: User, user: User) -> bool {
    &&& row.id == user.id
    &&& row.name@ == user.name@
    &&& row.api_key@ == api_key_hash(user.api_key@)
    &&& permissions_of(row) == permissions_of(user)
}

impl User {
    /// A new user under the given name, with a fresh random id and API key
    /// and no permissions.
    pub fn new(name: String) -> (u: User)
        ensures
            u.name == name,
            is_api_key_text(u.api_key@),
            permissions_of(u) == no_permissions(),
            (u.id >> 76u128) & 0xfu128 == 4u128,
    {
        User {
            id: new_uuid(),
            name: name,
            api_key: generate_api_key(),
            perm_superuser: false,
            perm_load_llm: false,
            perm_unload_llm: false,
            perm_download_llm: false,
            perm_session: false,
            perm_request_download: false,
            perm_request_load: false,
            perm_request_unload: false,
            perm_view_llms: false,
            perm_bare_model: false,
        }
    }
}

impl User {
    /// The row the user table keeps of this user: its API key hashed, all
    /// else as it is.
    pub fn stored(&self) -> (row: User)
        ensures
            is_stored_form(row, *self),
    {
        User {
            id: self.id,
            name: self.name.clone(),
            api_key: hash_api_key(self.api_key.as_str()),
            perm_superuser: self.perm_superuser,
            perm_load_llm: self.perm_load_llm,
            perm_unload_llm: self.perm_unload_llm,
            perm_download_llm: self.perm_download_llm,
            perm_session: self.perm_session,
            perm_request_download: self.perm_request_download,
            perm_request_load: self.perm_request_load,
            perm_request_unload: self.perm_request_unload,
            perm_view_llms: self.perm_view_llms,
            perm_bare_model: self.perm_bare_model,
        }
    }
}

/// The user that the desktop app acts as: the nil UUID, named `local`,
/// with an empty API key and superuser rights only.
pub fn get_local_user() -> (u: User)
    ensures
        u.id == 0,
        u.name@ == "local"@,
        u.api_key@ == Seq::<char>::empty(),
        permissions_of(u) == (Permissions { perm_superuser: true, ..no_permissions() }),
{
    User {
        id: 0,
        name: String::from_str("local"),
        api_key: String::new(),
        perm_superuser: true,
        perm_load_llm: false,
        perm_unload_llm: false,
        perm_download_llm: false,
        perm_session: false,
        perm_request_download: false,
        perm_request_load: false,
        perm_request_unload: false,
        perm_view_llms: false,
        perm_bare_model: false,
    }
}

} // verus!
