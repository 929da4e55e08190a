use vstd::prelude::*;
use crate::ids::{uuid_text, uuid_to_text};
use crate::text::str_eq;
use crate::user::{get_local_user, is_api_key_text, no_permissions, permissions_of, Permissions, User, UserInfo};

verus! {

/// The subcommands of the command line.
#[derive(Debug, Clone, Copy, PartialEq, Eq)]
pub enum CliSubcommand {
    List,
    Activate,
    Deactivate,
    Path,
    Download,
    Status,
    NewCliUser,
    Unrecognized,
}

/// The subcommand a name stands for.
pub open spec fn subcommand_named(name: Seq<char>) -> CliSubcommand {
    if name == "list"@ {
        CliSubcommand::List
    } else if name == "activate"@ {
        CliSubcommand::Activate
    } else if name == "deactivate"@ {
        CliSubcommand::Deactivate
    } else if name == "path"@ {
        CliSubcommand::Path
    } else if name == "download"@ {
        CliSubcommand::Download
    } else if name == "status"@ {
        CliSubcommand::Status
    } else if name == "new_cli_user"@ {
        CliSubcommand::NewCliUser
    } else {
        CliSubcommand::Unrecognized
    }
}

/// Reads a subcommand's name.
pub fn cli_subcommand(name: &str) -> (c: CliSubcommand)
    ensures
        c == subcommand_named(name@),
{
    if str_eq(name, "list") {
        CliSubcommand::List
    } else if str_eq(name, "activate") {
        CliSubcommand::Activate
    } else if str_eq(name, "deactivate") {
        CliSubcommand::Deactivate
    } else if str_eq(name, "path") {
        CliSubcommand::Path
    } else if str_eq(name, "download") {
        CliSubcommand::Download
    } else if str_eq(name, "status") {
        CliSubcommand::Status
    } else if str_eq(name, "new_cli_user") {
        CliSubcommand::NewCliUser
    } else {
        CliSubcommand::Unrecognized
    }
}

/// Each of the seven subcommand names reads as its own subcommand, and a
/// name is unrecognised exactly when it is none of them.
pub proof fn subcommand_names_are_read(other: Seq<char>)
    ensures
        subcommand_named("list"@) == CliSubcommand::List,
        subcommand_named("activate"@) == CliSubcommand::Activate,
        subcommand_named("deactivate"@) == CliSubcommand::Deactivate,
        subcommand_named("path"@) == CliSubcommand::Path,
        subcommand_named("download"@) == CliSubcommand::Download,
        subcommand_named("status"@) == CliSubcommand::Status,
        subcommand_named("new_cli_user"@) == CliSubcommand::NewCliUser,
        (other != "list"@ && other != "activate"@ && other != "deactivate"@ && other != "path"@ && other != "download"@ && other != "status"@ && other != "new_cli_user"@) <==> subcommand_named(other) == CliSubcommand::Unrecognized,
{
    reveal_strlit("list");
    reveal_strlit("activate");
    reveal_strlit("deactivate");
    reveal_strlit("path");
    reveal_strlit("download");
    reveal_strlit("status");
    reveal_strlit("new_cli_user");
    assert("list"@.len() != "activate"@.len());
    assert("list"@.len() != "deactivate"@.len());
    assert("list"@[0] != "path"@[0]);
    assert("list"@.len() != "download"@.len());
    assert("list"@.len() != "status"@.len());
    assert("list"@.len() != "new_cli_user"@.len());
    assert("activate"@.len() != "deactivate"@.len());
    assert("activate"@.len() != "path"@.len());
    assert("activate"@[0] != "download"@[0]);
    assert("activate"@.len() != "status"@.len());
    assert("activate"@.len() != "new_cli_user"@.len());
    assert("deactivate"@.len() != "path"@.len());
    assert("deactivate"@.len() != "download"@.len());
    assert("deactivate"@.len() != "status"@.len());
    assert("deactivate"@.len() != "new_cli_user"@.len());
    assert("path"@.len() != "download"@.len());
    assert("path"@.len() != "status"@.len());
    assert("path"@.len() != "new_cli_user"@.len());
    assert("download"@.len() != "status"@.len());
    assert("download"@.len() != "new_cli_user"@.len());
    assert("status"@.len() != "new_cli_user"@.len());
}

/// What `list` lists.
#[derive(Debug, Clone, Copy, PartialEq, Eq)]
pub enum ListTarget {
    Running,
    Available,
    Downloadable,
    /// No known kind was named.
    Unnamed,
}

/// The kind of LLM `list` is asked for.
pub fn list_target(name: &str) -> (t: ListTarget)
    ensures
        t == (if name@ == "running"@ {
            ListTarget::Running
        } else if name@ == "available"@ {
            ListTarget::Available
        } else if name@ == "downloadable"@ {
            ListTarget::Downloadable
        } else {
            ListTarget::Unnamed
        }),
{
    if str_eq(name, "running") {
        ListTarget::Running
    } else if str_eq(name, "available") {
        ListTarget::Available
    } else if str_eq(name, "downloadable") {
        ListTarget::Downloadable
    } else {
        ListTarget::Unnamed
    }
}

/// A superuser for the command line: named `cli_user`, under a fresh id and
/// key, with superuser rights only.
pub fn new_cli_user() -> (u: User)
    ensures
        u.name@ == "cli_user"@,
        is_api_key_text(u.api_key@),
        permissions_of(u) == (Permissions { perm_superuser: true, ..no_permissions() }),
        (u.id >> 76u128) & 0xfu128 == 4u128,
{
    let mut u = User::new("cli_user".to_owned());
    u.perm_superuser = true;
    u
}

/// The local superuser, given the API key it is to use.
pub fn local_superuser(api_key: String) -> (u: User)
    ensures
        u.id == 0,
        u.name@ == "local"@,
        u.api_key == api_key,
        permissions_of(u) == (Permissions { perm_superuser: true, ..no_permissions() }),
{
    let mut u = get_local_user();
    u.api_key = api_key;
    u
}

/// What the keychain gave for the superuser's key.
pub enum KeychainOutcome {
    /// A key was stored.
    Stored(String),
    /// None was stored; a fresh one was made, saved with the local
    /// superuser and stored.
    Created(String),
    /// The keychain, or saving the superuser, failed.
    Failed,
}

/// The user and key the command line calls the API with: those of the
/// environment when its user id parses, else the local superuser's (the nil
/// UUID) with the key the keychain gave; an error when there is none.
pub fn cli_credentials(env_user: Result<u128, String>, env_key: String, keychain: KeychainOutcome) -> (r:
    Result<(u128, String), String>)
    ensures
        env_user is Ok ==> r == Ok::<(u128, String), String>((env_user->Ok_0, env_key)),
        env_user is Err ==> match keychain {
            KeychainOutcome::Stored(k) => r == Ok::<(u128, String), String>((0u128, k)),
            KeychainOutcome::Created(k) => r == Ok::<(u128, String), String>((0u128, k)),
            KeychainOutcome::Failed => r matches Err(m) && m@ == "Unable to detect cli user/password"@,
        },
{
    match env_user {
        Ok(u) => Ok((u, env_key)),
        Err(_) => match keychain {
            KeychainOutcome::Stored(k) => Ok((0, k)),
            KeychainOutcome::Created(k) => Ok((0, k)),
            KeychainOutcome::Failed => Err("Unable to detect cli user/password".to_owned()),
        },
    }
}

/// The two lines that give a new command-line user's credentials as
/// environment settings.
pub fn cli_env_lines(info: &UserInfo) -> (r: (String, String))
    ensures
        r.0@ == "PANTRY_CLI_USER="@ + uuid_text(info.id),
        r.1@ == "PANTRY_CLI_KEY="@ + info.api_key@,
{
    let user_line = "PANTRY_CLI_USER=".to_owned().concat(uuid_to_text(info.id).as_str());
    let key_line = "PANTRY_CLI_KEY=".to_owned().concat(info.api_key.as_str());
    (user_line, key_line)
}

} // verus!
