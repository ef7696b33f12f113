//! The manifest data model — database connection resources the proxy
//! manages — and the pure rules of the creation wizard: name validation,
//! display-key construction for the selection prompt, and validation of the
//! entries the server lists.

use vstd::prelude::*;
use vstd::string::StrSliceExecFns;
use vstd::string::StringExecFns;

verus! {

/// The kind of database a manifest describes.
#[derive(Clone, Copy, Debug, PartialEq, Eq, Structural)]
pub enum RootType {
    Postgresql,
    Mysql,
}

/// Connection details for a PostgreSQL database.
pub struct PostgresqlConfig {
    pub type_field: RootType,
    pub hostname: String,
    pub database: String,
    pub port: Option<u16>,
    pub ssl: Option<bool>,
    pub schema: Option<String>,
}

/// Connection details for a MySQL database.
pub struct MysqlConfig {
    pub type_field: RootType,
    pub hostname: String,
    pub database: String,
    pub port: Option<u16>,
    pub ssl: Option<bool>,
}

/// The configuration variants a manifest can carry.
pub enum Configuration {
    Postgresql(PostgresqlConfig),
    Mysql(MysqlConfig),
}

/// Credentials generated through Vault.
pub struct VaultCredentials {
    pub database: String,
    pub role: String,
}

/// Static credentials for a PostgreSQL database.
pub struct PostgresqlCredentials {
    pub username: String,
    pub password: String,
}

/// Static credentials for a MySQL database.
pub struct MysqlCredentials {
    pub username: String,
    pub password: String,
}

/// The credential variants a manifest can carry.
pub enum Credentials {
    Postgresql(PostgresqlCredentials),
    Mysql(MysqlCredentials),
    Vault(VaultCredentials),
}

/// A new connection resource as submitted to the server.
pub struct NewManifest {
    pub name: String,
    pub root_type: RootType,
    pub configuration: Configuration,
    pub credentials: Credentials,
}

/// Whether a character may appear in a manifest or proxy-schema name: an
/// ASCII alphanumeric, underscore or dash.
pub open spec fn name_char(c: char) -> bool {
    ||| ('0' as int) <= c as int <= ('9' as int)
    ||| ('A' as int) <= c as int <= ('Z' as int)
    ||| ('a' as int) <= c as int <= ('z' as int)
    ||| c == '_'
    ||| c == '-'
}

/// A name is accepted exactly when it is non-empty and every character is
/// acceptable.
pub open spec fn valid_name_chars(s: Seq<char>) -> bool {
    s.len() > 0 && (forall|i: int| 0 <= i < s.len() ==> name_char(#[trigger] s[i]))
}

fn is_name_char(c: char) -> (b: bool)
    ensures
        b == name_char(c),
{
    let u = c as u32;
    (48 <= u && u <= 57) || (65 <= u && u <= 90) || (97 <= u && u <= 122) || c == '_' || c == '-'
}

/// Decides whether a manifest or proxy-schema name is acceptable:
/// non-empty, with only ASCII alphanumerics, underscores and dashes.
pub fn valid_name(s: &str) -> (b: bool)
    ensures
        b == valid_name_chars(s@),
{
    let len = s.unicode_len();
    if len == 0 {
        return false;
    }
    let mut i: usize = 0;
    while i < len
        invariant
            0 <= i <= s@.len(),
            len == s@.len(),
            forall|j: int| 0 <= j < i ==> name_char(#[trigger] s@[j]),
        decreases len - i,
    {
        let c = s.get_char(i);
        if !is_name_char(c) {
            return false;
        }
        i = i + 1;
    }
    true
}

/// Maps the wizard's database-type choice to the root type it stands for;
/// any other choice is rejected.
pub fn root_type_from_choice(choice: &str) -> (r: Option<RootType>)
    ensures
        choice@ == "PostgreSQL"@ ==> r == Some(RootType::Postgresql),
        choice@ == "MySQL"@ ==> r == Some(RootType::Mysql),
        choice@ != "PostgreSQL"@ && choice@ != "MySQL"@ ==> r is None,
{
    let c = choice.to_owned();
    let pg: String = "PostgreSQL".to_owned();
    let my: String = "MySQL".to_owned();
    proof {
        reveal_strlit("PostgreSQL");
        reveal_strlit("MySQL");
        assert("PostgreSQL"@.len() != "MySQL"@.len());
    }
    if c == pg {
        Some(RootType::Postgresql)
    } else if c == my {
        Some(RootType::Mysql)
    } else {
        None
    }
}

/// The schema answer as recorded: an empty answer means no schema.
pub open spec fn normalized_schema(s: Option<String>) -> Option<String> {
    match s {
        Some(x) => if x@.len() > 0 {
            Some(x)
        } else {
            None
        },
        None => None,
    }
}

impl PostgresqlConfig {
    /// Assembles the configuration the creation wizard collects for a
    /// PostgreSQL database; an empty schema answer is recorded as no
    /// schema.
    pub fn assemble(
        hostname: String,
        database: String,
        port: u16,
        ssl: bool,
        schema: Option<String>,
    ) -> (c: PostgresqlConfig)
        ensures
            c.type_field == RootType::Postgresql,
            c.hostname == hostname,
            c.database == database,
            c.port == Some(port),
            c.ssl == Some(ssl),
            c.schema == normalized_schema(schema),
    {
        let normalized: Option<String> = match schema {
            Some(x) => if x.as_str().is_empty() {
                None
            } else {
                Some(x)
            },
            None => None,
        };
        PostgresqlConfig {
            type_field: RootType::Postgresql,
            hostname,
            database,
            port: Some(port),
            ssl: Some(ssl),
            schema: normalized,
        }
    }
}

impl MysqlConfig {
    /// Assembles the configuration the creation wizard collects for a MySQL
    /// database.
    pub fn assemble(hostname: String, database: String, port: u16, ssl: bool) -> (c: MysqlConfig)
        ensures
            c.type_field == RootType::Mysql,
            c.hostname == hostname,
            c.database == database,
            c.port == Some(port),
            c.ssl == Some(ssl),
    {
        MysqlConfig {
            type_field: RootType::Mysql,
            hostname,
            database,
            port: Some(port),
            ssl: Some(ssl),
        }
    }
}

/// Which credentials the creation wizard must collect.
#[derive(Clone, Copy, Debug, PartialEq, Eq, Structural)]
pub enum CredentialKind {
    Vault,
    Postgresql,
    Mysql,
}

/// The wizard's branching rule for credentials: Vault when the user
/// generates credentials through Vault, otherwise the kind matching the
/// database type.
pub fn credential_kind(is_vault: bool, root: RootType) -> (k: CredentialKind)
    ensures
        is_vault ==> k == CredentialKind::Vault,
        !is_vault && root == RootType::Postgresql ==> k == CredentialKind::Postgresql,
        !is_vault && root == RootType::Mysql ==> k == CredentialKind::Mysql,
{
    if is_vault {
        CredentialKind::Vault
    } else {
        match root {
            RootType::Postgresql => CredentialKind::Postgresql,
            RootType::Mysql => CredentialKind::Mysql,
        }
    }
}

/// The display key offered for a manifest entry: its name with the
/// identifier in parentheses.
pub open spec fn display_key_of(id: Seq<char>, name: Seq<char>) -> Seq<char> {
    name + " ("@ + id + ")"@
}

/// Builds the display key for one manifest entry.
pub fn display_key(id: &str, name: &str) -> (r: String)
    ensures
        r@ == display_key_of(id@, name@),
{
    let mut s: String = name.to_owned();
    s.append(" (");
    s.append(id);
    s.append(")");
    s
}

/// Builds the display keys for a list of (id, name) manifest entries, in
/// order.
pub fn manifest_display_keys(entries: &Vec<(String, String)>) -> (r: Vec<String>)
    ensures
        r@.len() == entries@.len(),
        forall|i: int|
            0 <= i < entries@.len() ==> (#[trigger] r@[i])@ == display_key_of(
                entries@[i].0@,
                entries@[i].1@,
            ),
{
    let mut keys: Vec<String> = Vec::new();
    let mut i: usize = 0;
    while i < entries.len()
        invariant
            0 <= i <= entries@.len(),
            keys@.len() == i,
            forall|j: int|
                0 <= j < i ==> (#[trigger] keys@[j])@ == display_key_of(
                    entries@[j].0@,
                    entries@[j].1@,
                ),
        decreases entries@.len() - i,
    {
        let key = display_key(entries[i].0.as_str(), entries[i].1.as_str());
        keys.push(key);
        i = i + 1;
    }
    keys
}

/// The identifier of the first (id, name) entry whose display key matches
/// the chosen one, if any entry matches.
pub fn resolve_manifest_key(entries: &Vec<(String, String)>, chosen: &String) -> (r: Option<
    String,
>)
    ensures
        match r {
            Some(id) => exists|i: int|
                {
                    &&& 0 <= i < entries@.len()
                    &&& display_key_of((#[trigger] entries@[i]).0@, entries@[i].1@) == chosen@
                    &&& (forall|j: int|
                        0 <= j < i ==> display_key_of(
                            (#[trigger] entries@[j]).0@,
                            entries@[j].1@,
                        ) != chosen@)
                    &&& id@ == entries@[i].0@
                },
            None => forall|i: int|
                0 <= i < entries@.len() ==> display_key_of(
                    (#[trigger] entries@[i]).0@,
                    entries@[i].1@,
                ) != chosen@,
        },
{
    let mut i: usize = 0;
    while i < entries.len()
        invariant
            0 <= i <= entries@.len(),
            forall|j: int|
                0 <= j < i ==> display_key_of((#[trigger] entries@[j]).0@, entries@[j].1@)
                    != chosen@,
        decreases entries@.len() - i,
    {
        let key = display_key(entries[i].0.as_str(), entries[i].1.as_str());
        if key == *chosen {
            let id = entries[i].0.clone();
            return Some(id);
        }
        i = i + 1;
    }
    None
}

/// Why a listed manifest entry is unusable.
#[derive(Clone, Copy, Debug, PartialEq, Eq, Structural)]
pub enum ManifestListError {
    /// The entry carries no identifier.
    MissingId,
    /// The entry carries no name.
    MissingName,
}

/// Checks the manifest entries the server listed, of which only the
/// identifier and name matter. Succeeds with the (id, name) pairs exactly
/// when every entry carries both; otherwise reports what the first
/// incomplete entry lacks, the identifier being checked first.
pub fn validate_manifest_entries(entries: Vec<(Option<String>, Option<String>)>) -> (r: Result<
    Vec<(String, String)>,
    ManifestListError,
>)
    ensures
        match r {
            Ok(v) => {
                &&& v@.len() == entries@.len()
                &&& (forall|i: int|
                    0 <= i < entries@.len() ==> (#[trigger] entries@[i]).0 is Some
                        && entries@[i].1 is Some)
                &&& (forall|i: int|
                    0 <= i < entries@.len() ==> (#[trigger] v@[i]).0 == entries@[i].0.unwrap()
                        && v@[i].1 == entries@[i].1.unwrap())
            },
            Err(e) => exists|i: int|
                {
                    &&& 0 <= i < entries@.len()
                    &&& ((#[trigger] entries@[i]).0 is None || entries@[i].1 is None)
                    &&& (forall|j: int|
                        0 <= j < i ==> (#[trigger] entries@[j]).0 is Some && entries@[j].1
                            is Some)
                    &&& e == (if entries@[i].0 is None {
                        ManifestListError::MissingId
                    } else {
                        ManifestListError::MissingName
                    })
                },
        },
{
    let mut out: Vec<(String, String)> = Vec::new();
    let mut i: usize = 0;
    while i < entries.len()
        invariant
            0 <= i <= entries@.len(),
            out@.len() == i,
            forall|j: int|
                0 <= j < i ==> (#[trigger] entries@[j]).0 is Some && entries@[j].1 is Some,
            forall|j: int|
                0 <= j < i ==> (#[trigger] out@[j]).0 == entries@[j].0.unwrap() && out@[j].1
                    == entries@[j].1.unwrap(),
        decreases entries@.len() - i,
    {
        let id: String = match &entries[i].0 {
            Some(s) => s.clone(),
            None => {
                return Err(ManifestListError::MissingId);
            },
        };
        let name: String = match &entries[i].1 {
            Some(s) => s.clone(),
            None => {
                return Err(ManifestListError::MissingName);
            },
        };
        out.push((id, name));
        i = i + 1;
    }
    Ok(out)
}

} // verus!
