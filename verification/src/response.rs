//! Classification of proxy server responses: separating payloads from the
//! error entries the server mixes into them.

use vstd::prelude::*;
use vstd::string::StringExecFns;

use crate::numbers::{decimal_digits, push_decimal};

verus! {

/// The error payload the server returns in place of a result.
#[derive(Debug)]
pub struct ApiError {
    pub error: String,
}

/// The data returned when a token is generated for a proxy client.
#[derive(Debug)]
pub struct ClientTokenData {
    pub id: String,
    pub token: String,
    pub manifest_id: String,
    pub protocol: String,
    pub port: u32,
    pub database: Option<String>,
}

/// A client-token response as the server shapes it: either the data or an
/// error payload.
pub enum ClientTokenResponse {
    Failure(ApiError),
    Success(ClientTokenData),
}

/// Splits a client-token response into its data or its error payload,
/// passing either through unmodified.
pub fn classify_client_token(resp: ClientTokenResponse) -> (r: Result<ClientTokenData, ApiError>)
    ensures
        match r {
            Ok(d) => resp == ClientTokenResponse::Success(d),
            Err(e) => resp == ClientTokenResponse::Failure(e),
        },
{
    match resp {
        ClientTokenResponse::Success(d) => Ok(d),
        ClientTokenResponse::Failure(e) => Err(e),
    }
}

/// How a generated client token is printed.
#[derive(Clone, Copy, Debug, PartialEq, Eq, Structural)]
pub enum OutputFormat {
    Yaml,
    Url,
    Raw,
}

/// The empty sequence when no database is recorded, the database name
/// otherwise.
pub open spec fn database_or_empty(d: Option<String>) -> Seq<char> {
    match d {
        Some(s) => s@,
        None => Seq::empty(),
    }
}

/// Renders a generated client token for display: the raw token alone, a
/// YAML-style connection summary, or a connection URL.
pub fn format_client_token(data: &ClientTokenData, host: &str, format: OutputFormat) -> (r: String)
    ensures
        format == OutputFormat::Raw ==> r@ == data.token@,
        format == OutputFormat::Yaml ==> r@ == "type: "@ + data.protocol@ + "\nhost: "@ + host@
            + "\nport: "@ + decimal_digits(data.port as nat) + "\nusername: "@ + data.manifest_id@
            + "\npassword: "@ + data.token@,
        format == OutputFormat::Url ==> r@ == data.protocol@ + "://"@ + data.manifest_id@ + ":"@
            + data.token@ + "@"@ + host@ + ":"@ + decimal_digits(data.port as nat) + "/"@
            + database_or_empty(data.database),
{
    match format {
        OutputFormat::Raw => data.token.clone(),
        OutputFormat::Yaml => {
            let mut s: String = "type: ".to_owned();
            s.append(data.protocol.as_str());
            s.append("\nhost: ");
            s.append(host);
            s.append("\nport: ");
            push_decimal(&mut s, data.port);
            s.append("\nusername: ");
            s.append(data.manifest_id.as_str());
            s.append("\npassword: ");
            s.append(data.token.as_str());
            proof {
                assert(s@ =~= "type: "@ + data.protocol@ + "\nhost: "@ + host@ + "\nport: "@
                    + decimal_digits(data.port as nat) + "\nusername: "@ + data.manifest_id@
                    + "\npassword: "@ + data.token@);
            }
            s
        },
        OutputFormat::Url => {
            let mut s: String = data.protocol.clone();
            s.append("://");
            s.append(data.manifest_id.as_str());
            s.append(":");
            s.append(data.token.as_str());
            s.append("@");
            s.append(host);
            s.append(":");
            push_decimal(&mut s, data.port);
            s.append("/");
            match &data.database {
                Some(db) => {
                    s.append(db.as_str());
                },
                None => {},
            }
            proof {
                assert(s@ =~= data.protocol@ + "://"@ + data.manifest_id@ + ":"@ + data.token@
                    + "@"@ + host@ + ":"@ + decimal_digits(data.port as nat) + "/"@
                    + database_or_empty(data.database));
            }
            s
        },
    }
}

/// Accepts a key/value response body unless it carries an `error` entry, in
/// which case the first such entry's value is surfaced as the error
/// message.
pub fn error_checked(resp: Vec<(String, String)>) -> (r: Result<Vec<(String, String)>, String>)
    ensures
        match r {
            Ok(v) => v@ == resp@ && (forall|i: int|
                0 <= i < resp@.len() ==> (#[trigger] resp@[i].0)@ != "error"@),
            Err(m) => exists|i: int|
                {
                    &&& 0 <= i < resp@.len()
                    &&& (#[trigger] resp@[i].0)@ == "error"@
                    &&& (forall|j: int| 0 <= j < i ==> (#[trigger] resp@[j].0)@ != "error"@)
                    &&& m@ == resp@[i].1@
                },
        },
{
    let needle: String = "error".to_owned();
    let mut i: usize = 0;
    while i < resp.len()
        invariant
            0 <= i <= resp@.len(),
            needle@ == "error"@,
            forall|j: int| 0 <= j < i ==> (#[trigger] resp@[j].0)@ != "error"@,
        decreases resp@.len() - i,
    {
        if resp[i].0 == needle {
            let m = resp[i].1.clone();
            return Err(m);
        }
        i = i + 1;
    }
    Ok(resp)
}

} // verus!
