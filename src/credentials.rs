//! The integration's credentials, read from a file beside the executable.

use vstd::prelude::*;
use vstd::string::StringExecFns;

verus! {

/// The name of the credentials file, looked up in the executable's directory.
pub const CREDENTIALS_FILE: &'static str = "credential.json";

/// The database that tasks go to, and the integration secret that may write it.
#[derive(Clone, Debug)]
pub struct Credentials {
    pub database_id: String,
    pub secret: String,
}

/// What the user is told when no credentials file is found in `dir`.
pub open spec fn missing_credentials_text(dir: Seq<char>) -> Seq<char> {
    "'credential.json' not found in '"@ + dir
        + "'. Please create it in this directory with the following format:\n{\n    \"database_id\": \"your-database-id\",\n    \"secret\": \"your-integration-secret\"\n}"@
}

/// The message shown when no credentials file is found in `dir`: where it was
/// looked for and what it should hold.
pub fn missing_credentials_message(dir: &str) -> (r: String)
    ensures
        r@ == missing_credentials_text(dir@),
{
    let mut out = String::from_str("'credential.json' not found in '");
    out.append(dir);
    out.append(
        "'. Please create it in this directory with the following format:\n{\n    \"database_id\": \"your-database-id\",\n    \"secret\": \"your-integration-secret\"\n}",
    );
    out
}

} // verus!
