//! `torizon login`: store API-client credentials once they are verified.

use vstd::prelude::*;

use crate::config::{opt_str, Profile};
use crate::text::{concat3, trim, trim_str};

verus! {

pub struct LoginArgs {
    /// API client ID; asked for interactively when absent.
    pub client_id: Option<String>,
    /// API client secret; asked for interactively when absent.
    pub client_secret: Option<String>,
    /// Name to store these credentials under.
    pub profile: String,
    /// Overrides the API base URL for this profile.
    pub api_base: Option<String>,
    /// Do not mark this profile as the default.
    pub no_default: bool,
}

/// The profile to verify and store: the given id and secret, the API base
/// override of the arguments, the default token endpoint.
pub fn profile_for(args: &LoginArgs, client_id: String, client_secret: String) -> (r: Profile)
    ensures
        r.client_id@ == client_id@,
        r.client_secret@ == client_secret@,
        opt_str(r.api_base) == opt_str(args.api_base),
        r.token_url is None,
{
    Profile {
        client_id,
        client_secret,
        api_base: match &args.api_base {
            Some(s) => Some(s.clone()),
            None => None,
        },
        token_url: None,
    }
}

/// A value typed at a prompt, without surrounding whitespace.
pub fn prompt_answer(line: &str) -> (r: String)
    ensures
        r@ == trim(line@),
{
    trim_str(line)
}

/// The confirmation printed after a successful login.
pub fn saved_message(profile: &str, credentials_path: &str) -> (r: String)
    ensures
        r@ == "Credentials verified and saved to profile `"@ + profile@ + "` in "@ + credentials_path@,
{
    let mut r = concat3("Credentials verified and saved to profile `", profile, "` in ");
    r.append(credentials_path);
    r
}

} // verus!
