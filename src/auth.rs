use vstd::prelude::*;

use crate::error::Error;

verus! {

/// Path of the endpoint that lists the API versions the server offers.
pub const API_LIST_PATH: &'static str = "api/";

/// Path of the login endpoint.
pub const LOGIN_PATH: &'static str = "api/v4/auth/login/";

/// The API version this client speaks.
pub const REQUIRED_API: &'static str = "v4";

/// Message of the error returned when the server does not offer that version.
pub const UNSUPPORTED_API_MESSAGE: &'static str = "Supported APIS (v4) are not available";

/// A value that contains one of the ways to authenticate to Assemblyline.
pub enum Authentication {
    /// Authenticate with a password
    Password {
        /// The name of the user account connecting
        username: String,
        /// The password of the user connecting
        password: String,
    },
    /// Authenticate with an api key
    ApiKey {
        /// The name of the user account connecting
        username: String,
        /// The API key of the user connecting
        key: String,
    },
    /// Authenticate with an oauth token
    OAuth {
        /// Oauth provider
        provider: String,
        /// Oauth token
        token: String,
    },
}

/// The text of each name and value of a list of JSON fields.
pub open spec fn fields_view(fields: Seq<(String, String)>) -> Seq<(Seq<char>, Seq<char>)> {
    fields.map_values(|f: (String, String)| (f.0@, f.1@))
}

impl Authentication {
    /// The fields of the login body, in order, and no others.
    pub open spec fn login_payload(&self) -> Seq<(Seq<char>, Seq<char>)> {
        match self {
            Authentication::Password { username, password } => seq![
                ("user"@, username@),
                ("password"@, password@),
            ],
            Authentication::ApiKey { username, key } => seq![("user"@, username@), ("apikey"@, key@)],
            Authentication::OAuth { provider, token } => seq![
                ("oauth_provider"@, provider@),
                ("oauth_token"@, token@),
            ],
        }
    }

    /// The name/value pairs of the JSON object sent to the login endpoint.
    pub fn login_fields(&self) -> (r: Vec<(String, String)>)
        ensures
            fields_view(r@) == self.login_payload(),
    {
        let r = match self {
            Authentication::Password { username, password } => vec![
                ("user".to_owned(), username.clone()),
                ("password".to_owned(), password.clone()),
            ],
            Authentication::ApiKey { username, key } => vec![
                ("user".to_owned(), username.clone()),
                ("apikey".to_owned(), key.clone()),
            ],
            Authentication::OAuth { provider, token } => vec![
                ("oauth_provider".to_owned(), provider.clone()),
                ("oauth_token".to_owned(), token.clone()),
            ],
        };
        assert(fields_view(r@) =~= self.login_payload());
        r
    }
}

/// Whether one listed entry is the version this client speaks.
pub open spec fn is_required_api(entry: Option<String>) -> bool {
    entry matches Some(v) && v@ == REQUIRED_API@
}

/// Whether the listed versions hold the one this client speaks.
pub open spec fn lists_required_api(versions: Seq<Option<String>>) -> bool {
    exists|i: int| 0 <= i < versions.len() && #[trigger] is_required_api(versions[i])
}

/// Check the server's list of API versions (each entry is the string, or
/// `None` for a listed value that is not a string).
pub fn check_api_versions(versions: &Vec<Option<String>>) -> (r: Result<(), Error>)
    ensures
        r is Ok <==> lists_required_api(versions@),
        r matches Err(e) ==> e.is_client_error(UNSUPPORTED_API_MESSAGE@, 400),
{
    let required: String = REQUIRED_API.to_owned();
    let mut i: usize = 0;
    while i < versions.len()
        invariant
            i <= versions@.len(),
            required@ == REQUIRED_API@,
            forall|j: int| 0 <= j < i ==> !#[trigger] is_required_api(versions@[j]),
        decreases versions@.len() - i,
    {
        if let Some(v) = &versions[i] {
            if *v == required {
                assert(is_required_api(versions@[i as int]));
                return Ok(());
            }
        }
        i = i + 1;
    }
    Err(Error::client_error(UNSUPPORTED_API_MESSAGE.to_owned(), 400))
}

} // verus!
