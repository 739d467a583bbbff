//! Local credentials: which of what the credential store of the provider's own
//! program holds can be used.

use vstd::prelude::*;

use crate::error::AuthError;

verus! {

/// The program whose login is used, as messages name it.
#[derive(Debug, PartialEq, Eq)]
pub struct Product {
    /// What it is called.
    pub name: String,
    /// The command that starts it.
    pub command: String,
}

/// The OAuth section of the credentials file. Carries a secret, so it has no
/// `Debug`.
pub struct OauthSection {
    /// The access token.
    pub access_token: Option<String>,
    /// Access-token expiry, unix epoch milliseconds.
    pub expires_at: Option<i64>,
}

/// What came of reading the credentials file.
pub enum StoredFile {
    /// There is no file, on a system that keeps credentials elsewhere.
    Elsewhere,
    /// There is no file.
    Missing,
    /// The file could not be read.
    Unreadable(String),
    /// The file is not the expected JSON.
    Malformed(String),
    /// The file, and its OAuth section if it has one.
    Read(Option<OauthSection>),
}

/// Usable credentials. Carries a secret, so it has no `Debug`.
pub struct ClaudeCredentials {
    /// OAuth access token.
    pub access_token: String,
    /// Access-token expiry, unix epoch milliseconds.
    pub expires_at_ms: i64,
}

impl ClaudeCredentials {
    /// Whether the access token is past its recorded expiry at `now_ms`, unix
    /// epoch milliseconds.
    pub fn is_expired(&self, now_ms: i64) -> (r: bool)
        ensures
            r == (now_ms >= self.expires_at_ms),
    {
        now_ms >= self.expires_at_ms
    }
}

/// Whether an error is the one a stored file yields.
pub open spec fn refused(
    product: Product,
    path: Seq<char>,
    file: StoredFile,
    error: AuthError,
) -> bool {
    match file {
        StoredFile::Elsewhere => error matches AuthError::Store(m) && m@ == product.name@
            + " stores credentials in the macOS Keychain, which is not supported yet"@,
        StoredFile::Missing => error matches AuthError::NotLoggedIn(m) && m@ == "no "@
            + product.name@ + " credentials at "@ + path + "; run `"@ + product.command@
            + "` and log in"@,
        StoredFile::Unreadable(e) => error matches AuthError::Store(m) && m@ == "reading "@ + path
            + ": "@ + e@,
        StoredFile::Malformed(e) => error matches AuthError::Store(m) && m@ == "parsing "@ + path
            + ": "@ + e@,
        StoredFile::Read(None) => error matches AuthError::NotLoggedIn(m) && m@
            == "credentials file has no claudeAiOauth section"@,
        StoredFile::Read(Some(_)) => error matches AuthError::NotLoggedIn(m) && m@
            == "credentials file has no access token"@,
    }
}

/// The token a stored file holds, if it holds one that can be used.
pub open spec fn token_of(file: StoredFile) -> Option<Seq<char>> {
    match file {
        StoredFile::Read(Some(oauth)) => match oauth.access_token {
            Some(t) => if t@.len() > 0 {
                Some(t@)
            } else {
                None
            },
            None => None,
        },
        _ => None,
    }
}

/// The credentials in the file at `path`, given what came of reading it.
pub fn load(product: &Product, path: &str, file: StoredFile) -> (r: Result<
    ClaudeCredentials,
    AuthError,
>)
    ensures
        match r {
            Ok(c) => {
                &&& token_of(file) == Some(c.access_token@)
                &&& file matches StoredFile::Read(Some(oauth)) && c.expires_at_ms == (
                match oauth.expires_at {
                    Some(at) => at as int,
                    None => 0,
                })
            },
            Err(e) => token_of(file) is None && refused(*product, path@, file, e),
        },
{
    match file {
        StoredFile::Elsewhere => Err(
            AuthError::Store(
                product.name.clone().concat(
                    " stores credentials in the macOS Keychain, which is not supported yet",
                ),
            ),
        ),
        StoredFile::Missing => Err(
            AuthError::NotLoggedIn(
                "no ".to_owned().concat(product.name.as_str()).concat(" credentials at ").concat(
                    path,
                ).concat("; run `").concat(product.command.as_str()).concat("` and log in"),
            ),
        ),
        StoredFile::Unreadable(e) => Err(
            AuthError::Store(
                "reading ".to_owned().concat(path).concat(": ").concat(e.as_str()),
            ),
        ),
        StoredFile::Malformed(e) => Err(
            AuthError::Store(
                "parsing ".to_owned().concat(path).concat(": ").concat(e.as_str()),
            ),
        ),
        StoredFile::Read(None) => Err(
            AuthError::NotLoggedIn("credentials file has no claudeAiOauth section".to_owned()),
        ),
        StoredFile::Read(Some(oauth)) => match oauth.access_token {
            Some(token) => if token.as_str().is_empty() {
                Err(AuthError::NotLoggedIn("credentials file has no access token".to_owned()))
            } else {
                Ok(
                    ClaudeCredentials {
                        access_token: token,
                        // Missing expiry: treat as already expired so the user
                        // is told to refresh rather than us sending a stale
                        // token.
                        expires_at_ms: match oauth.expires_at {
                            Some(at) => at,
                            None => 0,
                        },
                    },
                )
            },
            None => Err(AuthError::NotLoggedIn("credentials file has no access token".to_owned())),
        },
    }
}

/// The token to probe with at `now_ms`, unless it has expired.
pub fn credential_for(product: &Product, credentials: ClaudeCredentials, now_ms: i64) -> (r: Result<
    String,
    AuthError,
>)
    ensures
        match r {
            Ok(token) => now_ms < credentials.expires_at_ms && token == credentials.access_token,
            Err(e) => {
                &&& now_ms >= credentials.expires_at_ms
                &&& e matches AuthError::Expired(m) && m@ == product.name@
                    + " access token is past its expiry; run `"@ + product.command@
                    + "` to refresh"@
            },
        },
{
    if credentials.is_expired(now_ms) {
        return Err(
            AuthError::Expired(
                product.name.clone().concat(" access token is past its expiry; run `").concat(
                    product.command.as_str(),
                ).concat("` to refresh"),
            ),
        );
    }
    Ok(credentials.access_token)
}

/// There is a token exactly when the file was read, has the section, and the
/// section a token that is not empty; and it is that token, unaltered.
pub proof fn a_token_is_the_one_in_the_file(file: StoredFile, token: Seq<char>)
    ensures
        token_of(file) == Some(token) <==> token.len() > 0 && (
        file matches StoredFile::Read(Some(oauth)) && oauth.access_token matches Some(t) && t@
            == token),
{
}

/// No refusal holds any token: what is said of a file is the same whatever token
/// it holds.
pub proof fn a_refusal_does_not_depend_on_the_token(
    product: Product,
    path: Seq<char>,
    a: OauthSection,
    b: OauthSection,
    error: AuthError,
)
    ensures
        refused(product, path, StoredFile::Read(Some(a)), error) == refused(
            product,
            path,
            StoredFile::Read(Some(b)),
            error,
        ),
{
}

/// A refusal says what is wrong with the file: where there is none, or none with
/// a login in it, that one has to log in; where it cannot be read, why; and where
/// it lies elsewhere, that it does.
pub proof fn a_refusal_says_what_is_wrong(
    product: Product,
    path: Seq<char>,
    file: StoredFile,
    error: AuthError,
)
    requires
        refused(product, path, file, error),
    ensures
        file is Missing ==> (error matches AuthError::NotLoggedIn(m) && m@ == "no "@ + product.name@
            + " credentials at "@ + path + "; run `"@ + product.command@ + "` and log in"@),
        file matches StoredFile::Unreadable(e) ==> (error matches AuthError::Store(m) && m@
            == "reading "@ + path + ": "@ + e@),
        file matches StoredFile::Malformed(e) ==> (error matches AuthError::Store(m) && m@
            == "parsing "@ + path + ": "@ + e@),
        file matches StoredFile::Read(section) ==> error is NotLoggedIn,
        file is Elsewhere ==> (error matches AuthError::Store(m) && m@ == product.name@
            + " stores credentials in the macOS Keychain, which is not supported yet"@),
{
}

} // verus!
