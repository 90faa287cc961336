//! Who may connect, and under which certificate.
//!
//! Reading certificates and asking the system about a password happen outside; what follows
//! from their outcome is decided here.

use crate::config::Config;
use vstd::prelude::*;

verus! {

/// How loading the certificate went.
#[derive(Debug)]
pub enum TlsOutcome {
    /// The files could not be read.
    LoadFailed(String),
    /// The certificate is not usable.
    VerifyFailed(String),
    Loaded,
}

/// Asks who somebody is.
#[derive(Debug)]
pub struct UserAuthenticator {
    /// The way of asking, as the settings name it.
    pub auth_method: String,
}

/// How asking about a user went.
#[derive(Debug)]
pub enum AuthOutcome {
    /// The name is not one that a user can have.
    InvalidUsername(String),
    /// The system could not be asked.
    CheckFailed(String),
    /// The password is wrong.
    Rejected,
    Accepted,
}

/// What a user that was let in gets.
#[derive(Debug)]
pub struct SessionToken {
    pub username: String,
}

/// Who may connect, and under which certificate.
#[derive(Debug)]
pub struct Security {
    pub cert_path: String,
    pub key_path: String,
    pub user_authenticator: UserAuthenticator,
}

/// The settings are taken where the certificate can be used, and else its failure is the reason.
pub open spec fn secures(config: Config, tls: TlsOutcome, r: Result<Security, String>) -> bool {
    match tls {
        TlsOutcome::LoadFailed(e) | TlsOutcome::VerifyFailed(e) => r == Err::<Security, String>(e),
        TlsOutcome::Loaded => r matches Ok(s) && s.cert_path@ == config.security.cert_path@
            && s.key_path@ == config.security.key_path@ && s.user_authenticator.auth_method@
            == config.security.auth_method@,
    }
}

/// A user is let in whose name is valid and whose password is right; nobody else.
pub open spec fn admits_user(
    username: Seq<char>,
    outcome: AuthOutcome,
    r: Result<SessionToken, String>,
) -> bool {
    match outcome {
        AuthOutcome::InvalidUsername(e) | AuthOutcome::CheckFailed(e) => r == Err::<
            SessionToken,
            String,
        >(e),
        AuthOutcome::Rejected => r matches Err(e) && e@ == "Authentication failed"@,
        AuthOutcome::Accepted => r matches Ok(t) && t.username@ == username,
    }
}

impl Security {
    /// The settings are taken where the certificate can be used.
    pub fn new(config: &Config, tls: TlsOutcome) -> (r: Result<Self, String>)
        ensures
            secures(*config, tls, r),
    {
        match tls {
            TlsOutcome::LoadFailed(e) => Err(e),
            TlsOutcome::VerifyFailed(e) => Err(e),
            TlsOutcome::Loaded => Ok(
                Security {
                    cert_path: config.security.cert_path.clone(),
                    key_path: config.security.key_path.clone(),
                    user_authenticator: UserAuthenticator {
                        auth_method: config.security.auth_method.clone(),
                    },
                },
            ),
        }
    }

    /// Who is asked.
    pub fn authenticator(&self) -> (r: &UserAuthenticator)
        ensures
            *r == self.user_authenticator,
    {
        &self.user_authenticator
    }

    /// Lets a user in whose name is valid and whose password is right; nobody else.
    pub fn authenticate(&self, username: &str, outcome: AuthOutcome) -> (r: Result<
        SessionToken,
        String,
    >)
        ensures
            admits_user(username@, outcome, r),
    {
        match outcome {
            AuthOutcome::InvalidUsername(e) => Err(e),
            AuthOutcome::CheckFailed(e) => Err(e),
            AuthOutcome::Rejected => Err("Authentication failed".to_owned()),
            AuthOutcome::Accepted => Ok(SessionToken { username: username.to_owned() }),
        }
    }
}

/// Nobody is let in but a user whose password was accepted, and then under the name that was
/// given. A wrong password says no more than that.
pub proof fn only_accepted_users_get_in(
    username: Seq<char>,
    outcome: AuthOutcome,
    r: Result<SessionToken, String>,
)
    requires
        admits_user(username, outcome, r),
    ensures
        r is Ok <==> outcome is Accepted,
        r matches Ok(t) ==> t.username@ == username,
        outcome is Rejected ==> (r matches Err(e) && e@ == "Authentication failed"@),
        outcome matches AuthOutcome::InvalidUsername(e) ==> r == Err::<SessionToken, String>(e),
        outcome matches AuthOutcome::CheckFailed(e) ==> r == Err::<SessionToken, String>(e),
{
}

/// Nothing is secured without a certificate that could be loaded and verified, and what is goes
/// by the configured files and the configured way of asking.
pub proof fn certificates_are_needed(config: Config, tls: TlsOutcome, r: Result<Security, String>)
    requires
        secures(config, tls, r),
    ensures
        r is Ok <==> tls is Loaded,
        r matches Ok(s) ==> s.cert_path@ == config.security.cert_path@ && s.key_path@
            == config.security.key_path@ && s.user_authenticator.auth_method@
            == config.security.auth_method@,
        tls matches TlsOutcome::LoadFailed(e) ==> r == Err::<Security, String>(e),
        tls matches TlsOutcome::VerifyFailed(e) ==> r == Err::<Security, String>(e),
{
}

/// Who is turned away is told why: by the check that failed, or that the password is wrong.
pub proof fn refused_users_are_told_why(
    username: Seq<char>,
    outcome: AuthOutcome,
    r: Result<SessionToken, String>,
)
    requires
        admits_user(username, outcome, r),
    ensures
        r is Ok <==> outcome is Accepted,
        r is Ok ==> r->Ok_0.username@ == username,
        outcome is Rejected ==> (r->Err_0)@ == "Authentication failed"@,
        outcome is InvalidUsername ==> r->Err_0 == outcome->InvalidUsername_0,
        outcome is CheckFailed ==> r->Err_0 == outcome->CheckFailed_0,
{
}

} // verus!
