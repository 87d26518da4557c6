//! The digest authentication handshake, as decisions: what to send after
//! each reply of the host. The caller sends it and hands back what came.

use vstd::prelude::*;
use vstd::string::*;
use vstd::pervasive::unreached;
use vstd::utf8::is_ascii_chars;
use crate::error::AuthError;
use crate::request::{slice_target, url_target};

verus! {

/// The status with which a host asks for authentication.
pub const UNAUTHORIZED: u16 = 401;

/// The name and the secret that a client answers a challenge with. They are
/// set once, when the client is made.
pub struct DigestCredentials {
    username: String,
    password: String,
}

impl DigestCredentials {
    /// The name.
    pub closed spec fn username(self) -> Seq<char> {
        self.username@
    }

    /// The secret.
    pub closed spec fn password(self) -> Seq<char> {
        self.password@
    }

    pub fn new(username: String, password: String) -> (r: DigestCredentials)
        ensures
            r.username() == username@,
            r.password() == password@,
    {
        DigestCredentials { username, password }
    }
}

/// What a challenge holds, as the digest library reads it from the header.
#[derive(Clone, Debug, PartialEq, Eq)]
pub struct ChallengeFields {
    pub realm: String,
    pub nonce: String,
    pub opaque: Option<String>,
    /// The qualities of protection that the host offers, each by its token
    /// (`auth`, `auth-int`); `None` where the header names none.
    pub qop: Option<Vec<String>>,
    /// The algorithm by its token (`MD5`, `SHA-256-sess`, ...).
    pub algorithm: String,
    /// Whether the host asks for the name to be hashed.
    pub userhash: bool,
}

/// The mathematical value of [`ChallengeFields`].
pub struct ChallengeModel {
    pub realm: Seq<char>,
    pub nonce: Seq<char>,
    pub opaque: Option<Seq<char>>,
    pub qop: Option<Seq<Seq<char>>>,
    pub algorithm: Seq<char>,
    pub userhash: bool,
}

impl DeepView for ChallengeFields {
    type V = ChallengeModel;

    open spec fn deep_view(&self) -> ChallengeModel {
        ChallengeModel {
            realm: self.realm@,
            nonce: self.nonce@,
            opaque: self.opaque.deep_view(),
            qop: self.qop.deep_view(),
            algorithm: self.algorithm@,
            userhash: self.userhash,
        }
    }
}

/// What the `Authorization` header of an authorized request carries, field
/// by field, and the header's value as it is sent.
#[derive(Clone, Debug, PartialEq, Eq)]
pub struct Authorization {
    pub username: String,
    pub realm: String,
    pub nonce: String,
    pub uri: String,
    /// The digest, in hexadecimal digits.
    pub response: String,
    /// The quality of protection that was chosen, by its token.
    pub qop: Option<String>,
    pub cnonce: Option<String>,
    /// How many requests have been signed with the nonce.
    pub nc: u32,
    pub opaque: Option<String>,
    pub algorithm: String,
    pub userhash: bool,
    /// The value of the header.
    pub text: String,
}

/// The mathematical value of an [`Authorization`].
pub struct AuthorizationModel {
    pub username: Seq<char>,
    pub realm: Seq<char>,
    pub nonce: Seq<char>,
    pub uri: Seq<char>,
    pub response: Seq<char>,
    pub qop: Option<Seq<char>>,
    pub cnonce: Option<Seq<char>>,
    pub nc: u32,
    pub opaque: Option<Seq<char>>,
    pub algorithm: Seq<char>,
    pub userhash: bool,
    pub text: Seq<char>,
}

impl DeepView for Authorization {
    type V = AuthorizationModel;

    open spec fn deep_view(&self) -> AuthorizationModel {
        AuthorizationModel {
            username: self.username@,
            realm: self.realm@,
            nonce: self.nonce@,
            uri: self.uri@,
            response: self.response@,
            qop: self.qop.deep_view(),
            cnonce: self.cnonce.deep_view(),
            nc: self.nc,
            opaque: self.opaque.deep_view(),
            algorithm: self.algorithm@,
            userhash: self.userhash,
            text: self.text@,
        }
    }
}

/// What `digest_auth::parse` reads from the header value `header`: the
/// fields of the `WwwAuthenticateHeader` that it hands back, the qualities of
/// protection and the algorithm each by the token that its `Display` writes.
/// `None` where it reports an error, as it does for a header without a realm
/// or without a nonce.
pub uninterp spec fn parsed_challenge(header: Seq<char>) -> Option<ChallengeModel>;

/// Calls `digest_auth::parse` and moves the fields of what it read into
/// [`ChallengeFields`]; the result is what `parsed_challenge` names. The
/// parser cuts the text at character counts, which is sound for ASCII text
/// only: other text is left out.
#[verifier::external_body]
fn parse_challenge(header: &str) -> (r: Option<ChallengeFields>)
    requires
        is_ascii_chars(header@),
    ensures
        r.deep_view() == parsed_challenge(header@),
{
    let p = digest_auth::parse(header).ok()?;
    let qop = p.qop.map(|offered| offered.iter().map(|q| q.to_string()).collect());
    let algorithm = p.algorithm.to_string();
    Some(ChallengeFields {
        realm: p.realm, nonce: p.nonce, opaque: p.opaque, qop, algorithm, userhash: p.userhash,
    })
}

/// The answer that `WwwAuthenticateHeader::respond` gives to the challenge
/// that `digest_auth::parse` reads from `header`, for a `GET` of `uri` with
/// the given name, secret and client nonce: the fields of the
/// `AuthorizationHeader`, and its text. `None` where the header does not
/// parse.
pub uninterp spec fn digest_answer(
    header: Seq<char>,
    username: Seq<char>,
    password: Seq<char>,
    uri: Seq<char>,
    cnonce: Seq<char>,
) -> Option<AuthorizationModel>;

/// The header value that `AuthorizationHeader::to_header_string` writes for
/// an `AuthorizationHeader` with these fields.
pub uninterp spec fn authorization_text(
    username: Seq<char>,
    realm: Seq<char>,
    nonce: Seq<char>,
    uri: Seq<char>,
    response: Seq<char>,
    qop: Option<Seq<char>>,
    cnonce: Option<Seq<char>>,
    nc: u32,
    opaque: Option<Seq<char>>,
    algorithm: Seq<char>,
    userhash: bool,
) -> Seq<char>;

/// What an answer carries of the challenge and of the request, as
/// `AuthorizationHeader::from_prompt` and `digest` fill it in for a `GET`
/// without a body: the realm, the nonce, the opaque text, the algorithm and
/// the wish for a hashed name are the challenge's; the URI is the
/// request's; the nonce has been used once. Where the challenge offers a
/// quality of protection, `auth` is chosen and the client nonce is carried;
/// where it offers none, neither is there. The name is the client's, unless
/// the host asks for it to be hashed.
pub open spec fn answers(
    a: AuthorizationModel,
    challenge: ChallengeModel,
    username: Seq<char>,
    uri: Seq<char>,
    cnonce: Seq<char>,
) -> bool {
    &&& a.realm == challenge.realm
    &&& a.nonce == challenge.nonce
    &&& a.opaque == challenge.opaque
    &&& a.algorithm == challenge.algorithm
    &&& a.userhash == challenge.userhash
    &&& a.uri == uri
    &&& a.nc == 1
    &&& a.qop == (if challenge.qop is Some {
        Some("auth"@)
    } else {
        None
    })
    &&& a.cnonce == (if challenge.qop is Some {
        Some(cnonce)
    } else {
        None
    })
    &&& !challenge.userhash ==> a.username == username
}

/// Calls `digest_auth::parse`, then `respond` on what it read, with a
/// context made by `AuthContext::new` (a `GET` without a body) and the client
/// nonce set by `set_custom_cnonce`, and moves the fields of the answer and
/// its `to_header_string` into an [`Authorization`]. The answer is what
/// `digest_answer` names. It is there exactly where the header parses: a
/// parsed challenge offers no quality of protection or a known one, which
/// is all that `respond` asks. Its fields are filled as [`answers`] says,
/// and its text is what `authorization_text` names for its fields.
#[verifier::external_body]
fn answer_challenge(
    header: &str,
    username: &str,
    password: &str,
    uri: &str,
    cnonce: &str,
) -> (r: Option<Authorization>)
    requires
        is_ascii_chars(header@),
    ensures
        r.deep_view() == digest_answer(header@, username@, password@, uri@, cnonce@),
        r is Some <==> parsed_challenge(header@) is Some,
        r matches Some(a) ==> answers(
            a.deep_view(),
            parsed_challenge(header@)->0,
            username@,
            uri@,
            cnonce@,
        ),
        r matches Some(a) ==> a.text@ == authorization_text(
            a.username@,
            a.realm@,
            a.nonce@,
            a.uri@,
            a.response@,
            a.qop.deep_view(),
            a.cnonce.deep_view(),
            a.nc,
            a.opaque.deep_view(),
            a.algorithm@,
            a.userhash,
        ),
{
    let mut prompt = digest_auth::parse(header).ok()?;
    let mut context = digest_auth::AuthContext::new(username, password, uri);
    context.set_custom_cnonce(cnonce);
    let a = prompt.respond(&context).ok()?;
    let (text, qop, algorithm) = (a.to_header_string(), a.qop, a.algorithm.to_string());
    Some(Authorization {
        username: a.username, realm: a.realm, nonce: a.nonce, uri: a.uri, response: a.response,
        qop: qop.map(|q| q.to_string()), cnonce: a.cnonce, nc: a.nc, opaque: a.opaque,
        algorithm, userhash: a.userhash, text,
    })
}

/// A challenge as a host sent it: the value of the challenge header of a
/// reply, and what the digest library reads from it. It lives for one
/// handshake.
pub struct DigestChallenge {
    header: String,
    fields: ChallengeFields,
}

impl DigestChallenge {
    /// The value of the header.
    pub closed spec fn text(self) -> Seq<char> {
        self.header@
    }

    /// What the challenge holds.
    pub closed spec fn model(self) -> ChallengeModel {
        self.fields.deep_view()
    }

    /// A challenge holds ASCII text, and the fields that the text spells.
    #[verifier::type_invariant]
    spec fn spelled_by_its_text(self) -> bool {
        &&& is_ascii_chars(self.header@)
        &&& parsed_challenge(self.header@) == Some(self.fields.deep_view())
    }

    /// The challenge that the header value `header` is. A header that holds
    /// other than ASCII text, or that the digest library cannot read, is
    /// malformed.
    pub fn from_header(header: &str) -> (r: Result<DigestChallenge, AuthError>)
        ensures
            r is Ok <==> is_ascii_chars(header@) && parsed_challenge(header@) is Some,
            r matches Ok(challenge) ==> challenge.text() == header@ && Some(challenge.model())
                == parsed_challenge(header@),
            r matches Err(e) ==> e == AuthError::MalformedChallenge,
    {
        if !header.is_ascii() {
            return Err(AuthError::MalformedChallenge);
        }
        match parse_challenge(header) {
            Some(fields) => Ok(DigestChallenge { header: String::from_str(header), fields }),
            None => Err(AuthError::MalformedChallenge),
        }
    }

    /// What the challenge holds: the realm, the nonce, the opaque text, the
    /// offered qualities of protection and the algorithm.
    pub fn fields(&self) -> (r: &ChallengeFields)
        ensures
            r.deep_view() == self.model(),
    {
        &self.fields
    }

    /// Answers the challenge for a `GET` of `uri`: what the `Authorization`
    /// header of the authorized request carries. `cnonce` is the client
    /// nonce of the answer.
    pub fn answer(&self, credentials: &DigestCredentials, uri: &str, cnonce: &str) -> (r:
        Authorization)
        ensures
            Some(r.deep_view()) == digest_answer(
                self.text(),
                credentials.username(),
                credentials.password(),
                uri@,
                cnonce@,
            ),
            answers(r.deep_view(), self.model(), credentials.username(), uri@, cnonce@),
            r.text@ == authorization_text(
                r.username@,
                r.realm@,
                r.nonce@,
                r.uri@,
                r.response@,
                r.qop.deep_view(),
                r.cnonce.deep_view(),
                r.nc,
                r.opaque.deep_view(),
                r.algorithm@,
                r.userhash,
            ),
    {
        proof {
            use_type_invariant(self);
        }
        match answer_challenge(
            self.header.as_str(),
            credentials.username.as_str(),
            credentials.password.as_str(),
            uri,
            cnonce,
        ) {
            Some(authorization) => authorization,
            None => unreached(),
        }
    }
}

/// Where a handshake stands.
#[derive(Clone, Copy, Debug, PartialEq, Eq)]
pub enum Phase {
    /// The plain request is out; its reply may be a challenge.
    AwaitingChallenge,
    /// The authorized request is out; its reply is the verdict.
    AwaitingVerdict,
}

/// A handshake under way for one request.
#[derive(Debug)]
pub struct Negotiation {
    phase: Phase,
    uri: String,
}

/// What to do after a reply.
#[derive(Debug)]
pub enum Step {
    /// Send the request once more, with this value in its `Authorization`
    /// header, and hand the reply to `next`.
    Authorize { authorization: String, next: Negotiation },
    /// Hand the reply to the caller as it is.
    Deliver,
    /// Give up.
    Fail(AuthError),
}

/// What a reply calls for, once the answer to its challenge is known.
pub enum Decision {
    Authorize(Seq<char>),
    Deliver,
    Fail(AuthError),
}

/// The decision after a reply with status `status`, where `answer` is the
/// authorization that answers the reply's challenge, if there is one.
///
/// A first reply that is no challenge is delivered as it is. A challenge is
/// answered; one that cannot be answered is malformed. The second reply is
/// delivered where its status is a success, and is a failed authentication
/// otherwise, a second challenge included.
pub open spec fn decided(phase: Phase, status: u16, answer: Option<Seq<char>>) -> Decision {
    match phase {
        Phase::AwaitingChallenge => if status != UNAUTHORIZED {
            Decision::Deliver
        } else {
            match answer {
                Some(authorization) => Decision::Authorize(authorization),
                None => Decision::Fail(AuthError::MalformedChallenge),
            }
        },
        Phase::AwaitingVerdict => if 200 <= status <= 299 {
            Decision::Deliver
        } else {
            Decision::Fail(AuthError::AuthenticationFailed { status })
        },
    }
}

/// The authorization that answers `challenge`, the value of the reply's
/// challenge header: the text of the digest library's answer. There is none
/// where the header is absent, holds other than ASCII text, or does not
/// parse.
pub open spec fn authorization_for(
    challenge: Option<Seq<char>>,
    credentials: DigestCredentials,
    uri: Seq<char>,
    cnonce: Seq<char>,
) -> Option<Seq<char>> {
    match challenge {
        Some(text) => if is_ascii_chars(text) && parsed_challenge(text) is Some {
            match digest_answer(
                text,
                credentials.username(),
                credentials.password(),
                uri,
                cnonce,
            ) {
                Some(a) => Some(a.text),
                None => None,
            }
        } else {
            None
        },
        None => None,
    }
}

/// The answer that a reply with status `status` calls for: the
/// authorization that answers its challenge where the reply is the challenge
/// to the plain request, and none otherwise.
pub open spec fn answer_for(
    phase: Phase,
    status: u16,
    challenge: Option<Seq<char>>,
    credentials: DigestCredentials,
    uri: Seq<char>,
    cnonce: Seq<char>,
) -> Option<Seq<char>> {
    if phase == Phase::AwaitingChallenge && status == UNAUTHORIZED {
        authorization_for(challenge, credentials, uri, cnonce)
    } else {
        None
    }
}

impl Step {
    /// The decision that this step carries out.
    pub open spec fn decision(self) -> Decision {
        match self {
            Step::Authorize { authorization, next } => Decision::Authorize(authorization@),
            Step::Deliver => Decision::Deliver,
            Step::Fail(e) => Decision::Fail(e),
        }
    }
}

impl Negotiation {
    /// Where the handshake stands.
    pub closed spec fn phase(self) -> Phase {
        self.phase
    }

    /// What the answers sign as the request's URI.
    pub closed spec fn uri(self) -> Seq<char> {
        self.uri@
    }

    /// Starts the handshake for a `GET` of `url`: the caller sends the plain
    /// request and hands its reply to the result. `None` where `url` is no
    /// absolute URL.
    pub fn begin(url: &str) -> (r: Option<Negotiation>)
        ensures
            match r {
                Some(n) => n.phase() == Phase::AwaitingChallenge && url_target(url@) == Some(
                    n.uri(),
                ),
                None => url_target(url@) is None,
            },
    {
        match slice_target(url) {
            Some(uri) => Some(Negotiation { phase: Phase::AwaitingChallenge, uri }),
            None => None,
        }
    }

    /// Where the handshake stands.
    pub fn current_phase(&self) -> (r: Phase)
        ensures
            r == self.phase(),
    {
        self.phase
    }

    /// Decides what follows a reply with status `status`, given the answer
    /// to its challenge.
    pub fn decide(self, status: u16, answer: Option<String>) -> (r: Step)
        ensures
            r.decision() == decided(self.phase(), status, answer.deep_view()),
            r matches Step::Authorize { authorization, next } ==> next.phase()
                == Phase::AwaitingVerdict && next.uri() == self.uri(),
    {
        match self.phase {
            Phase::AwaitingChallenge => {
                if status != UNAUTHORIZED {
                    Step::Deliver
                } else {
                    match answer {
                        Some(authorization) => Step::Authorize {
                            authorization,
                            next: Negotiation { phase: Phase::AwaitingVerdict, uri: self.uri },
                        },
                        None => Step::Fail(AuthError::MalformedChallenge),
                    }
                }
            },
            Phase::AwaitingVerdict => {
                if 200 <= status && status <= 299 {
                    Step::Deliver
                } else {
                    Step::Fail(AuthError::AuthenticationFailed { status })
                }
            },
        }
    }

    /// The answer to the challenge of a reply, where the reply is the
    /// challenge to the plain request: what the `Authorization` header of the
    /// authorized request carries, field by field, and its text. `cnonce` is
    /// the client nonce of the answer.
    pub fn answer_to(
        &self,
        status: u16,
        challenge: Option<&str>,
        credentials: &DigestCredentials,
        cnonce: &str,
    ) -> (r: Option<Authorization>)
        ensures
            match r {
                Some(a) => {
                    &&& answer_for(
                        self.phase(),
                        status,
                        challenge.deep_view(),
                        *credentials,
                        self.uri(),
                        cnonce@,
                    ) == Some(a.text@)
                    &&& challenge is Some
                    &&& parsed_challenge(challenge->0@) is Some
                    &&& answers(
                        a.deep_view(),
                        parsed_challenge(challenge->0@)->0,
                        credentials.username(),
                        self.uri(),
                        cnonce@,
                    )
                    &&& a.text@ == authorization_text(
                        a.username@,
                        a.realm@,
                        a.nonce@,
                        a.uri@,
                        a.response@,
                        a.qop.deep_view(),
                        a.cnonce.deep_view(),
                        a.nc,
                        a.opaque.deep_view(),
                        a.algorithm@,
                        a.userhash,
                    )
                },
                None => answer_for(
                    self.phase(),
                    status,
                    challenge.deep_view(),
                    *credentials,
                    self.uri(),
                    cnonce@,
                ) is None,
            },
    {
        let challenged = match self.phase {
            Phase::AwaitingChallenge => status == UNAUTHORIZED,
            Phase::AwaitingVerdict => false,
        };
        if !challenged {
            return None;
        }
        match challenge {
            Some(text) => match DigestChallenge::from_header(text) {
                Ok(challenge) => Some(challenge.answer(credentials, self.uri.as_str(), cnonce)),
                Err(_) => None,
            },
            None => None,
        }
    }

    /// Takes a reply: its status and, where it has one, the value of its
    /// challenge header. `cnonce` is the client nonce for the answer, which
    /// the caller draws afresh for each call.
    pub fn advance(
        self,
        status: u16,
        challenge: Option<&str>,
        credentials: &DigestCredentials,
        cnonce: &str,
    ) -> (r: Step)
        ensures
            r.decision() == decided(
                self.phase(),
                status,
                authorization_for(challenge.deep_view(), *credentials, self.uri(), cnonce@),
            ),
            r matches Step::Authorize { authorization, next } ==> next.phase()
                == Phase::AwaitingVerdict && next.uri() == self.uri(),
    {
        let answer = match self.answer_to(status, challenge, credentials, cnonce) {
            Some(authorization) => Some(authorization.text),
            None => None,
        };
        self.decide(status, answer)
    }
}

/// A handshake sends the request at most twice: the reply to the authorized
/// request is never answered with another request.
pub proof fn verdict_is_final(status: u16, answer: Option<Seq<char>>)
    ensures
        !(decided(Phase::AwaitingVerdict, status, answer) is Authorize),
        decided(Phase::AwaitingVerdict, status, answer) is Deliver <==> 200 <= status <= 299,
{
}

/// A first reply that is no challenge is handed on as it is, whatever else
/// it holds.
pub proof fn unchallenged_reply_is_delivered(status: u16, answer: Option<Seq<char>>)
    requires
        status != UNAUTHORIZED,
    ensures
        decided(Phase::AwaitingChallenge, status, answer) is Deliver,
{
}

} // verus!
