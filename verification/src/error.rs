//! The failures that a call can end in, by kind.

use vstd::prelude::*;
use vstd::string::*;
use crate::fields::{accepted_names, field, occurrences, read_field, Record};
use crate::json::{object_model, Json, JsonModel, MemberModel};

verus! {

/// A failure that the origin itself reports, in the body of an answer.
#[derive(Clone, Debug, PartialEq, Eq)]
pub struct MpkError {
    pub info: String,
    pub message: String,
    pub stack_trace: String,
}

/// The mathematical value of an [`MpkError`].
pub struct MpkErrorModel {
    pub info: Seq<char>,
    pub message: Seq<char>,
    pub stack_trace: Seq<char>,
}

impl DeepView for MpkError {
    type V = MpkErrorModel;

    open spec fn deep_view(&self) -> MpkErrorModel {
        MpkErrorModel { info: self.info@, message: self.message@, stack_trace: self.stack_trace@ }
    }
}

impl Record for MpkError {
    /// An object with the texts `info`, `message` and `stackTrace`.
    open spec fn spec_from(j: JsonModel) -> Option<MpkErrorModel> {
        match j {
            JsonModel::Object(members) => match (
                field::<String>(members, "info"@),
                field::<String>(members, "message"@),
                field::<String>(members, "stackTrace"@),
            ) {
                (Some(info), Some(message), Some(stack_trace)) => Some(
                    MpkErrorModel { info, message, stack_trace },
                ),
                _ => None,
            },
            _ => None,
        }
    }

    fn from_json(j: &Json) -> (r: Option<MpkError>) {
        let out = match j {
            Json::Object(members) => {
                proof {
                    object_model(*members);
                }
                let info = read_field::<String>(members, "info");
                let message = read_field::<String>(members, "message");
                let stack_trace = read_field::<String>(members, "stackTrace");
                match (info, message, stack_trace) {
                    (Some(info), Some(message), Some(stack_trace)) => Some(
                        MpkError { info, message, stack_trace },
                    ),
                    _ => None,
                }
            },
            _ => None,
        };
        assert(out.deep_view() == Self::spec_from(j@));
        out
    }
}

/// The error shape reads as the failure that it spells: an object with the
/// members `info`, `message` and `stackTrace`, each a text, holds those three
/// texts.
pub proof fn error_shape_reads(info: Seq<char>, message: Seq<char>, stack_trace: Seq<char>)
    ensures
        MpkError::spec_from(
            JsonModel::Object(
                seq![
                    MemberModel { name: "info"@, value: JsonModel::Text(info) },
                    MemberModel { name: "message"@, value: JsonModel::Text(message) },
                    MemberModel { name: "stackTrace"@, value: JsonModel::Text(stack_trace) },
                ],
            ),
        ) == Some(MpkErrorModel { info, message, stack_trace }),
{
    let members = seq![
        MemberModel { name: "info"@, value: JsonModel::Text(info) },
        MemberModel { name: "message"@, value: JsonModel::Text(message) },
        MemberModel { name: "stackTrace"@, value: JsonModel::Text(stack_trace) },
    ];
    reveal_strlit("info");
    reveal_strlit("message");
    reveal_strlit("stackTrace");
    assert("info"@.len() == 4 && "message"@.len() == 7 && "stackTrace"@.len() == 10);
    accepted_names("info"@, "info"@, "info"@);
    accepted_names("info"@, "info"@, "message"@);
    accepted_names("info"@, "info"@, "stackTrace"@);
    accepted_names("message"@, "message"@, "info"@);
    accepted_names("message"@, "message"@, "message"@);
    accepted_names("message"@, "message"@, "stackTrace"@);
    accepted_names("stackTrace"@, "stackTrace"@, "info"@);
    accepted_names("stackTrace"@, "stackTrace"@, "message"@);
    accepted_names("stackTrace"@, "stackTrace"@, "stackTrace"@);
    let two = members.drop_last();
    let one = two.drop_last();
    assert(one.drop_last() =~= Seq::empty());
    assert(members.last() == members[2] && two.last() == members[1] && one.last() == members[0]);
    reveal_with_fuel(occurrences, 4);
    assert(occurrences(members, seq!["info"@]) =~= seq![JsonModel::Text(info)]);
    assert(occurrences(members, seq!["message"@]) =~= seq![JsonModel::Text(message)]);
    assert(occurrences(members, seq!["stackTrace"@]) =~= seq![JsonModel::Text(stack_trace)]);
}

impl MpkError {
    /// The text of the failure: `info`, a colon, `message`, and the stack
    /// trace on a line of its own.
    pub open spec fn description(self) -> Seq<char> {
        self.info@ + ": "@ + self.message@ + "\nStack trace: "@ + self.stack_trace@
    }

    /// Writes the failure out as one text.
    pub fn describe(&self) -> (r: String)
        ensures
            r@ == self.description(),
    {
        let mut out = self.info.clone();
        out.append(": ");
        out.append(self.message.as_str());
        out.append("\nStack trace: ");
        out.append(self.stack_trace.as_str());
        out
    }
}

/// Why a body could not be decoded.
#[derive(Clone, Debug, PartialEq, Eq)]
pub enum DecodeError {
    /// The body has none of the shapes that the caller asked for. `snippet`
    /// holds the first bytes of the body.
    SchemaMismatch { snippet: Vec<u8> },
    /// The positional array has no element.
    EmptyBatch,
    /// The first element of the positional array is no string.
    InvalidMetadata,
    /// The element at `index` of the array is no record of the asked type.
    RecordMismatch { index: usize },
}

/// The mathematical value of a [`DecodeError`].
pub enum DecodeErrorModel {
    SchemaMismatch { snippet: Seq<u8> },
    EmptyBatch,
    InvalidMetadata,
    RecordMismatch { index: int },
}

impl DeepView for DecodeError {
    type V = DecodeErrorModel;

    open spec fn deep_view(&self) -> DecodeErrorModel {
        match self {
            DecodeError::SchemaMismatch { snippet } => DecodeErrorModel::SchemaMismatch {
                snippet: snippet@,
            },
            DecodeError::EmptyBatch => DecodeErrorModel::EmptyBatch,
            DecodeError::InvalidMetadata => DecodeErrorModel::InvalidMetadata,
            DecodeError::RecordMismatch { index } => DecodeErrorModel::RecordMismatch {
                index: *index as int,
            },
        }
    }
}

/// Why the digest handshake did not lead to an answer.
#[derive(Clone, Copy, Debug, PartialEq, Eq)]
pub enum AuthError {
    /// The challenge is absent, or lacks what an answer needs.
    MalformedChallenge,
    /// The authorized request was refused: the status of the refusal.
    AuthenticationFailed { status: u16 },
}

/// A request that did not bring an answer: no connection, a timeout, a name
/// that does not resolve. `message` says which, in the transport's words.
#[derive(Clone, Debug, PartialEq, Eq)]
pub struct TransportError {
    pub message: String,
}

impl DeepView for TransportError {
    type V = Seq<char>;

    open spec fn deep_view(&self) -> Seq<char> {
        self.message@
    }
}

/// The kinds of failure, for callers that tell them apart.
#[derive(Clone, Copy, Debug, PartialEq, Eq)]
pub enum ErrorKind {
    Transport,
    Authentication,
    Decode,
    UpstreamBusiness,
    Address,
}

/// A failure of a call to the authenticated host.
#[derive(Clone, Debug, PartialEq, Eq)]
pub enum ClientError {
    /// The digest handshake failed.
    HttpError(AuthError),
    /// The transport failed.
    ReqwestError(TransportError),
    /// The body could not be decoded.
    SerdeError(DecodeError),
    /// The address of the request is no URL.
    UrlParseError,
    /// The origin reported a failure of its own.
    MpkError(MpkError),
}

/// The mathematical value of a [`ClientError`].
pub enum ClientErrorModel {
    HttpError(AuthError),
    ReqwestError(Seq<char>),
    SerdeError(DecodeErrorModel),
    UrlParseError,
    MpkError(MpkErrorModel),
}

impl DeepView for ClientError {
    type V = ClientErrorModel;

    open spec fn deep_view(&self) -> ClientErrorModel {
        match self {
            ClientError::HttpError(e) => ClientErrorModel::HttpError(*e),
            ClientError::ReqwestError(e) => ClientErrorModel::ReqwestError(e.deep_view()),
            ClientError::SerdeError(e) => ClientErrorModel::SerdeError(e.deep_view()),
            ClientError::UrlParseError => ClientErrorModel::UrlParseError,
            ClientError::MpkError(e) => ClientErrorModel::MpkError(e.deep_view()),
        }
    }
}

/// The value of the result of a call.
pub open spec fn result_model<T: DeepView>(r: Result<T, ClientError>) -> Result<
    T::V,
    ClientErrorModel,
> {
    match r {
        Ok(x) => Ok(x.deep_view()),
        Err(e) => Err(e.deep_view()),
    }
}

impl ClientError {
    /// The kind of this failure.
    pub open spec fn spec_kind(self) -> ErrorKind {
        match self {
            ClientError::HttpError(_) => ErrorKind::Authentication,
            ClientError::ReqwestError(_) => ErrorKind::Transport,
            ClientError::SerdeError(_) => ErrorKind::Decode,
            ClientError::UrlParseError => ErrorKind::Address,
            ClientError::MpkError(_) => ErrorKind::UpstreamBusiness,
        }
    }

    /// The kind of this failure.
    pub fn kind(&self) -> (r: ErrorKind)
        ensures
            r == self.spec_kind(),
    {
        match self {
            ClientError::HttpError(_) => ErrorKind::Authentication,
            ClientError::ReqwestError(_) => ErrorKind::Transport,
            ClientError::SerdeError(_) => ErrorKind::Decode,
            ClientError::UrlParseError => ErrorKind::Address,
            ClientError::MpkError(_) => ErrorKind::UpstreamBusiness,
        }
    }
}

} // verus!
