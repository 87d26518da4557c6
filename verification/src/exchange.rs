//! One call to the authenticated host, as decisions: what to send, what to
//! make of each reply, and what the call ends in. The caller sends and hands
//! back what came; every failure on the way ends the call.

use vstd::prelude::*;
use vstd::string::*;
use crate::decode::{
    decode_batch_union, decode_union, decoded_batch_union, decoded_union, BatchModel,
    EnvelopeModel, PositionalBatch,
};
use crate::digest::{
    answer_for, authorization_for, decided, Decision, DigestCredentials, Negotiation, Phase, Step,
};
use crate::error::{
    result_model, ClientError, ClientErrorModel, DecodeErrorModel, TransportError,
};
use crate::fields::{first_mismatch, Record};
use crate::json::{json_document, JsonModel};
use crate::request::{url_target, RequestDescriptor};

verus! {

/// What decoding an answer of the host gives the caller: the record, the
/// failure that the host reports, or the failure to decode.
pub open spec fn interpreted<T: Record>(body: Seq<u8>) -> Result<T::V, ClientErrorModel> {
    match decoded_union::<T>(json_document(body), body) {
        Ok(EnvelopeModel::Success(x)) => Ok(x),
        Ok(EnvelopeModel::ApiFailure(e)) => Err(ClientErrorModel::MpkError(e)),
        Err(e) => Err(ClientErrorModel::SerdeError(e)),
    }
}

/// Decodes the body of an answer of the host in union mode, and turns a
/// failure that the host reports into the error of the call.
pub fn interpret<T: Record>(body: &[u8]) -> (r: Result<T, ClientError>)
    ensures
        result_model(r) == interpreted::<T>(body@),
{
    match decode_union::<T>(body) {
        Ok(envelope) => envelope.into_result(),
        Err(e) => Err(ClientError::SerdeError(e)),
    }
}

/// What decoding an answer of the host as a positional batch gives the
/// caller: the batch, the failure that the host reports, or the failure to
/// decode, which for an array is the batch's own.
pub open spec fn interpreted_batch<T: Record>(body: Seq<u8>) -> Result<
    BatchModel<T::V>,
    ClientErrorModel,
> {
    match decoded_batch_union::<T>(json_document(body), body) {
        Ok(EnvelopeModel::Success(batch)) => Ok(batch),
        Ok(EnvelopeModel::ApiFailure(e)) => Err(ClientErrorModel::MpkError(e)),
        Err(e) => Err(ClientErrorModel::SerdeError(e)),
    }
}

/// Decodes the body of an answer of the host as a positional batch, and
/// turns a failure that the host reports into the error of the call.
pub fn interpret_batch<T: Record>(body: &[u8]) -> (r: Result<PositionalBatch<T>, ClientError>)
    ensures
        result_model(r) == interpreted_batch::<T>(body@),
{
    match decode_batch_union::<T>(body) {
        Ok(envelope) => envelope.into_result(),
        Err(e) => Err(ClientError::SerdeError(e)),
    }
}

/// What a host answered.
#[derive(Clone, Debug, PartialEq, Eq)]
pub struct Reply {
    pub status: u16,
    /// The value of the reply's challenge header, where it has one.
    pub challenge: Option<String>,
    pub body: Vec<u8>,
}

/// A call under way: the URL that is asked, and where its handshake stands.
#[derive(Debug)]
pub struct Exchange {
    url: String,
    negotiation: Negotiation,
}

/// What follows in a call.
#[derive(Debug)]
pub enum Next<T> {
    /// Send a GET for `url`, with `authorization` in its `Authorization`
    /// header where there is one, and hand what comes to `exchange`.
    Send { url: String, authorization: Option<String>, exchange: Exchange },
    /// The call is over.
    Done(Result<T, ClientError>),
}

/// The mathematical value of a [`Next`].
pub enum NextModel<V> {
    Send { url: Seq<char>, authorization: Option<Seq<char>>, phase: Phase, uri: Seq<char> },
    Done(Result<V, ClientErrorModel>),
}

impl<T: DeepView> DeepView for Next<T> {
    type V = NextModel<T::V>;

    open spec fn deep_view(&self) -> NextModel<T::V> {
        match self {
            Next::Send { url, authorization, exchange } => NextModel::Send {
                url: url@,
                authorization: authorization.deep_view(),
                phase: exchange.phase(),
                uri: exchange.uri(),
            },
            Next::Done(r) => NextModel::Done(result_model(*r)),
        }
    }
}

/// How a call for `request` starts: with a plain GET for the request's URL
/// on its first host. A request without a host, one whose first host has
/// no URL, and one whose URL the URL library does not parse as absolute end
/// the call at once.
pub open spec fn started<V>(request: RequestDescriptor) -> NextModel<V> {
    if request.hosts@.len() == 0 {
        NextModel::Done(Err(ClientErrorModel::UrlParseError))
    } else {
        match request.spec_urls()[0] {
            Some(url) => match url_target(url) {
                Some(uri) => NextModel::Send {
                    url,
                    authorization: None,
                    phase: Phase::AwaitingChallenge,
                    uri,
                },
                None => NextModel::Done(Err(ClientErrorModel::UrlParseError)),
            },
            None => NextModel::Done(Err(ClientErrorModel::UrlParseError)),
        }
    }
}

/// What follows what came back for a request of the call, where `answer` is
/// the authorization that answers the reply's challenge, if there is one,
/// and `read` says what a body that is delivered decodes to.
///
/// A request that brought no reply ends the call as a failure of the
/// transport. A reply that the handshake delivers is decoded, and what it
/// decodes to ends the call. A reply that the handshake answers is followed
/// by the authorized request for the same URL. A reply at which the
/// handshake fails ends the call with that failure.
pub open spec fn followed<V>(
    url: Seq<char>,
    uri: Seq<char>,
    phase: Phase,
    reply: Result<Reply, TransportError>,
    answer: Option<Seq<char>>,
    read: spec_fn(Seq<u8>) -> Result<V, ClientErrorModel>,
) -> NextModel<V> {
    match reply {
        Err(e) => NextModel::Done(Err(ClientErrorModel::ReqwestError(e.deep_view()))),
        Ok(r) => match decided(phase, r.status, answer) {
            Decision::Deliver => NextModel::Done(read(r.body@)),
            Decision::Authorize(authorization) => NextModel::Send {
                url,
                authorization: Some(authorization),
                phase: Phase::AwaitingVerdict,
                uri,
            },
            Decision::Fail(e) => NextModel::Done(Err(ClientErrorModel::HttpError(e))),
        },
    }
}

/// What follows in a call whose answer is read in union mode.
pub open spec fn continued<T: Record>(
    url: Seq<char>,
    uri: Seq<char>,
    phase: Phase,
    reply: Result<Reply, TransportError>,
    answer: Option<Seq<char>>,
) -> NextModel<T::V> {
    followed(url, uri, phase, reply, answer, |body: Seq<u8>| interpreted::<T>(body))
}

/// What follows in a call whose answer is read as a positional batch.
pub open spec fn continued_batch<T: Record>(
    url: Seq<char>,
    uri: Seq<char>,
    phase: Phase,
    reply: Result<Reply, TransportError>,
    answer: Option<Seq<char>>,
) -> NextModel<BatchModel<T::V>> {
    followed(url, uri, phase, reply, answer, |body: Seq<u8>| interpreted_batch::<T>(body))
}

/// The challenge of what came back, where a reply came and has one.
pub open spec fn challenge_of(reply: Result<Reply, TransportError>) -> Option<Seq<char>> {
    match reply {
        Ok(r) => r.challenge.deep_view(),
        Err(_) => None,
    }
}

/// The status of what came back; none where no reply came.
pub open spec fn status_of(reply: Result<Reply, TransportError>) -> u16 {
    match reply {
        Ok(r) => r.status,
        Err(_) => 0,
    }
}

/// What the handshake makes of a reply, before it is decoded.
enum Stage {
    Send { url: String, authorization: Option<String>, exchange: Exchange },
    Deliver { body: Vec<u8> },
    Fail { error: ClientError },
}

impl Exchange {
    /// The URL that is asked.
    pub closed spec fn url(self) -> Seq<char> {
        self.url@
    }

    /// Where the handshake stands.
    pub closed spec fn phase(self) -> Phase {
        self.negotiation.phase()
    }

    /// What the answers sign as the request's URI.
    pub closed spec fn uri(self) -> Seq<char> {
        self.negotiation.uri()
    }

    /// Starts a call for `request`.
    pub fn start<T: DeepView>(request: &RequestDescriptor) -> (r: Next<T>)
        ensures
            r.deep_view() == started::<T::V>(*request),
            r matches Next::Send { url, authorization, exchange } ==> exchange.url() == url@,
    {
        let mut urls = request.urls();
        assert(urls.deep_view().len() == urls@.len());
        if urls.len() == 0 {
            let r = Next::Done(Err(ClientError::UrlParseError));
            assert(r.deep_view() == started::<T::V>(*request));
            return r;
        }
        assert(urls@[0].deep_view() == urls.deep_view()[0]);
        let r = match urls.swap_remove(0) {
            Some(url) => match Negotiation::begin(url.as_str()) {
                Some(negotiation) => Next::Send {
                    url: url.clone(),
                    authorization: None,
                    exchange: Exchange { url, negotiation },
                },
                None => Next::Done(Err(ClientError::UrlParseError)),
            },
            None => Next::Done(Err(ClientError::UrlParseError)),
        };
        assert(r.deep_view() == started::<T::V>(*request));
        r
    }

    /// Lets the handshake take what came back.
    fn stage(self, reply: Result<Reply, TransportError>, answer: Option<String>) -> (r: Stage)
        ensures
            match r {
                Stage::Send { url, authorization, exchange } => {
                    &&& reply is Ok
                    &&& decided(self.phase(), reply->Ok_0.status, answer.deep_view())
                        == Decision::Authorize(authorization->0@)
                    &&& authorization is Some
                    &&& url@ == self.url()
                    &&& exchange.url() == self.url()
                    &&& exchange.uri() == self.uri()
                    &&& exchange.phase() == Phase::AwaitingVerdict
                },
                Stage::Deliver { body } => {
                    &&& reply is Ok
                    &&& decided(self.phase(), reply->Ok_0.status, answer.deep_view())
                        is Deliver
                    &&& body == reply->Ok_0.body
                },
                Stage::Fail { error } => match reply {
                    Err(e) => error == ClientError::ReqwestError(e),
                    Ok(r) => decided(self.phase(), r.status, answer.deep_view())
                        == Decision::Fail(error->HttpError_0) && error is HttpError,
                },
            },
    {
        match reply {
            Err(e) => Stage::Fail { error: ClientError::ReqwestError(e) },
            Ok(r) => match self.negotiation.decide(r.status, answer) {
                Step::Deliver => Stage::Deliver { body: r.body },
                Step::Authorize { authorization, next } => Stage::Send {
                    url: self.url.clone(),
                    authorization: Some(authorization),
                    exchange: Exchange { url: self.url, negotiation: next },
                },
                Step::Fail(e) => Stage::Fail { error: ClientError::HttpError(e) },
            },
        }
    }

    /// The answer to the challenge of what came back, where it is one.
    fn answer_to(
        &self,
        reply: &Result<Reply, TransportError>,
        credentials: &DigestCredentials,
        cnonce: &str,
    ) -> (r: Option<String>)
        ensures
            r.deep_view() == answer_for(
                self.phase(),
                status_of(*reply),
                challenge_of(*reply),
                *credentials,
                self.uri(),
                cnonce@,
            ),
    {
        match reply {
            Ok(r) => {
                let challenge = match &r.challenge {
                    Some(text) => Some(text.as_str()),
                    None => None,
                };
                match self.negotiation.answer_to(r.status, challenge, credentials, cnonce) {
                    Some(authorization) => Some(authorization.text),
                    None => None,
                }
            },
            Err(_) => None,
        }
    }

    /// Decides what follows what came back, given the answer to the reply's
    /// challenge, in a call whose answer is read in union mode.
    pub fn resume<T: Record>(
        self,
        reply: Result<Reply, TransportError>,
        answer: Option<String>,
    ) -> (r: Next<T>)
        ensures
            r.deep_view() == continued::<T>(
                self.url(),
                self.uri(),
                self.phase(),
                reply,
                answer.deep_view(),
            ),
            r matches Next::Send { url, authorization, exchange } ==> exchange.url() == url@,
    {
        match self.stage(reply, answer) {
            Stage::Send { url, authorization, exchange } => Next::Send {
                url,
                authorization,
                exchange,
            },
            Stage::Deliver { body } => Next::Done(interpret::<T>(body.as_slice())),
            Stage::Fail { error } => Next::Done(Err(error)),
        }
    }

    /// Decides what follows what came back, given the answer to the reply's
    /// challenge, in a call whose answer is read as a positional batch.
    pub fn resume_batch<T: Record>(
        self,
        reply: Result<Reply, TransportError>,
        answer: Option<String>,
    ) -> (r: Next<PositionalBatch<T>>)
        ensures
            r.deep_view() == continued_batch::<T>(
                self.url(),
                self.uri(),
                self.phase(),
                reply,
                answer.deep_view(),
            ),
            r matches Next::Send { url, authorization, exchange } ==> exchange.url() == url@,
    {
        match self.stage(reply, answer) {
            Stage::Send { url, authorization, exchange } => Next::Send {
                url,
                authorization,
                exchange,
            },
            Stage::Deliver { body } => Next::Done(interpret_batch::<T>(body.as_slice())),
            Stage::Fail { error } => Next::Done(Err(error)),
        }
    }

    /// Takes what came back for the request that was sent last, in a call
    /// whose answer is read in union mode. `cnonce` is the client nonce for
    /// an answer to a challenge, which the caller draws afresh for each call.
    pub fn on_reply<T: Record>(
        self,
        reply: Result<Reply, TransportError>,
        credentials: &DigestCredentials,
        cnonce: &str,
    ) -> (r: Next<T>)
        ensures
            r.deep_view() == continued::<T>(
                self.url(),
                self.uri(),
                self.phase(),
                reply,
                authorization_for(challenge_of(reply), *credentials, self.uri(), cnonce@),
            ),
            r matches Next::Send { url, authorization, exchange } ==> exchange.url() == url@,
    {
        let answer = self.answer_to(&reply, credentials, cnonce);
        self.resume::<T>(reply, answer)
    }

    /// Takes what came back for the request that was sent last, in a call
    /// whose answer is read as a positional batch.
    pub fn on_batch_reply<T: Record>(
        self,
        reply: Result<Reply, TransportError>,
        credentials: &DigestCredentials,
        cnonce: &str,
    ) -> (r: Next<PositionalBatch<T>>)
        ensures
            r.deep_view() == continued_batch::<T>(
                self.url(),
                self.uri(),
                self.phase(),
                reply,
                authorization_for(challenge_of(reply), *credentials, self.uri(), cnonce@),
            ),
            r matches Next::Send { url, authorization, exchange } ==> exchange.url() == url@,
    {
        let answer = self.answer_to(&reply, credentials, cnonce);
        self.resume_batch::<T>(reply, answer)
    }
}

/// A call sends at most two requests: what follows the reply to the
/// authorized request is the end of the call, whichever way the answer is
/// read.
pub proof fn second_reply_ends_the_call<V>(
    url: Seq<char>,
    uri: Seq<char>,
    reply: Result<Reply, TransportError>,
    answer: Option<Seq<char>>,
    read: spec_fn(Seq<u8>) -> Result<V, ClientErrorModel>,
)
    ensures
        followed(url, uri, Phase::AwaitingVerdict, reply, answer, read) is Done,
{
}

/// A failure of the transport ends the call, wherever it stands.
pub proof fn transport_failure_ends_the_call<V>(
    url: Seq<char>,
    uri: Seq<char>,
    phase: Phase,
    e: TransportError,
    answer: Option<Seq<char>>,
    read: spec_fn(Seq<u8>) -> Result<V, ClientErrorModel>,
)
    ensures
        followed(url, uri, phase, Err(e), answer, read) == NextModel::<V>::Done(
            Err(ClientErrorModel::ReqwestError(e.deep_view())),
        ),
{
}

/// A batch that is delivered and does not read ends the call with the
/// batch's own error: for an array that starts with a text and holds an
/// element that spells no `T`, a record mismatch at the first such element,
/// and no failure of the origin.
pub proof fn a_failing_batch_keeps_its_kind_to_the_end<T: Record>(
    body: Seq<u8>,
    items: Seq<JsonModel>,
)
    requires
        json_document(body) == Some(JsonModel::Array(items)),
    ensures
        items.len() == 0 ==> interpreted_batch::<T>(body) == Err::<
            BatchModel<T::V>,
            ClientErrorModel,
        >(ClientErrorModel::SerdeError(DecodeErrorModel::EmptyBatch)),
        items.len() > 0 && !(items[0] is Text) ==> interpreted_batch::<T>(body) == Err::<
            BatchModel<T::V>,
            ClientErrorModel,
        >(ClientErrorModel::SerdeError(DecodeErrorModel::InvalidMetadata)),
        items.len() > 0 && items[0] is Text && first_mismatch::<T>(items, 1) < items.len()
            ==> interpreted_batch::<T>(body) == Err::<BatchModel<T::V>, ClientErrorModel>(
            ClientErrorModel::SerdeError(
                DecodeErrorModel::RecordMismatch { index: first_mismatch::<T>(items, 1) },
            ),
        ),
{
}

} // verus!
