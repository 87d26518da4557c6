//! Decoding a response body: a single record, the union of a success and a
//! failure shape, and the positional batch, alone or with the failure shape
//! beside it.

use vstd::prelude::*;
use crate::error::{ClientError, DecodeError, DecodeErrorModel, MpkError, MpkErrorModel};
use crate::fields::{first_mismatch, first_mismatch_is_least, read_records, records_from, Record};
use crate::json::{array_model, json_document, read_document, Json, JsonModel};

verus! {

/// How many bytes of a body a [`DecodeError::SchemaMismatch`] keeps.
pub const SNIPPET_LIMIT: usize = 64;

/// The first [`SNIPPET_LIMIT`] bytes of `body`; all of it where it is shorter.
pub open spec fn snippet_of(body: Seq<u8>) -> Seq<u8> {
    if body.len() <= SNIPPET_LIMIT {
        body
    } else {
        body.take(SNIPPET_LIMIT as int)
    }
}

/// Copies the first [`SNIPPET_LIMIT`] bytes of `body`.
pub fn snippet(body: &[u8]) -> (r: Vec<u8>)
    ensures
        r@ == snippet_of(body@),
{
    let end: usize = if body.len() <= SNIPPET_LIMIT {
        body.len()
    } else {
        SNIPPET_LIMIT
    };
    let mut out: Vec<u8> = Vec::new();
    let mut i: usize = 0;
    while i < end
        invariant
            i <= end <= body.len(),
            out@ == body@.take(i as int),
        decreases end - i,
    {
        out.push(body[i]);
        assert(body@.take(i as int).push(body@[i as int]) =~= body@.take(i as int + 1));
        i += 1;
    }
    assert(body@.take(body.len() as int) =~= body@);
    out
}

/// The value of a decoding's outcome.
pub open spec fn outcome_model<T: DeepView>(r: Result<T, DecodeError>) -> Result<
    T::V,
    DecodeErrorModel,
> {
    match r {
        Ok(x) => Ok(x.deep_view()),
        Err(e) => Err(e.deep_view()),
    }
}

/// The answer of the origin: what was asked for, or the failure that the
/// origin reports instead.
#[derive(Clone, Debug, PartialEq, Eq)]
pub enum ResponseEnvelope<T> {
    Success(T),
    ApiFailure(MpkError),
}

/// The mathematical value of a [`ResponseEnvelope`].
pub enum EnvelopeModel<V> {
    Success(V),
    ApiFailure(MpkErrorModel),
}

impl<T: DeepView> DeepView for ResponseEnvelope<T> {
    type V = EnvelopeModel<T::V>;

    open spec fn deep_view(&self) -> EnvelopeModel<T::V> {
        match self {
            ResponseEnvelope::Success(x) => EnvelopeModel::Success(x.deep_view()),
            ResponseEnvelope::ApiFailure(e) => EnvelopeModel::ApiFailure(e.deep_view()),
        }
    }
}

impl<T: Record> Record for ResponseEnvelope<T> {
    /// The success shape goes first: a document that spells a `T` is a
    /// success, whatever else it spells. One that spells no `T` but a failure
    /// is that failure.
    open spec fn spec_from(j: JsonModel) -> Option<EnvelopeModel<T::V>> {
        match T::spec_from(j) {
            Some(x) => Some(EnvelopeModel::Success(x)),
            None => match MpkError::spec_from(j) {
                Some(e) => Some(EnvelopeModel::ApiFailure(e)),
                None => None,
            },
        }
    }

    fn from_json(j: &Json) -> (r: Option<ResponseEnvelope<T>>) {
        let out = match T::from_json(j) {
            Some(x) => Some(ResponseEnvelope::Success(x)),
            None => match MpkError::from_json(j) {
                Some(e) => Some(ResponseEnvelope::ApiFailure(e)),
                None => None,
            },
        };
        assert(out.deep_view() == Self::spec_from(j@));
        out
    }
}

impl<T> ResponseEnvelope<T> {
    /// Turns a reported failure into the error of the call.
    pub fn into_result(self) -> (r: Result<T, ClientError>)
        ensures
            match self {
                ResponseEnvelope::Success(x) => r == Ok::<T, ClientError>(x),
                ResponseEnvelope::ApiFailure(e) => r == Err::<T, ClientError>(
                    ClientError::MpkError(e),
                ),
            },
    {
        match self {
            ResponseEnvelope::Success(x) => Ok(x),
            ResponseEnvelope::ApiFailure(e) => Err(ClientError::MpkError(e)),
        }
    }
}

/// What decoding `body` as a `T` gives, where `document` is what the body
/// reads as: the record that the document spells, or a schema mismatch.
pub open spec fn decoded_record<T: Record>(document: Option<JsonModel>, body: Seq<u8>) -> Result<
    T::V,
    DecodeErrorModel,
> {
    match document {
        Some(j) => match T::spec_from(j) {
            Some(x) => Ok(x),
            None => Err(DecodeErrorModel::SchemaMismatch { snippet: snippet_of(body) }),
        },
        None => Err(DecodeErrorModel::SchemaMismatch { snippet: snippet_of(body) }),
    }
}

/// Decodes a `T` from a body that has been read as `document`.
pub fn record_from_document<T: Record>(document: &Option<Json>, body: &[u8]) -> (r: Result<
    T,
    DecodeError,
>)
    ensures
        outcome_model(r) == decoded_record::<T>(document.deep_view(), body@),
{
    match document {
        Some(j) => match T::from_json(j) {
            Some(x) => Ok(x),
            None => Err(DecodeError::SchemaMismatch { snippet: snippet(body) }),
        },
        None => Err(DecodeError::SchemaMismatch { snippet: snippet(body) }),
    }
}

/// Decodes `body` as a `T`.
pub fn decode_record<T: Record>(body: &[u8]) -> (r: Result<T, DecodeError>)
    ensures
        outcome_model(r) == decoded_record::<T>(json_document(body@), body@),
{
    let document = read_document(body);
    record_from_document::<T>(&document, body)
}

/// What decoding `body` in union mode gives: a success where the document
/// spells a `T`, else the failure that it spells, else a schema mismatch.
pub open spec fn decoded_union<T: Record>(document: Option<JsonModel>, body: Seq<u8>) -> Result<
    EnvelopeModel<T::V>,
    DecodeErrorModel,
> {
    decoded_record::<ResponseEnvelope<T>>(document, body)
}

/// Decodes `body` in union mode.
pub fn decode_union<T: Record>(body: &[u8]) -> (r: Result<ResponseEnvelope<T>, DecodeError>)
    ensures
        outcome_model(r) == decoded_union::<T>(json_document(body@), body@),
{
    decode_record::<ResponseEnvelope<T>>(body)
}

/// Union mode goes by shape, the success shape first: a document that
/// spells a `T` is a success; one that spells none, but a failure, is that
/// failure; one that spells neither, and a body that is no document, is a
/// schema mismatch that carries the start of the body.
pub proof fn union_goes_by_shape<T: Record>(document: Option<JsonModel>, body: Seq<u8>)
    ensures
        document is Some && T::spec_from(document->0) is Some ==> decoded_union::<T>(document, body)
            == Ok::<EnvelopeModel<T::V>, DecodeErrorModel>(
            EnvelopeModel::Success(T::spec_from(document->0)->0),
        ),
        document is Some && T::spec_from(document->0) is None && MpkError::spec_from(document->0)
            is Some ==> decoded_union::<T>(document, body) == Ok::<
            EnvelopeModel<T::V>,
            DecodeErrorModel,
        >(EnvelopeModel::ApiFailure(MpkError::spec_from(document->0)->0)),
        document is None || (T::spec_from(document->0) is None && MpkError::spec_from(document->0)
            is None) ==> decoded_union::<T>(document, body) == Err::<
            EnvelopeModel<T::V>,
            DecodeErrorModel,
        >(DecodeErrorModel::SchemaMismatch { snippet: snippet_of(body) }),
{
}

/// Decoding has no memory: two decodings of one body end in equal values,
/// whatever was decoded between them.
pub proof fn decoding_is_repeatable<T: Record>(
    body: Seq<u8>,
    first: Result<T, DecodeError>,
    second: Result<T, DecodeError>,
)
    requires
        outcome_model(first) == decoded_record::<T>(json_document(body), body),
        outcome_model(second) == decoded_record::<T>(json_document(body), body),
    ensures
        outcome_model(first) == outcome_model(second),
{
}

/// A positional batch: a leading text and the records that follow it.
#[derive(Clone, Debug, PartialEq, Eq)]
pub struct PositionalBatch<T> {
    pub metadata: String,
    pub records: Vec<T>,
}

/// The mathematical value of a [`PositionalBatch`].
pub struct BatchModel<V> {
    pub metadata: Seq<char>,
    pub records: Seq<V>,
}

impl<T: DeepView> DeepView for PositionalBatch<T> {
    type V = BatchModel<T::V>;

    open spec fn deep_view(&self) -> BatchModel<T::V> {
        BatchModel { metadata: self.metadata@, records: self.records.deep_view() }
    }
}

/// What reading `j` as a positional batch of `T` gives. An array is asked
/// for; it must not be empty; its first element must be a text; and every
/// later element must spell a `T`, the first that does not being reported by
/// its index in the array.
pub open spec fn batch_of<T: Record>(j: JsonModel) -> Option<
    Result<BatchModel<T::V>, DecodeErrorModel>,
> {
    match j {
        JsonModel::Array(items) => Some(
            if items.len() == 0 {
                Err(DecodeErrorModel::EmptyBatch)
            } else {
                match items[0] {
                    JsonModel::Text(metadata) => {
                        let stop = first_mismatch::<T>(items, 1);
                        if stop < items.len() {
                            Err(DecodeErrorModel::RecordMismatch { index: stop })
                        } else {
                            Ok(BatchModel { metadata, records: records_from::<T>(items, 1) })
                        }
                    },
                    _ => Err(DecodeErrorModel::InvalidMetadata),
                }
            },
        ),
        _ => None,
    }
}

/// Reads `j` as a positional batch of `T`; `None` where `j` is no array.
pub fn read_batch<T: Record>(j: &Json) -> (r: Option<Result<PositionalBatch<T>, DecodeError>>)
    ensures
        match r {
            Some(outcome) => batch_of::<T>(j@) == Some(outcome_model(outcome)),
            None => batch_of::<T>(j@) is None,
        },
{
    match j {
        Json::Array(items) => {
            proof {
                array_model(*items);
            }
            if items.len() == 0 {
                return Some(Err(DecodeError::EmptyBatch));
            }
            match &items[0] {
                Json::Text(metadata) => match read_records::<T>(items, 1) {
                    Ok(records) => Some(
                        Ok(PositionalBatch { metadata: metadata.clone(), records }),
                    ),
                    Err(index) => Some(Err(DecodeError::RecordMismatch { index })),
                },
                _ => Some(Err(DecodeError::InvalidMetadata)),
            }
        },
        _ => None,
    }
}

/// What decoding `body` in positional-batch mode gives, where `document` is
/// what the body reads as. A body that is no JSON array is a schema mismatch.
pub open spec fn decoded_batch<T: Record>(document: Option<JsonModel>, body: Seq<u8>) -> Result<
    BatchModel<T::V>,
    DecodeErrorModel,
> {
    match document {
        Some(j) => match batch_of::<T>(j) {
            Some(outcome) => outcome,
            None => Err(DecodeErrorModel::SchemaMismatch { snippet: snippet_of(body) }),
        },
        None => Err(DecodeErrorModel::SchemaMismatch { snippet: snippet_of(body) }),
    }
}

/// Decodes a positional batch from a body that has been read as `document`.
pub fn batch_from_document<T: Record>(document: &Option<Json>, body: &[u8]) -> (r: Result<
    PositionalBatch<T>,
    DecodeError,
>)
    ensures
        outcome_model(r) == decoded_batch::<T>(document.deep_view(), body@),
{
    match document {
        Some(j) => match read_batch::<T>(j) {
            Some(outcome) => outcome,
            None => Err(DecodeError::SchemaMismatch { snippet: snippet(body) }),
        },
        None => Err(DecodeError::SchemaMismatch { snippet: snippet(body) }),
    }
}

/// Decodes `body` in positional-batch mode.
pub fn decode_batch<T: Record>(body: &[u8]) -> (r: Result<PositionalBatch<T>, DecodeError>)
    ensures
        outcome_model(r) == decoded_batch::<T>(json_document(body@), body@),
{
    let document = read_document(body);
    batch_from_document::<T>(&document, body)
}

/// What decoding `body` as a positional batch or a reported failure gives.
/// The batch goes first. Where the batch does not read, a document that
/// spells a failure is that failure. Where it spells none either, the error
/// is the batch's own: its kind and index for an array, a schema mismatch for
/// anything else.
pub open spec fn decoded_batch_union<T: Record>(
    document: Option<JsonModel>,
    body: Seq<u8>,
) -> Result<EnvelopeModel<BatchModel<T::V>>, DecodeErrorModel> {
    match decoded_batch::<T>(document, body) {
        Ok(batch) => Ok(EnvelopeModel::Success(batch)),
        Err(e) => match document {
            Some(j) => match MpkError::spec_from(j) {
                Some(failure) => Ok(EnvelopeModel::ApiFailure(failure)),
                None => Err(e),
            },
            None => Err(e),
        },
    }
}

/// Decodes a positional batch or a reported failure from a body that has
/// been read as `document`.
pub fn batch_union_from_document<T: Record>(document: &Option<Json>, body: &[u8]) -> (r: Result<
    ResponseEnvelope<PositionalBatch<T>>,
    DecodeError,
>)
    ensures
        outcome_model(r) == decoded_batch_union::<T>(document.deep_view(), body@),
{
    match batch_from_document::<T>(document, body) {
        Ok(batch) => Ok(ResponseEnvelope::Success(batch)),
        Err(e) => match document {
            Some(j) => match MpkError::from_json(j) {
                Some(failure) => Ok(ResponseEnvelope::ApiFailure(failure)),
                None => Err(e),
            },
            None => Err(e),
        },
    }
}

/// Decodes `body` as a positional batch or a reported failure.
pub fn decode_batch_union<T: Record>(body: &[u8]) -> (r: Result<
    ResponseEnvelope<PositionalBatch<T>>,
    DecodeError,
>)
    ensures
        outcome_model(r) == decoded_batch_union::<T>(json_document(body@), body@),
{
    let document = read_document(body);
    batch_union_from_document::<T>(&document, body)
}

/// An array spells no failure, so a batch that does not read keeps its own
/// error: an empty array is an empty batch, an array that does not start
/// with a text has invalid metadata, and an array with an element that spells
/// no `T` is refused at the first such element.
pub proof fn a_failing_batch_keeps_its_kind<T: Record>(items: Seq<JsonModel>, body: Seq<u8>)
    ensures
        decoded_batch::<T>(Some(JsonModel::Array(items)), body) is Err ==> decoded_batch_union::<T>(
            Some(JsonModel::Array(items)),
            body,
        ) == Err::<EnvelopeModel<BatchModel<T::V>>, DecodeErrorModel>(
            decoded_batch::<T>(Some(JsonModel::Array(items)), body)->Err_0,
        ),
        items.len() == 0 ==> decoded_batch_union::<T>(Some(JsonModel::Array(items)), body) == Err::<
            EnvelopeModel<BatchModel<T::V>>,
            DecodeErrorModel,
        >(DecodeErrorModel::EmptyBatch),
        items.len() > 0 && !(items[0] is Text) ==> decoded_batch_union::<T>(
            Some(JsonModel::Array(items)),
            body,
        ) == Err::<EnvelopeModel<BatchModel<T::V>>, DecodeErrorModel>(
            DecodeErrorModel::InvalidMetadata,
        ),
        items.len() > 0 && items[0] is Text && first_mismatch::<T>(items, 1) < items.len()
            ==> decoded_batch_union::<T>(Some(JsonModel::Array(items)), body) == Err::<
            EnvelopeModel<BatchModel<T::V>>,
            DecodeErrorModel,
        >(DecodeErrorModel::RecordMismatch { index: first_mismatch::<T>(items, 1) }),
{
}

/// Two decodings of one body as a positional batch end in equal values.
pub proof fn batch_decoding_is_repeatable<T: Record>(
    body: Seq<u8>,
    first: Result<PositionalBatch<T>, DecodeError>,
    second: Result<PositionalBatch<T>, DecodeError>,
)
    requires
        outcome_model(first) == decoded_batch::<T>(json_document(body), body),
        outcome_model(second) == decoded_batch::<T>(json_document(body), body),
    ensures
        outcome_model(first) == outcome_model(second),
{
}

/// A batch whose every element after the first spells a `T` holds as many
/// records as there are such elements, in their order.
pub proof fn batch_keeps_every_record<T: Record>(items: Seq<JsonModel>, body: Seq<u8>)
    requires
        items.len() > 0,
        items[0] is Text,
        forall|i: int| 1 <= i < items.len() ==> (#[trigger] T::spec_from(items[i])) is Some,
    ensures
        decoded_batch::<T>(Some(JsonModel::Array(items)), body) is Ok,
        decoded_batch::<T>(Some(JsonModel::Array(items)), body)->Ok_0.metadata
            == items[0]->Text_0,
        decoded_batch::<T>(Some(JsonModel::Array(items)), body)->Ok_0.records.len() == items.len()
            - 1,
        forall|k: int|
            0 <= k < items.len() - 1 ==> Some(
                #[trigger] decoded_batch::<T>(
                    Some(JsonModel::Array(items)),
                    body,
                )->Ok_0.records[k],
            ) == T::spec_from(items[k + 1]),
{
    first_mismatch_is_least::<T>(items, 1);
}

/// A batch is refused at the first element, after the leading text, that
/// spells no `T`, however many follow it.
pub proof fn batch_stops_at_the_first_mismatch<T: Record>(
    items: Seq<JsonModel>,
    body: Seq<u8>,
    at: int,
)
    requires
        1 <= at < items.len(),
        items[0] is Text,
        T::spec_from(items[at]) is None,
        forall|i: int| 1 <= i < at ==> (#[trigger] T::spec_from(items[i])) is Some,
    ensures
        decoded_batch::<T>(Some(JsonModel::Array(items)), body) == Err::<
            BatchModel<T::V>,
            DecodeErrorModel,
        >(DecodeErrorModel::RecordMismatch { index: at }),
{
    first_mismatch_is_least::<T>(items, 1);
    let stop = first_mismatch::<T>(items, 1);
    if stop < at {
        assert(T::spec_from(items[stop]) is Some);
    }
    if stop > at {
        assert(T::spec_from(items[at]) is Some);
    }
}

} // verus!
