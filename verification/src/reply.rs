//! What each operation makes of the answer of the transport: stated as a function
//! of the answer, and computed by a function that takes the answer.

use crate::client::SurrealDbClient;
use crate::context::{
    decode_context, delete_context, describe, describe_key, describe_record, get_context,
    insert_context, insert_shape_context, insert_syntax_context, query_context,
};
use crate::envelope::{
    envelope_of_text, read_id, record_id, single_value, text_outcome, typed_outcome,
    DynamicSurrealResult, ReplyModel, SurrealResult, SurrealStatementReply,
};
use crate::error::{DecodeFailure, ErrorModel, SurrealDbError};
use crate::transport::Answer;
use vstd::prelude::*;

verus! {

/// An outcome with its error taken by its model.
pub open spec fn body_outcome(
    outcome: Result<Vec<u8>, SurrealDbError>,
) -> Result<Vec<u8>, ErrorModel> {
    match outcome {
        Ok(body) => Ok(body),
        Err(error) => Err(error@),
    }
}

/// An outcome with each side taken by its model.
pub open spec fn envelope_outcome(
    outcome: Result<DynamicSurrealResult, SurrealDbError>,
) -> Result<Seq<ReplyModel>, ErrorModel> {
    match outcome {
        Ok(envelope) => Ok(envelope@),
        Err(error) => Err(error@),
    }
}

/// What an operation that hands the body on makes of the transport's answer: the body
/// as it came, or the transport's error with what was asked for.
pub open spec fn body_answer(context: Seq<char>, outcome: Answer) -> Result<Vec<u8>, ErrorModel> {
    match outcome {
        Ok(body) => Ok(body),
        Err(cause) => Err(ErrorModel::ServerError(context, cause)),
    }
}

/// What an operation that decodes the body makes of the transport's answer: the
/// envelope that the body states, or the first thing that went wrong, with what was
/// asked for.
pub open spec fn envelope_answer(
    transport_context: Seq<char>,
    syntax_context: Seq<char>,
    shape_context: Seq<char>,
    outcome: Answer,
) -> Result<Seq<ReplyModel>, ErrorModel> {
    match outcome {
        Err(cause) => Err(ErrorModel::ServerError(transport_context, cause)),
        Ok(body) => match envelope_of_text(body@) {
            Ok(envelope) => Ok(envelope),
            Err(DecodeFailure::Json(cause)) => Err(
                ErrorModel::Other(syntax_context, DecodeFailure::Json(cause)),
            ),
            Err(DecodeFailure::Shape(fault)) => Err(
                ErrorModel::Other(shape_context, DecodeFailure::Shape(fault)),
            ),
        },
    }
}

pub open spec fn get_answer(
    table: Seq<char>,
    key: Seq<char>,
    outcome: Answer,
) -> Result<Vec<u8>, ErrorModel> {
    body_answer(get_context(table, key), outcome)
}

pub open spec fn delete_answer(
    table: Seq<char>,
    key: Option<Seq<char>>,
    outcome: Answer,
) -> Result<Vec<u8>, ErrorModel> {
    body_answer(delete_context(table, key), outcome)
}

pub open spec fn query_answer(query: Seq<char>, outcome: Answer) -> Result<Vec<u8>, ErrorModel> {
    body_answer(query_context(query), outcome)
}

pub open spec fn insert_answer(
    table: Seq<char>,
    key: Option<Seq<char>>,
    outcome: Answer,
) -> Result<Seq<ReplyModel>, ErrorModel> {
    envelope_answer(
        insert_context(table, key),
        insert_syntax_context(table, key),
        insert_shape_context(table, key),
        outcome,
    )
}

/// The identifier of the record that an insertion without a key stored: that of the
/// one value of the envelope.
pub open spec fn insert_for_id_answer(
    table: Seq<char>,
    outcome: Answer,
) -> Result<Seq<char>, ErrorModel> {
    match insert_answer(table, None, outcome) {
        Ok(envelope) => match single_value(envelope) {
            Ok(record) => record_id(record),
            Err(error) => Err(error),
        },
        Err(error) => Err(error),
    }
}

/// A query has one context for whatever goes wrong in decoding.
pub open spec fn query_dynamic_single_answer(
    query: Seq<char>,
    outcome: Answer,
) -> Result<Seq<ReplyModel>, ErrorModel> {
    envelope_answer(query_context(query), decode_context(query), decode_context(query), outcome)
}

/// What a typed query makes of a decoded body: the reply of the last statement, or
/// the decoder's error with the text of the query.
pub open spec fn query_single_answer<T>(
    query: Seq<char>,
    decoded: Result<SurrealResult<T>, serde_json::Error>,
) -> Result<SurrealStatementReply<T>, ErrorModel> {
    match decoded {
        Ok(envelope) => envelope.last(),
        Err(cause) => Err(ErrorModel::Other(decode_context(query), DecodeFailure::Json(cause))),
    }
}

impl SurrealDbClient {
    /// What `get` makes of the transport's answer.
    pub fn get_reply(
        table: &str,
        key: &str,
        outcome: Answer,
    ) -> (res: Result<Vec<u8>, SurrealDbError>)
        ensures
            body_outcome(res) == get_answer(table@, key@, outcome),
    {
        match outcome {
            Ok(body) => Ok(body),
            Err(cause) => Err(
                SurrealDbError::ServerError(
                    describe_record("Error getting table: ", table, " id: ", key),
                    cause,
                ),
            ),
        }
    }

    /// What `delete` makes of the transport's answer.
    pub fn delete_reply(
        table: &str,
        key: Option<&str>,
        outcome: Answer,
    ) -> (res: Result<Vec<u8>, SurrealDbError>)
        ensures
            body_outcome(res) == delete_answer(table@, key.deep_view(), outcome),
    {
        match outcome {
            Ok(body) => Ok(body),
            Err(cause) => Err(
                SurrealDbError::ServerError(
                    describe_key("Error getting table: ", table, " id: ", key),
                    cause,
                ),
            ),
        }
    }

    /// What `query` makes of the transport's answer.
    pub fn query_reply(query: &str, outcome: Answer) -> (res: Result<Vec<u8>, SurrealDbError>)
        ensures
            body_outcome(res) == query_answer(query@, outcome),
    {
        match outcome {
            Ok(body) => Ok(body),
            Err(cause) => Err(
                SurrealDbError::ServerError(describe("Error querying: ", query), cause),
            ),
        }
    }

    /// What `is_healthy` makes of the transport's answer: whether there is one.
    pub fn health_reply(outcome: &Answer) -> (healthy: bool)
        ensures
            healthy == (*outcome is Ok),
    {
        match outcome {
            Ok(_) => true,
            Err(_) => false,
        }
    }

    /// What `insert` makes of the transport's answer.
    pub fn insert_reply(
        table: &str,
        key: Option<&str>,
        outcome: Answer,
    ) -> (res: Result<DynamicSurrealResult, SurrealDbError>)
        ensures
            envelope_outcome(res) == insert_answer(table@, key.deep_view(), outcome),
    {
        match outcome {
            Err(cause) => Err(
                SurrealDbError::ServerError(
                    describe_key("Error querying table: ", table, " key: ", key),
                    cause,
                ),
            ),
            Ok(body) => match DynamicSurrealResult::from_slice(body.as_slice()) {
                Ok(envelope) => Ok(envelope),
                Err(DecodeFailure::Json(cause)) => Err(
                    SurrealDbError::Other(
                        describe_key(
                            "Error parsing json result from insert at table: ",
                            table,
                            " key: ",
                            key,
                        ),
                        DecodeFailure::Json(cause),
                    ),
                ),
                Err(DecodeFailure::Shape(fault)) => Err(
                    SurrealDbError::Other(
                        describe_key(
                            "Error interpreting json result from insert at table: ",
                            table,
                            " key: ",
                            key,
                        ),
                        DecodeFailure::Shape(fault),
                    ),
                ),
            },
        }
    }

    /// What `insert_for_id` makes of the transport's answer.
    pub fn insert_for_id_reply(
        table: &str,
        outcome: Answer,
    ) -> (res: Result<String, SurrealDbError>)
        ensures
            text_outcome(res) == insert_for_id_answer(table@, outcome),
    {
        match Self::insert_reply(table, None, outcome) {
            Err(error) => Err(error),
            Ok(envelope) => match envelope.take_single() {
                Err(error) => Err(error),
                Ok(record) => read_id(&record),
            },
        }
    }

    /// What `query_dynamic_single` makes of the transport's answer.
    pub fn query_dynamic_single_reply(
        query: &str,
        outcome: Answer,
    ) -> (res: Result<DynamicSurrealResult, SurrealDbError>)
        ensures
            envelope_outcome(res) == query_dynamic_single_answer(query@, outcome),
    {
        match Self::query_reply(query, outcome) {
            Err(error) => Err(error),
            Ok(body) => match DynamicSurrealResult::from_slice(body.as_slice()) {
                Ok(envelope) => Ok(envelope),
                Err(failure) => Err(
                    SurrealDbError::Other(describe("Error parsing json result: ", query), failure),
                ),
            },
        }
    }

    /// What `query_single` makes of a decoded body.
    pub fn query_single_reply<T>(
        query: &str,
        decoded: Result<SurrealResult<T>, serde_json::Error>,
    ) -> (res: Result<SurrealStatementReply<T>, SurrealDbError>)
        ensures
            typed_outcome(res) == query_single_answer(query@, decoded),
    {
        match decoded {
            Ok(envelope) => envelope.take_last(),
            Err(cause) => Err(
                SurrealDbError::Other(
                    describe("Error parsing json result: ", query),
                    DecodeFailure::Json(cause),
                ),
            ),
        }
    }
}

} // verus!
