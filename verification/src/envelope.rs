//! The reply envelope: one reply for each statement of a query, in the order of
//! the statements. Decoding it from a JSON document, and reducing it to one value.

use crate::error::{DecodeFailure, ErrorModel, ShapeFault, SurrealDbError, SurrealStatus};
use crate::json::{
    find_member, item_models, json_text, lemma_array_view, lemma_object_view, member_of,
    turn_round, DynamicValue, Json,
};
use vstd::prelude::*;
use vstd::string::StringExecFns;

verus! {

/// The mathematical model of one statement's reply: its status, and its rows where the
/// reply has any. No rows at all and an empty sequence of rows are different replies.
pub struct ReplyModel {
    pub status: SurrealStatus,
    pub result: Option<Seq<Json>>,
}

impl ReplyModel {
    /// The one value of the reply: the last of its rows. A reply that is not `OK` has
    /// none, whatever it holds.
    pub open spec fn first(self) -> Result<Json, ErrorModel> {
        if self.status != SurrealStatus::OK {
            Err(ErrorModel::NotOkStatus(self.status))
        } else {
            match self.result {
                None => Err(ErrorModel::NoResult),
                Some(rows) => if rows.len() == 0 {
                    Err(ErrorModel::EmptyResult)
                } else {
                    Ok(rows.last())
                },
            }
        }
    }
}

/// The reply that stands for a whole envelope: that of the last statement.
pub open spec fn last_reply(envelope: Seq<ReplyModel>) -> Result<ReplyModel, ErrorModel> {
    if envelope.len() == 0 {
        Err(ErrorModel::NoResult)
    } else {
        Ok(envelope.last())
    }
}

/// The one value of an envelope: the last row of the last statement.
pub open spec fn single_value(envelope: Seq<ReplyModel>) -> Result<Json, ErrorModel> {
    match last_reply(envelope) {
        Ok(reply) => reply.first(),
        Err(error) => Err(error),
    }
}

/// The identifier of a record: the text of its member `id`.
pub open spec fn record_id(record: Json) -> Result<Seq<char>, ErrorModel> {
    match record.member("id"@) {
        None => Err(ErrorModel::NoResult),
        Some(Json::Text(id)) => Ok(id),
        Some(_) => Err(ErrorModel::EmptyResult),
    }
}

/// The status that a member `status` states.
pub open spec fn decode_status(member: Option<Json>) -> Option<SurrealStatus> {
    match member {
        Some(Json::Text(text)) => if text == "OK"@ {
            Some(SurrealStatus::OK)
        } else if text == "ERR"@ {
            Some(SurrealStatus::ERR)
        } else {
            None
        },
        _ => None,
    }
}

/// The rows that a member `result` holds. A member that is missing or `null` holds none.
pub open spec fn decode_rows(member: Option<Json>) -> Result<Option<Seq<Json>>, ShapeFault> {
    match member {
        None => Ok(None),
        Some(Json::Null) => Ok(None),
        Some(Json::Array(rows)) => Ok(Some(rows)),
        Some(_) => Err(ShapeFault::BadResult),
    }
}

/// The reply that a JSON document states: an object with a `status` and, at will, a
/// `result`. Other members are passed over.
pub open spec fn decode_reply(document: Json) -> Result<ReplyModel, ShapeFault> {
    match document {
        Json::Object(members) => match decode_status(member_of(members, "status"@)) {
            None => Err(ShapeFault::BadStatus),
            Some(status) => match decode_rows(member_of(members, "result"@)) {
                Err(fault) => Err(fault),
                Ok(result) => Ok(ReplyModel { status, result }),
            },
        },
        _ => Err(ShapeFault::StatementNotAnObject),
    }
}

/// The replies that a sequence of documents states, in their order; the fault of the
/// first document that states none.
pub open spec fn decode_replies(documents: Seq<Json>) -> Result<Seq<ReplyModel>, ShapeFault>
    decreases documents.len(),
{
    if documents.len() == 0 {
        Ok(Seq::empty())
    } else {
        match decode_replies(documents.drop_last()) {
            Err(fault) => Err(fault),
            Ok(replies) => match decode_reply(documents.last()) {
                Err(fault) => Err(fault),
                Ok(reply) => Ok(replies.push(reply)),
            },
        }
    }
}

/// The envelope that a JSON document states: an array of replies.
pub open spec fn decode_envelope(document: Json) -> Result<Seq<ReplyModel>, ShapeFault> {
    match document {
        Json::Array(documents) => decode_replies(documents),
        _ => Err(ShapeFault::NotAnArray),
    }
}

/// A fault among the first documents is the fault of the whole sequence.
pub proof fn lemma_fault_stays(documents: Seq<Json>, n: int)
    requires
        0 <= n <= documents.len(),
        decode_replies(documents.take(n)) is Err,
    ensures
        decode_replies(documents) == decode_replies(documents.take(n)),
    decreases documents.len() - n,
{
    if n == documents.len() {
        assert(documents.take(n) =~= documents);
    } else {
        assert(documents.take(n + 1).drop_last() =~= documents.take(n));
        lemma_fault_stays(documents, n + 1);
    }
}

/// One statement's reply, with rows of any shape.
#[derive(Debug, PartialEq)]
pub struct DynamicSurrealStatementReply {
    pub status: SurrealStatus,
    pub result: Option<Vec<DynamicValue>>,
}

impl View for DynamicSurrealStatementReply {
    type V = ReplyModel;

    open spec fn view(&self) -> ReplyModel {
        ReplyModel {
            status: self.status,
            result: match self.result {
                Some(rows) => Some(item_models(rows@)),
                None => None,
            },
        }
    }
}

/// An outcome with each side taken by its model.
pub open spec fn value_outcome(
    outcome: Result<DynamicValue, SurrealDbError>,
) -> Result<Json, ErrorModel> {
    match outcome {
        Ok(value) => Ok(value@),
        Err(error) => Err(error@),
    }
}

/// An outcome with each side taken by its model.
pub open spec fn text_outcome(
    outcome: Result<String, SurrealDbError>,
) -> Result<Seq<char>, ErrorModel> {
    match outcome {
        Ok(text) => Ok(text@),
        Err(error) => Err(error@),
    }
}

/// An outcome with each side taken by its model.
pub open spec fn reply_outcome(
    outcome: Result<DynamicSurrealStatementReply, SurrealDbError>,
) -> Result<ReplyModel, ErrorModel> {
    match outcome {
        Ok(reply) => Ok(reply@),
        Err(error) => Err(error@),
    }
}

impl DynamicSurrealStatementReply {
    /// The one value of the reply. Where the reply has one row, that is the row; where
    /// it has several, it is the last of them.
    pub fn take_first(self) -> (res: Result<DynamicValue, SurrealDbError>)
        ensures
            value_outcome(res) == self@.first(),
    {
        if self.status != SurrealStatus::OK {
            return Err(SurrealDbError::NotOkStatus(self.status));
        }
        match self.result {
            None => Err(SurrealDbError::NoResult),
            Some(rows) => {
                let mut rows = rows;
                match rows.pop() {
                    Some(row) => Ok(row),
                    None => Err(SurrealDbError::EmptyResult),
                }
            },
        }
    }

    /// Reads the reply that a JSON document states.
    pub fn decode(
        document: DynamicValue,
    ) -> (res: Result<DynamicSurrealStatementReply, ShapeFault>)
        ensures
            match res {
                Ok(reply) => decode_reply(document@) == Ok::<ReplyModel, ShapeFault>(reply@),
                Err(fault) => decode_reply(document@) == Err::<ReplyModel, ShapeFault>(fault),
            },
    {
        match document {
            DynamicValue::Object(members) => {
                proof {
                    lemma_object_view(members);
                }
                let mut members = members;
                let status = match find_member(&members, "status") {
                    None => {
                        return Err(ShapeFault::BadStatus);
                    },
                    Some(at) => match &members[at].1 {
                        DynamicValue::Text(text) => {
                            if *text == String::from_str("OK") {
                                SurrealStatus::OK
                            } else if *text == String::from_str("ERR") {
                                SurrealStatus::ERR
                            } else {
                                return Err(ShapeFault::BadStatus);
                            }
                        },
                        _ => {
                            return Err(ShapeFault::BadStatus);
                        },
                    },
                };
                let result = match find_member(&members, "result") {
                    None => None,
                    Some(at) => match members.swap_remove(at).1 {
                        DynamicValue::Null => None,
                        DynamicValue::Array(rows) => {
                            proof {
                                lemma_array_view(rows);
                            }
                            Some(rows)
                        },
                        _ => {
                            return Err(ShapeFault::BadResult);
                        },
                    },
                };
                Ok(DynamicSurrealStatementReply { status, result })
            },
            _ => Err(ShapeFault::StatementNotAnObject),
        }
    }
}

/// Reads the identifier of a record: the text of its member `id`.
pub fn read_id(record: &DynamicValue) -> (res: Result<String, SurrealDbError>)
    ensures
        text_outcome(res) == record_id(record@),
{
    match record.get("id") {
        None => Err(SurrealDbError::NoResult),
        Some(id) => match id.as_str() {
            None => Err(SurrealDbError::EmptyResult),
            Some(text) => Ok(text.to_owned()),
        },
    }
}

/// The replies of a query, one for each statement, in the order of the statements.
#[derive(Debug, PartialEq)]
pub struct DynamicSurrealResult(pub Vec<DynamicSurrealStatementReply>);

impl View for DynamicSurrealResult {
    type V = Seq<ReplyModel>;

    open spec fn view(&self) -> Seq<ReplyModel> {
        Seq::new(self.0@.len(), |i: int| self.0@[i]@)
    }
}

impl DynamicSurrealResult {
    /// The reply that stands for the whole envelope. Where the query had one statement,
    /// that is its reply; where it had several, it is the reply of the last of them.
    pub fn take_first(self) -> (res: Result<DynamicSurrealStatementReply, SurrealDbError>)
        ensures
            reply_outcome(res) == last_reply(self@),
    {
        let mut replies = self.0;
        match replies.pop() {
            Some(reply) => Ok(reply),
            None => Err(SurrealDbError::NoResult),
        }
    }

    /// The one value of the envelope: the last row of the last statement.
    pub fn take_single(self) -> (res: Result<DynamicValue, SurrealDbError>)
        ensures
            value_outcome(res) == single_value(self@),
    {
        match self.take_first() {
            Ok(reply) => reply.take_first(),
            Err(error) => Err(error),
        }
    }

    /// Reads the envelope that a JSON document states.
    pub fn decode(document: DynamicValue) -> (res: Result<DynamicSurrealResult, ShapeFault>)
        ensures
            match res {
                Ok(envelope) => decode_envelope(document@) == Ok::<Seq<ReplyModel>, ShapeFault>(
                    envelope@,
                ),
                Err(fault) => decode_envelope(document@) == Err::<Seq<ReplyModel>, ShapeFault>(
                    fault,
                ),
            },
    {
        match document {
            DynamicValue::Array(items) => {
                proof {
                    lemma_array_view(items);
                }
                let ghost documents = item_models(items@);
                let mut rest = turn_round(items);
                let mut replies: Vec<DynamicSurrealStatementReply> = Vec::new();
                assert(DynamicSurrealResult(replies)@ =~= Seq::<ReplyModel>::empty());
                while rest.len() > 0
                    invariant
                        document@ == Json::Array(documents),
                        documents == item_models(items@),
                        rest@.len() + replies@.len() == items@.len(),
                        forall|i: int|
                            0 <= i < rest@.len() ==> rest@[i] == items@[items@.len() - 1 - i],
                        decode_replies(documents.take(replies@.len() as int)) == Ok::<
                            Seq<ReplyModel>,
                            ShapeFault,
                        >(DynamicSurrealResult(replies)@),
                    decreases rest@.len(),
                {
                    let ghost done = replies@.len() as int;
                    let item = rest.pop().unwrap();
                    assert(documents.take(done + 1).drop_last() =~= documents.take(done));
                    match DynamicSurrealStatementReply::decode(item) {
                        Ok(reply) => {
                            let ghost before = DynamicSurrealResult(replies)@;
                            replies.push(reply);
                            assert(DynamicSurrealResult(replies)@ =~= before.push(reply@));
                        },
                        Err(fault) => {
                            proof {
                                lemma_fault_stays(documents, done + 1);
                            }
                            return Err(fault);
                        },
                    }
                }
                assert(documents.take(replies@.len() as int) =~= documents);
                Ok(DynamicSurrealResult(replies))
            },
            _ => Err(ShapeFault::NotAnArray),
        }
    }
}

/// What reading a JSON text as an envelope comes to: the envelope that the document
/// states; where the text is JSON and states none, the fault; where it is no JSON,
/// the parser's error.
pub open spec fn envelope_of_text(text: Seq<u8>) -> Result<Seq<ReplyModel>, DecodeFailure> {
    match json_text(text) {
        Err(cause) => Err(DecodeFailure::Json(cause)),
        Ok(document) => match decode_envelope(document) {
            Ok(envelope) => Ok(envelope),
            Err(fault) => Err(DecodeFailure::Shape(fault)),
        },
    }
}

impl DynamicSurrealResult {
    /// Reads the body of a response: a JSON text that states an envelope.
    pub fn from_slice(text: &[u8]) -> (res: Result<DynamicSurrealResult, DecodeFailure>)
        ensures
            match res {
                Ok(envelope) => envelope_of_text(text@) == Ok::<Seq<ReplyModel>, DecodeFailure>(
                    envelope@,
                ),
                Err(failure) => envelope_of_text(text@) == Err::<Seq<ReplyModel>, DecodeFailure>(
                    failure,
                ),
            },
    {
        match DynamicValue::parse(text) {
            Err(cause) => Err(DecodeFailure::Json(cause)),
            Ok(document) => match DynamicSurrealResult::decode(document) {
                Ok(envelope) => Ok(envelope),
                Err(fault) => Err(DecodeFailure::Shape(fault)),
            },
        }
    }
}

/// One statement's reply, with rows of the caller's record type.
#[derive(Debug)]
pub struct SurrealStatementReply<T> {
    pub status: SurrealStatus,
    pub result: Vec<T>,
}

/// The replies of a query, with rows of the caller's record type.
#[derive(Debug)]
pub struct SurrealResult<T>(pub Vec<SurrealStatementReply<T>>);

/// An outcome with its error taken by its model.
pub open spec fn typed_outcome<T>(
    outcome: Result<SurrealStatementReply<T>, SurrealDbError>,
) -> Result<SurrealStatementReply<T>, ErrorModel> {
    match outcome {
        Ok(reply) => Ok(reply),
        Err(error) => Err(error@),
    }
}

impl<T> SurrealResult<T> {
    /// The reply that stands for the whole envelope: that of the last statement.
    pub open spec fn last(self) -> Result<SurrealStatementReply<T>, ErrorModel> {
        if self.0@.len() == 0 {
            Err(ErrorModel::EmptyResult)
        } else {
            Ok(self.0@.last())
        }
    }

    /// The reply that stands for the whole envelope: that of the last statement.
    pub fn take_last(self) -> (res: Result<SurrealStatementReply<T>, SurrealDbError>)
        ensures
            typed_outcome(res) == self.last(),
    {
        let mut replies = self.0;
        match replies.pop() {
            Some(reply) => Ok(reply),
            None => Err(SurrealDbError::EmptyResult),
        }
    }
}

} // verus!
