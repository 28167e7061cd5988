//! What holds of every envelope and of every record, whatever the server sends.

use crate::client::ClientModel;
use crate::envelope::{
    decode_envelope, decode_replies, decode_reply, decode_rows, record_id, single_value,
    ReplyModel,
};
use crate::error::{ErrorModel, ShapeFault, SurrealStatus};
use crate::json::{json_text, member_of, Json};
use crate::reply::{insert_answer, insert_for_id_answer, query_dynamic_single_answer};
use crate::transport::{exchanged, Answer, HttpRequest, RequestModel};
use vstd::prelude::*;

verus! {

/// An envelope holds one reply for each document of the array, in the order of the
/// documents.
pub proof fn law_replies_keep_order(documents: Seq<Json>)
    requires
        decode_replies(documents) is Ok,
    ensures
        decode_replies(documents)->Ok_0.len() == documents.len(),
        forall|i: int|
            0 <= i < documents.len() ==> decode_reply(#[trigger] documents[i]) == Ok::<
                ReplyModel,
                ShapeFault,
            >(decode_replies(documents)->Ok_0[i]),
    decreases documents.len(),
{
    if documents.len() > 0 {
        law_replies_keep_order(documents.drop_last());
        assert forall|i: int| 0 <= i < documents.len() implies decode_reply(
            #[trigger] documents[i],
        ) == Ok::<ReplyModel, ShapeFault>(decode_replies(documents)->Ok_0[i]) by {
            if i < documents.len() - 1 {
                assert(documents.drop_last()[i] == documents[i]);
            }
        }
    }
}

/// A document of one statement with status `OK` and one row states an envelope whose
/// one value is that row.
pub proof fn law_single_row_document(members: Seq<(Seq<char>, Json)>, row: Json)
    requires
        member_of(members, "status"@) == Some(Json::Text("OK"@)),
        member_of(members, "result"@) == Some(Json::Array(seq![row])),
    ensures
        decode_envelope(Json::Array(seq![Json::Object(members)])) matches Ok(envelope)
            && single_value(envelope) == Ok::<Json, ErrorModel>(row),
{
    let documents = seq![Json::Object(members)];
    assert(decode_replies(documents.drop_last()) == Ok::<Seq<ReplyModel>, ShapeFault>(
        Seq::empty(),
    ));
}

/// A document of one statement with status `ERR` states an envelope that has no
/// value: asking for one fails with that status, whatever the statement holds.
pub proof fn law_failed_statement_document(members: Seq<(Seq<char>, Json)>)
    requires
        member_of(members, "status"@) == Some(Json::Text("ERR"@)),
        decode_rows(member_of(members, "result"@)) is Ok,
    ensures
        decode_envelope(Json::Array(seq![Json::Object(members)])) matches Ok(envelope)
            && single_value(envelope) == Err::<Json, ErrorModel>(
            ErrorModel::NotOkStatus(SurrealStatus::ERR),
        ),
{
    reveal_strlit("OK");
    reveal_strlit("ERR");
    assert("ERR"@.len() != "OK"@.len());
    let documents = seq![Json::Object(members)];
    assert(decode_replies(documents.drop_last()) == Ok::<Seq<ReplyModel>, ShapeFault>(
        Seq::empty(),
    ));
}

/// Where the body of the response to a query is the text of one statement with status
/// `OK` and one row, the dynamic query answers with an envelope whose one value is
/// that row.
pub proof fn law_single_row_query(
    query: Seq<char>,
    body: Vec<u8>,
    members: Seq<(Seq<char>, Json)>,
    row: Json,
)
    requires
        json_text(body@) == Ok::<Json, serde_json::Error>(
            Json::Array(seq![Json::Object(members)]),
        ),
        member_of(members, "status"@) == Some(Json::Text("OK"@)),
        member_of(members, "result"@) == Some(Json::Array(seq![row])),
    ensures
        query_dynamic_single_answer(query, Ok(body)) matches Ok(envelope) && single_value(
            envelope,
        ) == Ok::<Json, ErrorModel>(row),
{
    law_single_row_document(members, row);
}

/// Where the body of the response to a query is the text of one statement with status
/// `ERR`, the dynamic query answers with an envelope, and asking it for its one value
/// fails with that status.
pub proof fn law_failed_statement_query(
    query: Seq<char>,
    body: Vec<u8>,
    members: Seq<(Seq<char>, Json)>,
)
    requires
        json_text(body@) == Ok::<Json, serde_json::Error>(
            Json::Array(seq![Json::Object(members)]),
        ),
        member_of(members, "status"@) == Some(Json::Text("ERR"@)),
        decode_rows(member_of(members, "result"@)) is Ok,
    ensures
        query_dynamic_single_answer(query, Ok(body)) matches Ok(envelope) && single_value(
            envelope,
        ) == Err::<Json, ErrorModel>(ErrorModel::NotOkStatus(SurrealStatus::ERR)),
{
    law_failed_statement_document(members);
}

/// A statement that is not `OK` has no value, whatever it holds: asking for one fails
/// with its status.
pub proof fn law_failed_statement_has_no_value(reply: ReplyModel)
    requires
        reply.status != SurrealStatus::OK,
    ensures
        reply.first() == Err::<Json, ErrorModel>(ErrorModel::NotOkStatus(reply.status)),
{
}

/// A statement without a `result` and one with an empty `result` fail apart: the
/// first with `NoResult`, the second with `EmptyResult`.
pub proof fn law_absent_is_not_empty()
    ensures
        (ReplyModel { status: SurrealStatus::OK, result: None }).first() == Err::<
            Json,
            ErrorModel,
        >(ErrorModel::NoResult),
        (ReplyModel { status: SurrealStatus::OK, result: Some(Seq::empty()) }).first() == Err::<
            Json,
            ErrorModel,
        >(ErrorModel::EmptyResult),
        ErrorModel::NoResult != ErrorModel::EmptyResult,
{
}

/// The one value of an envelope is decided by its last statement alone: the
/// statements before it, failed or not, have no part in it.
pub proof fn law_last_statement_decides(earlier: Seq<ReplyModel>, last: ReplyModel)
    ensures
        single_value(earlier.push(last)) == last.first(),
{
}

/// The one value of a statement with status `OK` is the last of its rows.
pub proof fn law_last_row_is_taken(earlier: Seq<Json>, last: Json)
    ensures
        (ReplyModel { status: SurrealStatus::OK, result: Some(earlier.push(last)) }).first()
            == Ok::<Json, ErrorModel>(last),
{
}

/// A record has an identifier exactly where its member `id` is a string. Where the
/// member is missing the error is `NoResult`, where it is no string `EmptyResult`.
pub proof fn law_identifier_is_text(record: Json)
    ensures
        record_id(record) is Ok <==> (record.member("id"@) matches Some(Json::Text(_))),
        record.member("id"@) is None ==> record_id(record) == Err::<Seq<char>, ErrorModel>(
            ErrorModel::NoResult,
        ),
        record.member("id"@) is Some && !(record.member("id"@) matches Some(Json::Text(_)))
            ==> record_id(record) == Err::<Seq<char>, ErrorModel>(ErrorModel::EmptyResult),
{
}

/// An insertion whose record comes back without a string under `id` fails with
/// `NoResult` or `EmptyResult`: it returns no identifier.
pub proof fn law_insert_needs_identifier(
    table: Seq<char>,
    outcome: Answer,
    record: Json,
)
    requires
        insert_answer(table, None, outcome) matches Ok(envelope) && single_value(envelope) == Ok::<
            Json,
            ErrorModel,
        >(record),
        !(record.member("id"@) matches Some(Json::Text(_))),
    ensures
        insert_for_id_answer(table, outcome) == Err::<Seq<char>, ErrorModel>(ErrorModel::NoResult)
            || insert_for_id_answer(table, outcome) == Err::<Seq<char>, ErrorModel>(
            ErrorModel::EmptyResult,
        ),
{
}

/// A record has one address: reading, storing and deleting under a key ask for the
/// same URL, which is the address of the table, a slash and the key. Deleting
/// without a key asks for the address of the table itself.
pub proof fn law_one_address_per_record(
    client: ClientModel,
    table: Seq<char>,
    key: Seq<char>,
    value: Seq<u8>,
)
    ensures
        client.get_request(table, key).url == client.key_url(table, None) + "/"@ + key,
        client.insert_request(table, Some(key), value).url == client.get_request(table, key).url,
        client.delete_request(table, Some(key)).url == client.get_request(table, key).url,
        client.delete_request(table, None).url == client.key_url(table, None),
{
}

/// The health check follows the transport alone: it fails with a transport that
/// always fails and passes with one that always answers, whatever the body.
pub proof fn law_health_follows_transport<F: FnOnce(HttpRequest) -> Answer>(
    send: F,
    request: RequestModel,
    outcome: Answer,
    healthy: bool,
)
    requires
        exchanged(send, request, outcome),
        healthy == (outcome is Ok),
    ensures
        (forall|sent: HttpRequest, any: Answer|
            call_ensures(send, (sent,), any) ==> any is Err) ==> !healthy,
        (forall|sent: HttpRequest, any: Answer|
            call_ensures(send, (sent,), any) ==> any is Ok) ==> healthy,
{
}

} // verus!
