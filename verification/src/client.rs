//! The database client: the connection it speaks for, the request of each operation,
//! and what each operation makes of the transport's answer.

use crate::auth::{basic_token, credential_token};
use crate::context::query_context;
use crate::envelope::{
    text_outcome, typed_outcome, DynamicSurrealResult, SurrealResult, SurrealStatementReply,
};
use crate::error::{ErrorModel, SurrealDbError};
use crate::reply::{
    body_outcome, delete_answer, envelope_outcome, get_answer, insert_answer,
    insert_for_id_answer, query_answer, query_dynamic_single_answer, query_single_answer,
};
use crate::transport::{accepts, exchanged, Answer, HttpMethod, HttpRequest, RequestModel};
use vstd::prelude::*;
use vstd::slice::slice_to_vec;
use vstd::string::{StrSliceExecFns, StringExecFns};
use vstd::utf8::encode_utf8;

verus! {

/// The mathematical model of a client: where it connects, and as whom.
pub struct ClientModel {
    pub base_url: Seq<char>,
    pub namespace: Seq<char>,
    pub database: Seq<char>,
    pub auth_token: Seq<char>,
}

impl ClientModel {
    /// The address of a table, or of one record of it.
    pub open spec fn key_url(self, table: Seq<char>, key: Option<Seq<char>>) -> Seq<char> {
        match key {
            Some(key) => self.base_url + "/key/"@ + table + "/"@ + key,
            None => self.base_url + "/key/"@ + table,
        }
    }

    /// The headers of every call that the server authenticates.
    pub open spec fn headers(self) -> Seq<(Seq<char>, Seq<char>)> {
        seq![
            ("DB"@, self.database),
            ("NS"@, self.namespace),
            ("Accept"@, "application/json"@),
            ("Authorization"@, "Basic "@ + self.auth_token),
        ]
    }

    pub open spec fn get_request(self, table: Seq<char>, key: Seq<char>) -> RequestModel {
        RequestModel {
            method: HttpMethod::Get,
            url: self.key_url(table, Some(key)),
            headers: self.headers(),
            body: None,
        }
    }

    /// Without a key the request addresses the table: it deletes every record of it.
    pub open spec fn delete_request(
        self,
        table: Seq<char>,
        key: Option<Seq<char>>,
    ) -> RequestModel {
        RequestModel {
            method: HttpMethod::Delete,
            url: self.key_url(table, key),
            headers: self.headers(),
            body: None,
        }
    }

    pub open spec fn insert_request(
        self,
        table: Seq<char>,
        key: Option<Seq<char>>,
        value: Seq<u8>,
    ) -> RequestModel {
        RequestModel {
            method: HttpMethod::Post,
            url: self.key_url(table, key),
            headers: self.headers(),
            body: Some(value),
        }
    }

    /// The health check names no database and carries no credential.
    pub open spec fn health_request(self) -> RequestModel {
        RequestModel {
            method: HttpMethod::Get,
            url: self.base_url + "/health"@,
            headers: seq![("Accept"@, "application/json"@)],
            body: None,
        }
    }

    /// The body of a query is its text, as UTF-8.
    pub open spec fn query_request(self, query: Seq<char>) -> RequestModel {
        RequestModel {
            method: HttpMethod::Post,
            url: self.base_url + "/sql"@,
            headers: self.headers(),
            body: Some(encode_utf8(query)),
        }
    }
}

/// Whether `res` is what a typed query makes of the transport's answer: the
/// transport's error, or what the query makes of what the decoder gave for the body.
pub open spec fn decoded_with<
    T,
    D: FnOnce(Vec<u8>) -> Result<SurrealResult<T>, serde_json::Error>,
>(
    decode: D,
    query: Seq<char>,
    outcome: Answer,
    res: Result<SurrealStatementReply<T>, ErrorModel>,
) -> bool {
    match outcome {
        Err(cause) => res == Err::<SurrealStatementReply<T>, ErrorModel>(
            ErrorModel::ServerError(query_context(query), cause),
        ),
        Ok(body) => exists|decoded: Result<SurrealResult<T>, serde_json::Error>|
            #[trigger] call_ensures(decode, (body,), decoded)
                && res == query_single_answer(query, decoded),
    }
}

/// A client of one database of one namespace on one server. It holds no connection
/// and no state: each operation is one exchange with the transport.
#[derive(Debug)]
pub struct SurrealDbClient {
    base_url: String,
    namespace: String,
    database: String,
    auth_token: String,
}

impl View for SurrealDbClient {
    type V = ClientModel;

    closed spec fn view(&self) -> ClientModel {
        ClientModel {
            base_url: self.base_url@,
            namespace: self.namespace@,
            database: self.database@,
            auth_token: self.auth_token@,
        }
    }
}

impl SurrealDbClient {
    /// A client that speaks to the server at `base_url`, for one database of one
    /// namespace, as one user. The credential is encoded here, once.
    pub fn new(
        username: &str,
        password: &str,
        base_url: &str,
        namespace: &str,
        database: &str,
    ) -> (client: SurrealDbClient)
        ensures
            client@ == (ClientModel {
                base_url: base_url@,
                namespace: namespace@,
                database: database@,
                auth_token: credential_token(username@, password@),
            }),
    {
        SurrealDbClient {
            base_url: String::from_str(base_url),
            namespace: String::from_str(namespace),
            database: String::from_str(database),
            auth_token: basic_token(username, password),
        }
    }

    fn key_url(&self, table: &str, key: Option<&str>) -> (url: String)
        ensures
            url@ == self@.key_url(table@, key.deep_view()),
    {
        let mut url = self.base_url.clone();
        url.append("/key/");
        url.append(table);
        match key {
            Some(key) => {
                url.append("/");
                url.append(key);
            },
            None => {},
        }
        url
    }

    fn headers(&self) -> (headers: Vec<(String, String)>)
        ensures
            headers.deep_view() == self@.headers(),
    {
        let mut authorization = String::from_str("Basic ");
        authorization.append(self.auth_token.as_str());
        let mut headers: Vec<(String, String)> = Vec::new();
        headers.push((String::from_str("DB"), self.database.clone()));
        headers.push((String::from_str("NS"), self.namespace.clone()));
        headers.push((String::from_str("Accept"), String::from_str("application/json")));
        headers.push((String::from_str("Authorization"), authorization));
        headers
    }

    /// The request that reads one record.
    pub fn get_request(&self, table: &str, key: &str) -> (request: HttpRequest)
        ensures
            request@ == self@.get_request(table@, key@),
    {
        HttpRequest {
            method: HttpMethod::Get,
            url: self.key_url(table, Some(key)),
            headers: self.headers(),
            body: None,
        }
    }

    /// The request that deletes one record or, **without a key, the whole table**.
    pub fn delete_request(&self, table: &str, key: Option<&str>) -> (request: HttpRequest)
        ensures
            request@ == self@.delete_request(table@, key.deep_view()),
    {
        HttpRequest {
            method: HttpMethod::Delete,
            url: self.key_url(table, key),
            headers: self.headers(),
            body: None,
        }
    }

    /// The request that stores a record, under the key or under one that the server makes.
    pub fn insert_request(
        &self,
        table: &str,
        key: Option<&str>,
        value: &[u8],
    ) -> (request: HttpRequest)
        ensures
            request@ == self@.insert_request(table@, key.deep_view(), value@),
    {
        HttpRequest {
            method: HttpMethod::Post,
            url: self.key_url(table, key),
            headers: self.headers(),
            body: Some(slice_to_vec(value)),
        }
    }

    /// The request that asks whether the server is up.
    pub fn health_request(&self) -> (request: HttpRequest)
        ensures
            request@ == self@.health_request(),
    {
        let mut url = self.base_url.clone();
        url.append("/health");
        let mut headers: Vec<(String, String)> = Vec::new();
        headers.push((String::from_str("Accept"), String::from_str("application/json")));
        assert(headers.deep_view() =~= seq![("Accept"@, "application/json"@)]);
        HttpRequest { method: HttpMethod::Get, url, headers, body: None }
    }

    /// The request that runs a query.
    pub fn query_request(&self, query: &str) -> (request: HttpRequest)
        ensures
            request@ == self@.query_request(query@),
    {
        let mut url = self.base_url.clone();
        url.append("/sql");
        HttpRequest {
            method: HttpMethod::Post,
            url,
            headers: self.headers(),
            body: Some(query.as_bytes_vec()),
        }
    }

    /// Reads one record: the body of the response, as it came.
    pub fn get<F: FnOnce(HttpRequest) -> Answer>(
        &self,
        table: &str,
        key: &str,
        send: F,
    ) -> (res: Result<Vec<u8>, SurrealDbError>)
        requires
            accepts(send, self@.get_request(table@, key@)),
        ensures
            exists|outcome: Answer|
                #[trigger] exchanged(send, self@.get_request(table@, key@), outcome)
                    && body_outcome(res) == get_answer(table@, key@, outcome),
    {
        let outcome = send(self.get_request(table, key));
        assert(exchanged(send, self@.get_request(table@, key@), outcome));
        Self::get_reply(table, key, outcome)
    }

    /// Deletes the record under the key. **Without a key, deletes every record of the
    /// table.**
    pub fn delete<F: FnOnce(HttpRequest) -> Answer>(
        &self,
        table: &str,
        key: Option<&str>,
        send: F,
    ) -> (res: Result<Vec<u8>, SurrealDbError>)
        requires
            accepts(send, self@.delete_request(table@, key.deep_view())),
        ensures
            exists|outcome: Answer|
                #[trigger] exchanged(send, self@.delete_request(table@, key.deep_view()), outcome)
                    && body_outcome(res) == delete_answer(table@, key.deep_view(), outcome),
    {
        let outcome = send(self.delete_request(table, key));
        assert(exchanged(send, self@.delete_request(table@, key.deep_view()), outcome));
        Self::delete_reply(table, key, outcome)
    }

    /// Stores a record, a JSON object, under the key or under one that the server
    /// makes, and decodes the envelope of the response.
    pub fn insert<F: FnOnce(HttpRequest) -> Answer>(
        &self,
        table: &str,
        key: Option<&str>,
        value: &[u8],
        send: F,
    ) -> (res: Result<DynamicSurrealResult, SurrealDbError>)
        requires
            accepts(send, self@.insert_request(table@, key.deep_view(), value@)),
        ensures
            exists|outcome: Answer|
                #[trigger] exchanged(
                    send,
                    self@.insert_request(table@, key.deep_view(), value@),
                    outcome,
                ) && envelope_outcome(res) == insert_answer(table@, key.deep_view(), outcome),
    {
        let outcome = send(self.insert_request(table, key, value));
        assert(exchanged(send, self@.insert_request(table@, key.deep_view(), value@), outcome));
        Self::insert_reply(table, key, outcome)
    }

    /// Stores a record without a key, and returns the identifier that the server gave it.
    pub fn insert_for_id<F: FnOnce(HttpRequest) -> Answer>(
        &self,
        table: &str,
        value: &[u8],
        send: F,
    ) -> (res: Result<String, SurrealDbError>)
        requires
            accepts(send, self@.insert_request(table@, None, value@)),
        ensures
            exists|outcome: Answer|
                #[trigger] exchanged(send, self@.insert_request(table@, None, value@), outcome)
                    && text_outcome(res) == insert_for_id_answer(table@, outcome),
    {
        let outcome = send(self.insert_request(table, None, value));
        assert(exchanged(send, self@.insert_request(table@, None, value@), outcome));
        Self::insert_for_id_reply(table, outcome)
    }

    /// Whether the server answers. No failure of the transport reaches the caller, and
    /// the body of the answer is not looked at.
    pub fn is_healthy<F: FnOnce(HttpRequest) -> Answer>(&self, send: F) -> (healthy: bool)
        requires
            accepts(send, self@.health_request()),
        ensures
            exists|outcome: Answer|
                #[trigger] exchanged(send, self@.health_request(), outcome)
                    && healthy == (outcome is Ok),
    {
        let outcome = send(self.health_request());
        assert(exchanged(send, self@.health_request(), outcome));
        Self::health_reply(&outcome)
    }

    /// Runs a query: the body of the response, as it came.
    pub fn query<F: FnOnce(HttpRequest) -> Answer>(
        &self,
        query: &str,
        send: F,
    ) -> (res: Result<Vec<u8>, SurrealDbError>)
        requires
            accepts(send, self@.query_request(query@)),
        ensures
            exists|outcome: Answer|
                #[trigger] exchanged(send, self@.query_request(query@), outcome)
                    && body_outcome(res) == query_answer(query@, outcome),
    {
        let outcome = send(self.query_request(query));
        assert(exchanged(send, self@.query_request(query@), outcome));
        Self::query_reply(query, outcome)
    }

    /// Runs a query and decodes the envelope of the response, with rows of any shape.
    pub fn query_dynamic_single<F: FnOnce(HttpRequest) -> Answer>(
        &self,
        query: &str,
        send: F,
    ) -> (res: Result<DynamicSurrealResult, SurrealDbError>)
        requires
            accepts(send, self@.query_request(query@)),
        ensures
            exists|outcome: Answer|
                #[trigger] exchanged(send, self@.query_request(query@), outcome)
                    && envelope_outcome(res) == query_dynamic_single_answer(query@, outcome),
    {
        let outcome = send(self.query_request(query));
        assert(exchanged(send, self@.query_request(query@), outcome));
        Self::query_dynamic_single_reply(query, outcome)
    }

    /// Runs a query, has the body of the response decoded into rows of the caller's
    /// record type, and returns the reply of the last statement. The decoder is not
    /// called where the transport fails.
    pub fn query_single<
        T,
        F: FnOnce(HttpRequest) -> Answer,
        D: FnOnce(Vec<u8>) -> Result<SurrealResult<T>, serde_json::Error>,
    >(
        &self,
        query: &str,
        send: F,
        decode: D,
    ) -> (res: Result<SurrealStatementReply<T>, SurrealDbError>)
        requires
            accepts(send, self@.query_request(query@)),
            forall|body: Vec<u8>| call_requires(decode, (body,)),
        ensures
            exists|outcome: Answer|
                #[trigger] exchanged(send, self@.query_request(query@), outcome)
                    && decoded_with(decode, query@, outcome, typed_outcome(res)),
    {
        let outcome = send(self.query_request(query));
        assert(exchanged(send, self@.query_request(query@), outcome));
        match Self::query_reply(query, outcome) {
            Err(error) => Err(error),
            Ok(body) => Self::query_single_reply(query, decode(body)),
        }
    }
}

} // verus!
