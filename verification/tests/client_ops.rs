use simplehttp::simplehttp::SimpleHttpError;
use surrealdb_http::{
    DecodeFailure, DynamicSurrealResult, DynamicValue, HttpMethod, HttpRequest, SurrealDbClient,
    SurrealDbError, SurrealResult, SurrealStatementReply, SurrealStatus,
};

/// A server in memory: tables of records, each record a JSON object with its `id`.
struct FakeServer {
    tables: Vec<(String, Vec<serde_json::Value>)>,
    made_keys: u32,
    seen: Vec<HttpRequest>,
}

impl FakeServer {
    fn new() -> FakeServer {
        FakeServer { tables: Vec::new(), made_keys: 0, seen: Vec::new() }
    }

    fn table(&mut self, name: &str) -> &mut Vec<serde_json::Value> {
        if !self.tables.iter().any(|(table, _)| table == name) {
            self.tables.push((name.to_string(), Vec::new()));
        }
        &mut self.tables.iter_mut().find(|(table, _)| table == name).unwrap().1
    }

    fn envelope(rows: Vec<serde_json::Value>) -> Vec<u8> {
        let mut statement = serde_json::Map::new();
        statement.insert("time".to_string(), serde_json::Value::String("42.5us".to_string()));
        statement.insert("status".to_string(), serde_json::Value::String("OK".to_string()));
        statement.insert("result".to_string(), serde_json::Value::Array(rows));
        let envelope = serde_json::Value::Array(vec![serde_json::Value::Object(statement)]);
        serde_json::to_vec(&envelope).unwrap()
    }

    fn id_of(row: &serde_json::Value) -> Option<&str> {
        row.get("id").and_then(|id| id.as_str())
    }

    fn authorized(request: &HttpRequest) -> bool {
        request.headers
            == vec![
                ("DB".to_string(), "mydb".to_string()),
                ("NS".to_string(), "myns".to_string()),
                ("Accept".to_string(), "application/json".to_string()),
                ("Authorization".to_string(), "Basic cm9vdDpyb290".to_string()),
            ]
    }

    fn handle(&mut self, request: HttpRequest) -> Result<Vec<u8>, SimpleHttpError> {
        let answer = self.answer(&request);
        self.seen.push(request);
        answer
    }

    fn answer(&mut self, request: &HttpRequest) -> Result<Vec<u8>, SimpleHttpError> {
        let path = match request.url.strip_prefix("http://localhost:8000/") {
            Some(path) => path.to_string(),
            None => return Err(SimpleHttpError::new("unknown host")),
        };
        let parts: Vec<&str> = path.split('/').collect();
        if request.method == HttpMethod::Get && parts == ["health"] {
            return Ok(Vec::new());
        }
        if !FakeServer::authorized(request) {
            return Err(SimpleHttpError::new("401"));
        }
        if request.method == HttpMethod::Post && parts == ["sql"] {
            let query = String::from_utf8(request.body.clone().unwrap()).unwrap();
            return self.select(&query);
        }
        if parts.len() < 2 || parts.len() > 3 || parts[0] != "key" {
            return Err(SimpleHttpError::new("404"));
        }
        let table = parts[1];
        let id = parts.get(2).map(|key| format!("{}:{}", table, key));
        match request.method {
            HttpMethod::Get => {
                let rows = self
                    .table(table)
                    .iter()
                    .filter(|row| FakeServer::id_of(row) == id.as_deref())
                    .cloned()
                    .collect();
                Ok(FakeServer::envelope(rows))
            }
            HttpMethod::Delete => {
                match id {
                    Some(id) => {
                        self.table(table).retain(|row| FakeServer::id_of(row) != Some(id.as_str()))
                    }
                    None => self.table(table).clear(),
                }
                Ok(FakeServer::envelope(Vec::new()))
            }
            HttpMethod::Post => {
                let body = request.body.as_ref().unwrap();
                let mut record = match serde_json::from_slice::<serde_json::Value>(body) {
                    Ok(serde_json::Value::Object(record)) => record,
                    _ => return Err(SimpleHttpError::new("400")),
                };
                let id = match id {
                    Some(id) => id,
                    None => {
                        self.made_keys += 1;
                        format!("{}:made{}", table, self.made_keys)
                    }
                };
                record.insert("id".to_string(), serde_json::Value::String(id));
                let record = serde_json::Value::Object(record);
                self.table(table).push(record.clone());
                Ok(FakeServer::envelope(vec![record]))
            }
        }
    }

    fn select(&mut self, query: &str) -> Result<Vec<u8>, SimpleHttpError> {
        let query = query.trim_end_matches(';');
        if let Some(table) = query.strip_prefix("select * from ") {
            let rows = self.table(table).clone();
            return Ok(FakeServer::envelope(rows));
        }
        if let Some(table) = query.strip_prefix("select name from ") {
            let rows = self
                .table(table)
                .iter()
                .map(|row| {
                    let mut named = serde_json::Map::new();
                    let name = row.get("name").cloned().unwrap_or(serde_json::Value::Null);
                    named.insert("name".to_string(), name);
                    serde_json::Value::Object(named)
                })
                .collect();
            return Ok(FakeServer::envelope(rows));
        }
        Err(SimpleHttpError::new("400"))
    }
}

fn create_test_client() -> SurrealDbClient {
    SurrealDbClient::new("root", "root", "http://localhost:8000", "myns", "mydb")
}

#[derive(Debug)]
struct City {
    name: String,
}

/// Decodes a typed envelope of cities by hand, as a derived decoder would.
fn decode_cities(body: Vec<u8>) -> Result<SurrealResult<City>, serde_json::Error> {
    let document = serde_json::from_slice::<serde_json::Value>(&body)?;
    let wrong = |what: &str| <serde_json::Error as serde::de::Error>::custom(what.to_string());
    let statements = document.as_array().ok_or_else(|| wrong("expected a sequence"))?;
    let mut envelope = Vec::new();
    for statement in statements {
        let status = match statement.get("status").and_then(|status| status.as_str()) {
            Some("OK") => SurrealStatus::OK,
            Some("ERR") => SurrealStatus::ERR,
            _ => return Err(wrong("unknown status")),
        };
        let rows = statement
            .get("result")
            .and_then(|rows| rows.as_array())
            .ok_or_else(|| wrong("missing field `result`"))?;
        let mut result = Vec::new();
        for row in rows {
            let name = row
                .get("name")
                .and_then(|name| name.as_str())
                .ok_or_else(|| wrong("missing field `name`"))?;
            result.push(City { name: name.to_string() });
        }
        envelope.push(SurrealStatementReply { status, result });
    }
    Ok(SurrealResult(envelope))
}

#[test]
fn test_health() {
    let mut server = FakeServer::new();
    let surreal = create_test_client();
    assert!(surreal.is_healthy(|request| server.handle(request)));
}

#[test]
fn test_query() {
    let mut server = FakeServer::new();
    let surreal = create_test_client();
    let res = surreal.query("select * from person", |request| server.handle(request)).unwrap();
    let res = std::str::from_utf8(&res).unwrap();
    println!("Result: {}", res);
    assert_eq!(res, r#"[{"result":[],"status":"OK","time":"42.5us"}]"#);
}

#[test]
fn test_insert() {
    let mut server = FakeServer::new();
    let surreal = create_test_client();
    let example = r#"{"kip":{"aap":"sji"},"aap":{"mies":"sjo"}}"#.as_bytes();
    for round in 0..10 {
        let id = surreal.insert_for_id("test_table", example, |request| server.handle(request)).unwrap();
        println!("Result: {}", id);
        assert_eq!(id, format!("test_table:made{}", round + 1));
    }
    assert_eq!(server.table("test_table").len(), 10);
}

#[test]
fn test_single() {
    let mut server = FakeServer::new();
    let surreal = create_test_client();
    let example = r#"{"kip":{"aap":"sji"},"aap":{"mies":"sjo"}}"#;
    surreal
        .insert("test_table", Some("puz9ai2wrzcz52be7g04"), example.as_bytes(), |request| {
            server.handle(request)
        })
        .unwrap();
    let res = surreal
        .get("test_table", "puz9ai2wrzcz52be7g04", |request| server.handle(request))
        .unwrap();
    let v = DynamicValue::parse(&res).unwrap();
    let statements = match &v {
        DynamicValue::Array(statements) => statements,
        other => panic!("not an array: {:?}", other),
    };
    let rows = match statements.first().unwrap().get("result").unwrap() {
        DynamicValue::Array(rows) => rows,
        other => panic!("not an array: {:?}", other),
    };
    let first_object = rows.first().unwrap();
    let id = first_object.get("id").unwrap().as_str().unwrap();
    assert_eq!("test_table:puz9ai2wrzcz52be7g04", id);
    surreal
        .delete("test_table", Some("puz9ai2wrzcz52be7g04"), |request| server.handle(request))
        .unwrap();
    assert_eq!(server.table("test_table").len(), 0);
}

#[test]
fn test_query_single() {
    let mut server = FakeServer::new();
    let surreal = create_test_client();
    surreal.delete("unit_query_single", None, |request| server.handle(request)).unwrap();
    let city1 = r#"{"name":"Hanoi"}"#.as_bytes();
    let city2 = r#"{"name":"Isesaki"}"#.as_bytes();
    let city3 = r#"{"name":"Zeleznogorsk"}"#.as_bytes();
    let _ = surreal.insert_for_id("unit_query_single", city1, |request| server.handle(request)).unwrap();
    let _ = surreal.insert_for_id("unit_query_single", city2, |request| server.handle(request)).unwrap();
    let _ = surreal.insert_for_id("unit_query_single", city3, |request| server.handle(request)).unwrap();
    let res: SurrealStatementReply<City> = surreal
        .query_single("select name from unit_query_single;", |request| server.handle(request), decode_cities)
        .expect("huh?");
    let v = res.result.iter().map(|c| c.name.as_str()).collect::<Vec<&str>>();
    assert!(v.contains(&"Zeleznogorsk"));
    assert_eq!(3, res.result.len());
    let _ = surreal.delete("unit_query_single", None, |request| server.handle(request)).unwrap();
    let res: SurrealStatementReply<City> = surreal
        .query_single("select name from unit_query_single;", |request| server.handle(request), decode_cities)
        .expect("huh?");
    assert_eq!(0, res.result.len())
}

#[test]
fn delete_without_a_key_empties_the_table_and_no_other() {
    let mut server = FakeServer::new();
    let surreal = create_test_client();
    for name in ["a", "b", "c"] {
        let value = format!("{{\"name\":\"{}\"}}", name);
        surreal.insert_for_id("doomed", value.as_bytes(), |request| server.handle(request)).unwrap();
    }
    surreal.insert_for_id("kept", b"{\"name\":\"d\"}", |request| server.handle(request)).unwrap();
    surreal.delete("doomed", None, |request| server.handle(request)).unwrap();
    let last = server.seen.last().unwrap();
    assert_eq!(last.method, HttpMethod::Delete);
    assert_eq!(last.url, "http://localhost:8000/key/doomed");
    let res = surreal
        .query_single("select name from doomed", |request| server.handle(request), decode_cities)
        .unwrap();
    assert_eq!(res.status, SurrealStatus::OK);
    assert_eq!(res.result.len(), 0);
    let res = surreal
        .query_single("select name from kept", |request| server.handle(request), decode_cities)
        .unwrap();
    assert_eq!(res.result.len(), 1);
    assert_eq!(res.result[0].name, "d");
}

#[test]
fn delete_with_a_key_removes_that_record_only() {
    let mut server = FakeServer::new();
    let surreal = create_test_client();
    surreal.insert("t", Some("one"), b"{\"name\":\"1\"}", |request| server.handle(request)).unwrap();
    surreal.insert("t", Some("two"), b"{\"name\":\"2\"}", |request| server.handle(request)).unwrap();
    surreal.delete("t", Some("one"), |request| server.handle(request)).unwrap();
    let res = surreal
        .query_single("select name from t", |request| server.handle(request), decode_cities)
        .unwrap();
    assert_eq!(res.result.len(), 1);
    assert_eq!(res.result[0].name, "2");
}

#[test]
fn a_record_inserted_without_a_key_is_found_under_the_id_returned() {
    let mut server = FakeServer::new();
    let surreal = create_test_client();
    let id = surreal
        .insert_for_id("city", b"{\"name\":\"Hanoi\"}", |request| server.handle(request))
        .unwrap();
    let (table, key) = id.split_once(':').unwrap();
    assert_eq!(table, "city");
    let body = surreal.get(table, key, |request| server.handle(request)).unwrap();
    let record = DynamicSurrealResult::from_slice(&body).unwrap().take_single().unwrap();
    assert_eq!(record.get("id").unwrap().as_str().unwrap(), format!("city:{}", key));
    assert_eq!(record.get("name").unwrap().as_str(), Some("Hanoi"));
}

#[test]
fn is_healthy_follows_the_transport_and_not_the_body() {
    let surreal = create_test_client();
    assert!(surreal.is_healthy(|_| Ok(Vec::new())));
    assert!(surreal.is_healthy(|_| Ok(b"{\"status\":\"ERR\"}".to_vec())));
    assert!(surreal.is_healthy(|_| Ok(vec![0xff, 0x00, 0xfe])));
    assert!(!surreal.is_healthy(|_| Err(SimpleHttpError::new("no route to host"))));
    assert!(!surreal.is_healthy(|_| Err(SimpleHttpError::new(""))));
}

#[test]
fn is_healthy_asks_for_health_without_a_credential() {
    let mut seen = Vec::new();
    let surreal = create_test_client();
    let healthy = surreal.is_healthy(|request| {
        seen.push(request);
        Ok(Vec::new())
    });
    assert!(healthy);
    assert_eq!(
        seen,
        vec![HttpRequest {
            method: HttpMethod::Get,
            url: "http://localhost:8000/health".to_string(),
            headers: vec![("Accept".to_string(), "application/json".to_string())],
            body: None,
        }]
    );
}

#[test]
fn each_operation_is_one_exchange() {
    let mut server = FakeServer::new();
    let surreal = create_test_client();
    surreal.insert_for_id("t", b"{\"a\":1}", |request| server.handle(request)).unwrap();
    assert_eq!(server.seen.len(), 1);
    surreal.get("t", "made1", |request| server.handle(request)).unwrap();
    assert_eq!(server.seen.len(), 2);
    surreal.query_dynamic_single("select * from t", |request| server.handle(request)).unwrap();
    assert_eq!(server.seen.len(), 3);
    surreal.delete("t", None, |request| server.handle(request)).unwrap();
    assert_eq!(server.seen.len(), 4);
    surreal.is_healthy(|request| server.handle(request));
    assert_eq!(server.seen.len(), 5);
    let methods: Vec<HttpMethod> = server.seen.iter().map(|request| request.method).collect();
    assert_eq!(
        methods,
        vec![HttpMethod::Post, HttpMethod::Get, HttpMethod::Post, HttpMethod::Delete, HttpMethod::Get]
    );
}

#[test]
fn query_dynamic_single_gives_the_rows_as_they_are() {
    let mut server = FakeServer::new();
    let surreal = create_test_client();
    surreal.insert("t", Some("k"), b"{\"n\":[1,2.5,null,true]}", |request| server.handle(request)).unwrap();
    let envelope = surreal
        .query_dynamic_single("select * from t", |request| server.handle(request))
        .unwrap();
    let row = envelope.take_single().unwrap();
    assert_eq!(
        row,
        DynamicValue::Object(vec![
            ("id".to_string(), DynamicValue::Text("t:k".to_string())),
            (
                "n".to_string(),
                DynamicValue::Array(vec![
                    DynamicValue::Number("1".to_string()),
                    DynamicValue::Number("2.5".to_string()),
                    DynamicValue::Null,
                    DynamicValue::Bool(true),
                ])
            ),
        ])
    );
}

#[test]
fn a_failing_transport_fails_every_operation_with_a_server_error() {
    let surreal = create_test_client();
    let down = || {
        |_: HttpRequest| -> Result<Vec<u8>, SimpleHttpError> { Err(SimpleHttpError::new("down")) }
    };
    assert!(matches!(surreal.get("t", "k", down()), Err(SurrealDbError::ServerError(_, _))));
    assert!(matches!(surreal.delete("t", None, down()), Err(SurrealDbError::ServerError(_, _))));
    assert!(matches!(surreal.insert("t", None, b"{}", down()), Err(SurrealDbError::ServerError(_, _))));
    assert!(matches!(surreal.insert_for_id("t", b"{}", down()), Err(SurrealDbError::ServerError(_, _))));
    assert!(matches!(surreal.query("q", down()), Err(SurrealDbError::ServerError(_, _))));
    assert!(matches!(surreal.query_dynamic_single("q", down()), Err(SurrealDbError::ServerError(_, _))));
    assert!(matches!(
        surreal.query_single("q", down(), decode_cities),
        Err(SurrealDbError::ServerError(_, _))
    ));
}

#[test]
fn query_single_does_not_decode_what_the_transport_did_not_give() {
    let surreal = create_test_client();
    let mut decoded = false;
    let outcome = surreal.query_single(
        "q",
        |_| Err(SimpleHttpError::new("down")),
        |body| {
            decoded = true;
            decode_cities(body)
        },
    );
    assert!(outcome.is_err());
    assert!(!decoded);
}

#[test]
fn query_single_wraps_the_error_of_the_decoder() {
    let surreal = create_test_client();
    let outcome = surreal.query_single(
        "select name from t",
        |_| Ok(b"[{\"status\":\"OK\",\"result\":[{\"title\":\"x\"}]}]".to_vec()),
        decode_cities,
    );
    match outcome {
        Err(SurrealDbError::Other(context, DecodeFailure::Json(cause))) => {
            assert_eq!(context, "Error parsing json result: select name from t");
            assert_eq!(cause.to_string(), "missing field `name`");
        }
        other => panic!("not a decode error: {:?}", other.map(|reply| reply.result)),
    }
}

#[test]
fn query_single_of_a_body_that_is_no_text_is_a_decode_error() {
    let surreal = create_test_client();
    let outcome = surreal.query_single("q", |_| Ok(vec![0xff, 0xfe, 0xfd]), decode_cities);
    assert!(matches!(outcome, Err(SurrealDbError::Other(_, DecodeFailure::Json(_)))));
}

#[test]
fn query_single_takes_the_last_of_several_statements() {
    let surreal = create_test_client();
    let body = br#"[{"status":"ERR","result":[]},{"status":"OK","result":[{"name":"a"},{"name":"b"}]}]"#;
    let reply = surreal.query_single("x; y", |_| Ok(body.to_vec()), decode_cities).unwrap();
    assert_eq!(reply.status, SurrealStatus::OK);
    let names: Vec<&str> = reply.result.iter().map(|city| city.name.as_str()).collect();
    assert_eq!(names, vec!["a", "b"]);
}

#[test]
fn the_client_can_be_used_again_after_a_failure() {
    let mut server = FakeServer::new();
    let surreal = create_test_client();
    assert!(surreal.query("delete everything", |request| server.handle(request)).is_err());
    assert!(surreal.insert_for_id("t", b"not json", |request| server.handle(request)).is_err());
    assert_eq!(
        surreal.insert_for_id("t", b"{\"a\":1}", |request| server.handle(request)).unwrap(),
        "t:made1"
    );
}
