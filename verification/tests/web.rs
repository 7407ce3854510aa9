use postprocessing::error::Fault;
use postprocessing::json::{read, Json};
use postprocessing::web::{normalized_path, path_of_target};

#[test]
fn path_without_host_and_query() {
    assert_eq!(normalized_path("http://host/api/items/42?x=1"), Ok("/api/items/42".to_string()));
}

#[test]
fn path_of_other_urls() {
    assert_eq!(normalized_path("https://user@host:8080/a/b/#fragment"), Ok("/a/b/".to_string()));
    assert_eq!(normalized_path("http://host"), Ok("/".to_string()));
    assert_eq!(normalized_path("http://host/a b"), Ok("/a%20b".to_string()));
    assert_eq!(normalized_path("/api/items").map_err(|e| e.kind()), Err(Fault::Url));
    assert_eq!(normalized_path("").map_err(|e| e.kind()), Err(Fault::Url));
}

#[test]
fn path_of_a_request_target() {
    assert_eq!(path_of_target("/api/items/42?x=1"), Ok("/api/items/42".to_string()));
    assert_eq!(path_of_target("/"), Ok("/".to_string()));
    assert_eq!(path_of_target(":bad").map_err(|e| e.kind()), Err(Fault::Url));
}

#[test]
fn json_documents_as_trees() {
    assert_eq!(read("null"), Ok(Json::Null));
    assert_eq!(read("true"), Ok(Json::Bool(true)));
    assert_eq!(read("17"), Ok(Json::Number(Some(17))));
    assert_eq!(read("-1"), Ok(Json::Number(None)));
    assert_eq!(read("1.5"), Ok(Json::Number(None)));
    assert_eq!(read("\"a\\nb\""), Ok(Json::Text("a\nb".to_string())));
    assert_eq!(
        read("[1, [\"x\"], {}]"),
        Ok(Json::Array(vec![
            Json::Number(Some(1)),
            Json::Array(vec![Json::Text("x".to_string())]),
            Json::Object(Vec::new()),
        ]))
    );
    assert_eq!(
        read("{\"b\": 1, \"a\": {\"c\": null}}"),
        Ok(Json::Object(vec![
            ("a".to_string(), Json::Object(vec![("c".to_string(), Json::Null)])),
            ("b".to_string(), Json::Number(Some(1))),
        ]))
    );
    assert_eq!(read("{").map_err(|e| e.kind()), Err(Fault::Json));
    assert_eq!(read("").map_err(|e| e.kind()), Err(Fault::Json));
    assert_eq!(read("1 2").map_err(|e| e.kind()), Err(Fault::Json));
}

#[test]
fn json_members() {
    let document = read("{\"name\": \"x\", \"code\": 500, \"inner\": {\"name\": \"y\"}}").unwrap();
    assert_eq!(document.get("name"), Some(&Json::Text("x".to_string())));
    assert_eq!(document.get_text("name"), Some("x"));
    assert_eq!(document.get_text("code"), None);
    assert_eq!(document.get("code").unwrap().as_u64(), Some(500));
    assert_eq!(document.get("missing"), None);
    assert_eq!(document.get("inner").unwrap().get_text("name"), Some("y"));
    assert_eq!(Json::Null.get("name"), None);
    assert_eq!(Json::Text("x".to_string()).as_text(), Some("x"));
    assert_eq!(Json::Null.as_text(), None);
    assert_eq!(Json::Text("5".to_string()).as_u64(), None);
}

#[test]
fn json_arrays_and_objects() {
    let document = read("{\"items\": [1, 2], \"name\": \"x\"}").unwrap();
    let members = document.as_object().unwrap();
    assert_eq!(members.len(), 2);
    assert_eq!(members[0].0, "items");
    assert_eq!(members[0].1.as_array(), Some(&vec![Json::Number(Some(1)), Json::Number(Some(2))]));
    assert_eq!(members[1].1.as_array(), None);
    assert_eq!(document.as_array(), None);
    assert_eq!(Json::Null.as_object(), None);
}
