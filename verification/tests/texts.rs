use portachat::error::ChatError;
use portachat::json::{parse_json, quote_json, Json, Member};
use portachat::text::{chars_of, contains_phrase};

#[test]
fn each_error_has_its_message() {
    assert_eq!(ChatError::PathResolution.message(), "failed to get app config dir");
    assert_eq!(ChatError::Io("disk full".to_string()).message(), "disk full");
    assert_eq!(ChatError::Parse.message(), "Os dados não estão no formato esperado.");
    assert_eq!(
        ChatError::MissingCredential.message(),
        "A chave da API não foi configurada. Por favor, adicione a chave nas configurações."
    );
    assert_eq!(ChatError::Transport("timed out".to_string()).message(), "timed out");
    assert_eq!(
        ChatError::InvalidCredential.message(),
        "A chave da API é inválida. Por favor, corrija a chave nas configurações."
    );
    assert_eq!(ChatError::Api("{\"error\":1}".to_string()).message(), "Erro da API: {\"error\":1}");
    assert_eq!(ChatError::EmptyResponse.message(), "Nenhuma resposta da IA.");
}

#[test]
fn missing_and_invalid_credentials_read_differently() {
    assert_ne!(ChatError::MissingCredential.message(), ChatError::InvalidCredential.message());
    assert_ne!(ChatError::MissingCredential, ChatError::InvalidCredential);
}

#[test]
fn chars_of_gives_every_character() {
    assert_eq!(chars_of(""), Vec::<char>::new());
    assert_eq!(chars_of("aé\u{1F600}\n"), vec!['a', 'é', '\u{1F600}', '\n']);
}

#[test]
fn contains_phrase_finds_a_run_anywhere() {
    assert!(contains_phrase("abc", "abc"));
    assert!(contains_phrase("abc", "a"));
    assert!(contains_phrase("abc", "bc"));
    assert!(contains_phrase("xxabcxx", "abc"));
    assert!(contains_phrase("aab", "ab"));
    assert!(contains_phrase("ação feita", "ção"));
}

#[test]
fn contains_phrase_rejects_what_is_not_there() {
    assert!(!contains_phrase("abc", "abcd"));
    assert!(!contains_phrase("abc", "ac"));
    assert!(!contains_phrase("abc", "cb"));
    assert!(!contains_phrase("", "a"));
    assert!(!contains_phrase("ABC", "abc"));
    assert!(!contains_phrase("a b c", "abc"));
}

#[test]
fn the_empty_phrase_is_in_every_text() {
    assert!(contains_phrase("", ""));
    assert!(contains_phrase("abc", ""));
}

#[test]
fn member_gives_the_first_of_that_name() {
    let object = Json::Object(vec![
        Member { name: "a".to_string(), value: Json::Bool(true) },
        Member { name: "b".to_string(), value: Json::Null },
        Member { name: "a".to_string(), value: Json::Bool(false) },
    ]);
    assert_eq!(object.member("a"), Some(&Json::Bool(true)));
    assert_eq!(object.member("b"), Some(&Json::Null));
    assert_eq!(object.member("c"), None);
    assert_eq!(object.member(""), None);
    assert_eq!(Json::Object(vec![]).member("a"), None);
    assert_eq!(Json::Array(vec![Json::Null]).member("a"), None);
    assert_eq!(Json::Text("a".to_string()).member("a"), None);
}

#[test]
fn as_array_tells_the_kinds_apart() {
    assert_eq!(Json::Array(vec![Json::Number]).as_array(), Some(&vec![Json::Number]));
    assert_eq!(Json::Object(vec![]).as_array(), None);
    assert_eq!(Json::Bool(false).as_array(), None);
}

#[test]
fn parse_json_rebuilds_every_kind_of_value() {
    let text = " [null, true, false, 0, -12.5e3, \"t\\u00e9\", [], {}, {\"a\": [1], \"b\": {\"c\": null}}] ";
    let member = |name: &str, value: Json| Member { name: name.to_string(), value };
    assert_eq!(
        parse_json(text),
        Ok(Json::Array(vec![
            Json::Null,
            Json::Bool(true),
            Json::Bool(false),
            Json::Number,
            Json::Number,
            Json::Text("té".to_string()),
            Json::Array(vec![]),
            Json::Object(vec![]),
            Json::Object(vec![
                member("a", Json::Array(vec![Json::Number])),
                member("b", Json::Object(vec![member("c", Json::Null)])),
            ]),
        ]))
    );
}

#[test]
fn parse_json_reads_bare_values() {
    assert_eq!(parse_json("null"), Ok(Json::Null));
    assert_eq!(parse_json("\"\""), Ok(Json::Text(String::new())));
    assert_eq!(parse_json("7"), Ok(Json::Number));
}

#[test]
fn parse_json_rejects_what_is_no_json() {
    for text in ["", " ", "nul", "{", "[1,]", "{\"a\" 1}", "{a: 1}", "'a'", "\"a", "1 2", "[] x"] {
        assert_eq!(parse_json(text), Err(ChatError::Parse));
    }
}

#[test]
fn parse_json_rejects_nesting_beyond_its_limit() {
    let shallow = format!("{}{}", "[".repeat(100), "]".repeat(100));
    assert!(parse_json(&shallow).is_ok());
    let deep = format!("{}{}", "[".repeat(200), "]".repeat(200));
    assert_eq!(parse_json(&deep), Err(ChatError::Parse));
}

#[test]
fn quote_json_writes_a_string_literal() {
    assert_eq!(quote_json(""), "\"\"");
    assert_eq!(quote_json("abc"), "\"abc\"");
    assert_eq!(quote_json("a\"b"), "\"a\\\"b\"");
    assert_eq!(quote_json("a\\b"), "\"a\\\\b\"");
    assert_eq!(quote_json("\n\r\t"), "\"\\n\\r\\t\"");
    assert_eq!(quote_json("\u{8}\u{c}\u{1}"), "\"\\b\\f\\u0001\"");
    assert_eq!(quote_json("é/\u{7f}"), "\"é/\u{7f}\"");
}

#[test]
fn quoted_text_parses_back_to_the_string() {
    for text in ["", "plain", "q\"q", "b\\b", "\u{0}\u{1f}", "é \u{1F600}", "</script>"] {
        let literal = quote_json(text);
        assert_eq!(parse_json(&literal), Ok(Json::Text(text.to_string())));
    }
}
