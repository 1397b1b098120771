use request_core::snippet::{
    generate, generate_code_snippet, python_with_verb, render, request_from_json, rust_with_verb,
    GenerationError, SnippetRequest, Target,
};
use request_core::text::{escape_quote, keep_text_entries};

fn req(method: &str, url: &str, headers: &[(&str, &str)], body: Option<&str>) -> SnippetRequest {
    SnippetRequest {
        method: method.to_string(),
        url: url.to_string(),
        headers: headers.iter().map(|(k, v)| (k.to_string(), v.to_string())).collect(),
        body: body.map(|b| b.to_string()),
    }
}

#[test]
fn curl_get_with_header_and_no_body() {
    let r = req("GET", "https://example.com", &[("Accept", "application/json")], None);
    let code = generate(&r, &"curl".to_string()).unwrap();
    assert!(code.contains("-X GET 'https://example.com'"));
    assert!(code.contains(" \\\n  -H 'Accept: application/json'"));
    assert!(!code.contains("-d"));
    assert_eq!(
        code,
        "curl -X GET 'https://example.com' \\\n  -H 'Accept: application/json'"
    );
}

#[test]
fn unknown_target_fails() {
    let r = req("GET", "https://example.com", &[("Accept", "application/json")], None);
    let res = generate(&r, &"not-a-real-target".to_string());
    assert_eq!(res, Err(GenerationError::UnsupportedTarget));
    assert_eq!(GenerationError::UnsupportedTarget.message(), "Unsupported language");
}

#[test]
fn single_quote_escaped_in_fetch_and_python() {
    let r = req("POST", "https://example.com/x", &[], Some("a'b"));
    let js = generate(&r, &"javascript".to_string()).unwrap();
    assert!(js.contains("  body: 'a\\'b',\n"));
    let py = generate(&r, &"python".to_string()).unwrap();
    assert!(py.contains("data = 'a\\'b'\n"));
}

#[test]
fn curl_with_body() {
    let r = req("POST", "https://example.com/x", &[], Some("{\"a\":1}"));
    assert_eq!(
        render(&r, Target::Curl),
        "curl -X POST 'https://example.com/x' \\\n  -d '{\"a\":1}'"
    );
}

#[test]
fn curl_empty_body_is_kept() {
    let r = req("POST", "u", &[], Some(""));
    assert_eq!(render(&r, Target::Curl), "curl -X POST 'u' \\\n  -d ''");
}

#[test]
fn javascript_full_shape() {
    let r = req("PUT", "http://h/p", &[("A", "1"), ("B", "2")], Some("x"));
    assert_eq!(
        render(&r, Target::JavaScript),
        "const response = await fetch('http://h/p', {\n  method: 'PUT',\n  headers: {\n    'A': '1',\n    'B': '2',\n  },\n  body: 'x',\n});\n\nconst data = await response.json();"
    );
}

#[test]
fn python_full_shape() {
    let r = req("POST", "http://h", &[("A", "1")], Some("d"));
    assert_eq!(
        render(&r, Target::Python),
        "import requests\n\nurl = 'http://h'\nheaders = {\n    'A': '1',\n}\ndata = 'd'\n\nresponse = requests.post(url, headers=headers, data=data)\nprint(response.json())"
    );
}

#[test]
fn go_with_and_without_body() {
    let with = req("POST", "http://h", &[("A", "1")], Some("p"));
    let go = render(&with, Target::Go);
    assert!(go.contains("\tpayload := []byte(`p`)\n\treq, _ := http.NewRequest(\"POST\", \"http://h\", bytes.NewBuffer(payload))\n\treq.Header.Add(\"A\", \"1\")\n"));
    let without = req("GET", "http://h", &[], None);
    assert_eq!(
        render(&without, Target::Go),
        "package main\n\nimport (\n\t\"bytes\"\n\t\"fmt\"\n\t\"io\"\n\t\"net/http\"\n)\n\nfunc main() {\n\treq, _ := http.NewRequest(\"GET\", \"http://h\", nil)\n\n\tclient := &http.Client{}\n\tres, err := client.Do(req)\n\tif err != nil {\n\t\tfmt.Println(err)\n\t\treturn\n\t}\n\tdefer res.Body.Close()\n\n\tbody, _ := io.ReadAll(res.Body)\n\tfmt.Println(string(body))\n}"
    );
}

#[test]
fn rust_escapes_double_quotes_and_lowercases_method() {
    let r = req("DELETE", "http://h", &[("K", "V")], Some("say \"hi\""));
    let code = render(&r, Target::Rust);
    assert!(code.contains("    let mut request = client.delete(\"http://h\")\n        .header(\"K\", \"V\")\n        .body(\"say \\\"hi\\\"\");\n"));
    assert!(code.ends_with("    println!(\"{}\", body);\n\n    Ok(())\n}"));
}

#[test]
fn bare_request_has_no_header_or_body_construct() {
    let r = req("GET", "http://h", &[], None);
    for t in [Target::Curl, Target::JavaScript, Target::Python, Target::Go, Target::Rust] {
        let code = render(&r, t);
        assert!(!code.contains("headers"));
        assert!(!code.contains("-H"));
        assert!(!code.contains("-d"));
        assert!(!code.contains("body:"));
        assert!(!code.contains("data = '"));
        assert!(!code.contains("data=data"));
        assert!(!code.contains("payload"));
        assert!(!code.contains(".header("));
        assert!(!code.contains(".body("));
    }
}

#[test]
fn escape_quote_doubles_nothing_else() {
    assert_eq!(escape_quote("it's", '\''), "it\\'s");
    assert_eq!(escape_quote("''", '\''), "\\'\\'");
    assert_eq!(escape_quote("a\"b", '"'), "a\\\"b");
    assert_eq!(escape_quote("a\"b", '\''), "a\"b");
    assert_eq!(escape_quote("", '\''), "");
}

#[test]
fn keep_text_entries_drops_missing_values() {
    let raw = vec![
        ("a".to_string(), Some("1".to_string())),
        ("b".to_string(), None),
        ("c".to_string(), Some("3".to_string())),
    ];
    assert_eq!(
        keep_text_entries(&raw),
        vec![("a".to_string(), "1".to_string()), ("c".to_string(), "3".to_string())]
    );
}

#[test]
fn from_parts_applies_defaults() {
    let r = SnippetRequest::from_parts(None, None, None, None);
    assert_eq!(r.method, "GET");
    assert_eq!(r.url, "");
    assert!(r.headers.is_empty());
    assert!(r.body.is_none());
}

#[test]
fn json_request_is_read_with_defaults_and_string_headers_only() {
    let v: serde_json::Value =
        serde_json::from_str(r#"{"url":"http://h","headers":{"A":"1","N":5},"body":"b"}"#)
            .unwrap();
    let r = request_from_json(&v);
    assert_eq!(r.method, "GET");
    assert_eq!(r.url, "http://h");
    assert_eq!(r.headers, vec![("A".to_string(), "1".to_string())]);
    assert_eq!(r.body, Some("b".to_string()));
    let code = generate_code_snippet(&v, &"curl".to_string()).unwrap();
    assert_eq!(code, "curl -X GET 'http://h' \\\n  -H 'A: 1' \\\n  -d 'b'");
}

#[test]
fn json_request_unknown_language() {
    let v: serde_json::Value = serde_json::from_str("{}").unwrap();
    assert_eq!(
        generate_code_snippet(&v, &"cobol".to_string()),
        Err(GenerationError::UnsupportedTarget)
    );
    assert_eq!(generate_code_snippet(&v, &"go".to_string()).is_ok(), true);
}

#[test]
fn target_names() {
    assert_eq!(Target::from_name(&"curl".to_string()), Some(Target::Curl));
    assert_eq!(Target::from_name(&"javascript".to_string()), Some(Target::JavaScript));
    assert_eq!(Target::from_name(&"python".to_string()), Some(Target::Python));
    assert_eq!(Target::from_name(&"go".to_string()), Some(Target::Go));
    assert_eq!(Target::from_name(&"rust".to_string()), Some(Target::Rust));
    assert_eq!(Target::from_name(&"Curl".to_string()), None);
}

#[test]
fn python_and_rust_use_the_given_verb() {
    let r = req("PATCH", "http://h", &[], None);
    assert_eq!(
        python_with_verb(&r, "patch"),
        "import requests\n\nurl = 'http://h'\n\nresponse = requests.patch(url)\nprint(response.json())"
    );
    assert!(rust_with_verb(&r, "patch").contains("    let mut request = client.patch(\"http://h\");\n"));
    assert_eq!(python_with_verb(&r, "patch"), render(&r, Target::Python));
    assert_eq!(rust_with_verb(&r, "patch"), render(&r, Target::Rust));
}

#[test]
fn json_request_with_method_and_non_object_headers() {
    let v: serde_json::Value =
        serde_json::from_str(r#"{"method":"PUT","url":"u","headers":"x","body":7}"#).unwrap();
    let r = request_from_json(&v);
    assert_eq!(r.method, "PUT");
    assert!(r.headers.is_empty());
    assert_eq!(r.body, None);
}
