//! Code-snippet export: one request description rendered as source code for
//! one of a closed set of targets.
use vstd::prelude::*;
use crate::text::{escape_quote, escaped, keep_text_entries, keys_distinct, pairs_view, text_entries};

verus! {

/// What `str::to_lowercase` returns for a string: it depends on the characters alone.
pub uninterp spec fn lower_of(s: Seq<char>) -> Seq<char>;

/// Relies on `str::to_lowercase` for the lower-case form of an HTTP verb.
#[verifier::external_body]
fn lowercase(s: &str) -> (r: String)
    ensures
        r@ == lower_of(s@),
{
    s.to_lowercase()
}

/// The supported output languages and tools.
#[derive(Clone, Copy, Debug, PartialEq, Eq, Structural)]
pub enum Target {
    /// A `curl` command line.
    Curl,
    /// A browser `fetch` call.
    JavaScript,
    /// A Python script using `requests`.
    Python,
    /// A Go program using `net/http`.
    Go,
    /// An async Rust program using `reqwest`.
    Rust,
}

/// The one way generation can fail.
#[derive(Clone, Copy, Debug, PartialEq, Eq, Structural)]
pub enum GenerationError {
    /// The target identifier names none of the supported targets.
    UnsupportedTarget,
}

impl GenerationError {
    /// The human-readable message of the error.
    pub fn message(&self) -> (r: String)
        ensures
            r@ == "Unsupported language"@,
    {
        String::from_str("Unsupported language")
    }
}

/// A request description as the generator reads it, with defaults applied.
#[derive(Clone, Debug)]
pub struct SnippetRequest {
    pub method: String,
    pub url: String,
    /// Header entries in iteration order; keys are expected to be distinct.
    pub headers: Vec<(String, String)>,
    /// `None` means the request has no body, unlike `Some` of an empty string.
    pub body: Option<String>,
}

/// The mathematical content of a request description.
pub struct RequestView {
    pub method: Seq<char>,
    pub url: Seq<char>,
    pub headers: Seq<(Seq<char>, Seq<char>)>,
    pub body: Option<Seq<char>>,
}

impl SnippetRequest {
    /// Header names are distinct, as in a mapping.
    pub open spec fn wf(&self) -> bool {
        keys_distinct(pairs_view(self.headers@))
    }
}

impl View for SnippetRequest {
    type V = RequestView;

    open spec fn view(&self) -> RequestView {
        RequestView {
            method: self.method@,
            url: self.url@,
            headers: pairs_view(self.headers@),
            body: match self.body {
                Some(b) => Some(b@),
                None => None,
            },
        }
    }
}

/// The target a identifier names, if any.
pub open spec fn target_named(s: Seq<char>) -> Option<Target> {
    if s == "curl"@ {
        Some(Target::Curl)
    } else if s == "javascript"@ {
        Some(Target::JavaScript)
    } else if s == "python"@ {
        Some(Target::Python)
    } else if s == "go"@ {
        Some(Target::Go)
    } else if s == "rust"@ {
        Some(Target::Rust)
    } else {
        None
    }
}

/// One line per header entry: `open`, the name, `mid`, the value, `close`.
pub open spec fn header_lines(
    h: Seq<(Seq<char>, Seq<char>)>,
    open: Seq<char>,
    mid: Seq<char>,
    close: Seq<char>,
) -> Seq<char>
    decreases h.len(),
{
    if h.len() == 0 {
        Seq::empty()
    } else {
        header_lines(h.drop_last(), open, mid, close) + open + h.last().0 + mid + h.last().1
            + close
    }
}

/// The text of `b` if present, else nothing.
pub open spec fn body_piece(b: Option<Seq<char>>, before: Seq<char>, after: Seq<char>) -> Seq<char> {
    match b {
        Some(s) => before + s + after,
        None => Seq::empty(),
    }
}

/// `piece` when `cond` holds, else nothing.
pub open spec fn piece_if(cond: bool, piece: Seq<char>) -> Seq<char> {
    if cond {
        piece
    } else {
        Seq::empty()
    }
}

pub open spec fn curl_text(r: RequestView) -> Seq<char> {
    "curl -X "@ + r.method + " '"@ + r.url + "'"@
        + header_lines(r.headers, " \\\n  -H '"@, ": "@, "'"@)
        + body_piece(r.body, " \\\n  -d '"@, "'"@)
}

pub open spec fn javascript_text(r: RequestView) -> Seq<char> {
    "const response = await fetch('"@ + r.url + "', {\n"@
        + "  method: '"@ + r.method + "',\n"@
        + piece_if(
            r.headers.len() > 0,
            "  headers: {\n"@ + header_lines(r.headers, "    '"@, "': '"@, "',\n"@) + "  },\n"@,
        )
        + piece_if(r.body is Some, "  body: '"@ + escaped(r.body->0, '\'') + "',\n"@)
        + "});\n\nconst data = await response.json();"@
}

/// `verb` is the lower-case form of the method.
pub open spec fn python_text(r: RequestView, verb: Seq<char>) -> Seq<char> {
    "import requests\n\n"@
        + "url = '"@ + r.url + "'\n"@
        + piece_if(
            r.headers.len() > 0,
            "headers = {\n"@ + header_lines(r.headers, "    '"@, "': '"@, "',\n"@) + "}\n"@,
        )
        + piece_if(r.body is Some, "data = '"@ + escaped(r.body->0, '\'') + "'\n"@)
        + "\nresponse = requests."@ + verb + "(url"@
        + piece_if(r.headers.len() > 0, ", headers=headers"@)
        + piece_if(r.body is Some, ", data=data"@)
        + ")\nprint(response.json())"@
}

pub open spec fn go_text(r: RequestView) -> Seq<char> {
    "package main\n\nimport (\n\t\"bytes\"\n\t\"fmt\"\n\t\"io\"\n\t\"net/http\"\n)\n\nfunc main() {\n"@
        + (match r.body {
            Some(b) => "\tpayload := []byte(`"@ + b + "`)\n"@
                + "\treq, _ := http.NewRequest(\""@ + r.method + "\", \""@ + r.url
                + "\", bytes.NewBuffer(payload))\n"@,
            None => "\treq, _ := http.NewRequest(\""@ + r.method + "\", \""@ + r.url
                + "\", nil)\n"@,
        })
        + header_lines(r.headers, "\treq.Header.Add(\""@, "\", \""@, "\")\n"@)
        + "\n\tclient := &http.Client{}\n"@
        + "\tres, err := client.Do(req)\n"@
        + "\tif err != nil {\n\t\tfmt.Println(err)\n\t\treturn\n\t}\n"@
        + "\tdefer res.Body.Close()\n\n"@
        + "\tbody, _ := io.ReadAll(res.Body)\n"@
        + "\tfmt.Println(string(body))\n}"@
}

/// `verb` is the lower-case form of the method.
pub open spec fn rust_text(r: RequestView, verb: Seq<char>) -> Seq<char> {
    "use reqwest;\n\n#[tokio::main]\nasync fn main() -> Result<(), Box<dyn std::error::Error>> {\n"@
        + "    let client = reqwest::Client::new();\n"@
        + "    let mut request = client."@ + verb + "(\""@ + r.url + "\")"@
        + header_lines(r.headers, "\n        .header(\""@, "\", \""@, "\")"@)
        + piece_if(r.body is Some, "\n        .body(\""@ + escaped(r.body->0, '"') + "\")"@)
        + ";\n\n    let response = request.send().await?;\n"@
        + "    let body = response.text().await?;\n"@
        + "    println!(\"{}\", body);\n\n    Ok(())\n}"@
}

/// The snippet for request `r` in target `t`.
pub open spec fn snippet_text(t: Target, r: RequestView) -> Seq<char> {
    match t {
        Target::Curl => curl_text(r),
        Target::JavaScript => javascript_text(r),
        Target::Python => python_text(r, lower_of(r.method)),
        Target::Go => go_text(r),
        Target::Rust => rust_text(r, lower_of(r.method)),
    }
}

/// Appends one line per header entry to `code`.
fn push_header_lines(
    code: &mut String,
    headers: &Vec<(String, String)>,
    open: &str,
    mid: &str,
    close: &str,
)
    ensures
        final(code)@ == old(code)@ + header_lines(pairs_view(headers@), open@, mid@, close@),
{
    let mut i: usize = 0;
    while i < headers.len()
        invariant
            i <= headers@.len(),
            code@ == old(code)@ + header_lines(
                pairs_view(headers@.subrange(0, i as int)),
                open@,
                mid@,
                close@,
            ),
        decreases headers@.len() - i,
    {
        proof {
            assert(pairs_view(headers@.subrange(0, i + 1)).drop_last() =~= pairs_view(
                headers@.subrange(0, i as int),
            ));
        }
        code.append(open);
        code.append(headers[i].0.as_str());
        code.append(mid);
        code.append(headers[i].1.as_str());
        code.append(close);
        proof {
            assert(code@ =~= old(code)@ + header_lines(
                pairs_view(headers@.subrange(0, i + 1)),
                open@,
                mid@,
                close@,
            ));
        }
        i = i + 1;
    }
    proof {
        assert(headers@.subrange(0, headers@.len() as int) =~= headers@);
    }
}

/// Renders the `curl` command line.
pub fn generate_curl(r: &SnippetRequest) -> (code: String)
    ensures
        code@ == curl_text(r@),
{
    let mut code = String::from_str("curl -X ");
    code.append(r.method.as_str());
    code.append(" '");
    code.append(r.url.as_str());
    code.append("'");
    push_header_lines(&mut code, &r.headers, " \\\n  -H '", ": ", "'");
    match &r.body {
        Some(b) => {
            code.append(" \\\n  -d '");
            code.append(b.as_str());
            code.append("'");
        },
        None => {},
    }
    assert(code@ =~= curl_text(r@));
    code
}

/// Renders the browser `fetch` call; single quotes in the body are escaped.
pub fn generate_javascript(r: &SnippetRequest) -> (code: String)
    ensures
        code@ == javascript_text(r@),
{
    let mut code = String::from_str("const response = await fetch('");
    code.append(r.url.as_str());
    code.append("', {\n");
    code.append("  method: '");
    code.append(r.method.as_str());
    code.append("',\n");
    let ghost head = code@;
    if r.headers.len() > 0 {
        code.append("  headers: {\n");
        push_header_lines(&mut code, &r.headers, "    '", "': '", "',\n");
        code.append("  },\n");
    }
    let ghost with_headers = code@;
    assert(with_headers =~= head + piece_if(
        r@.headers.len() > 0,
        "  headers: {\n"@ + header_lines(pairs_view(r.headers@), "    '"@, "': '"@, "',\n"@) + "  },\n"@,
    ));
    match &r.body {
        Some(b) => {
            code.append("  body: '");
            let e = escape_quote(b.as_str(), '\'');
            code.append(e.as_str());
            code.append("',\n");
        },
        None => {},
    }
    code.append("});\n\nconst data = await response.json();");
    assert(code@ =~= javascript_text(r@));
    code
}

/// Renders the Python `requests` script; single quotes in the body are escaped.
pub fn generate_python(r: &SnippetRequest) -> (code: String)
    ensures
        code@ == python_text(r@, lower_of(r.method@)),
{
    let verb = lowercase(r.method.as_str());
    python_with_verb(r, verb.as_str())
}

/// The Python script for `r`, calling the `requests` function named `verb`.
pub fn python_with_verb(r: &SnippetRequest, verb: &str) -> (code: String)
    ensures
        code@ == python_text(r@, verb@),
{
    let mut code = String::from_str("import requests\n\n");
    code.append("url = '");
    code.append(r.url.as_str());
    code.append("'\n");
    let ghost head = code@;
    let has_headers = r.headers.len() > 0;
    if has_headers {
        code.append("headers = {\n");
        push_header_lines(&mut code, &r.headers, "    '", "': '", "',\n");
        code.append("}\n");
    }
    let ghost with_headers = code@;
    assert(with_headers =~= head + piece_if(
        r@.headers.len() > 0,
        "headers = {\n"@ + header_lines(pairs_view(r.headers@), "    '"@, "': '"@, "',\n"@) + "}\n"@,
    ));
    match &r.body {
        Some(b) => {
            code.append("data = '");
            let e = escape_quote(b.as_str(), '\'');
            code.append(e.as_str());
            code.append("'\n");
        },
        None => {},
    }
    code.append("\nresponse = requests.");
    code.append(verb);
    code.append("(url");
    if has_headers {
        code.append(", headers=headers");
    }
    if r.body.is_some() {
        code.append(", data=data");
    }
    code.append(")\nprint(response.json())");
    assert(code@ =~= python_text(r@, verb@));
    code
}

/// Renders the Go program, with a payload buffer only when a body is present.
pub fn generate_go(r: &SnippetRequest) -> (code: String)
    ensures
        code@ == go_text(r@),
{
    let mut code = String::from_str(
        "package main\n\nimport (\n\t\"bytes\"\n\t\"fmt\"\n\t\"io\"\n\t\"net/http\"\n)\n\nfunc main() {\n",
    );
    match &r.body {
        Some(b) => {
            code.append("\tpayload := []byte(`");
            code.append(b.as_str());
            code.append("`)\n");
            code.append("\treq, _ := http.NewRequest(\"");
            code.append(r.method.as_str());
            code.append("\", \"");
            code.append(r.url.as_str());
            code.append("\", bytes.NewBuffer(payload))\n");
        },
        None => {
            code.append("\treq, _ := http.NewRequest(\"");
            code.append(r.method.as_str());
            code.append("\", \"");
            code.append(r.url.as_str());
            code.append("\", nil)\n");
        },
    }
    push_header_lines(&mut code, &r.headers, "\treq.Header.Add(\"", "\", \"", "\")\n");
    code.append("\n\tclient := &http.Client{}\n");
    code.append("\tres, err := client.Do(req)\n");
    code.append("\tif err != nil {\n\t\tfmt.Println(err)\n\t\treturn\n\t}\n");
    code.append("\tdefer res.Body.Close()\n\n");
    code.append("\tbody, _ := io.ReadAll(res.Body)\n");
    code.append("\tfmt.Println(string(body))\n}");
    assert(code@ =~= go_text(r@));
    code
}

/// Renders the async Rust program; double quotes in the body are escaped.
pub fn generate_rust(r: &SnippetRequest) -> (code: String)
    ensures
        code@ == rust_text(r@, lower_of(r.method@)),
{
    let verb = lowercase(r.method.as_str());
    rust_with_verb(r, verb.as_str())
}

/// The Rust program for `r`, calling the client method named `verb`.
pub fn rust_with_verb(r: &SnippetRequest, verb: &str) -> (code: String)
    ensures
        code@ == rust_text(r@, verb@),
{
    let mut code = String::from_str(
        "use reqwest;\n\n#[tokio::main]\nasync fn main() -> Result<(), Box<dyn std::error::Error>> {\n",
    );
    code.append("    let client = reqwest::Client::new();\n");
    code.append("    let mut request = client.");
    code.append(verb);
    code.append("(\"");
    code.append(r.url.as_str());
    code.append("\")");
    push_header_lines(&mut code, &r.headers, "\n        .header(\"", "\", \"", "\")");
    match &r.body {
        Some(b) => {
            code.append("\n        .body(\"");
            let e = escape_quote(b.as_str(), '"');
            code.append(e.as_str());
            code.append("\")");
        },
        None => {},
    }
    code.append(";\n\n    let response = request.send().await?;\n");
    code.append("    let body = response.text().await?;\n");
    code.append("    println!(\"{}\", body);\n\n    Ok(())\n}");
    assert(code@ =~= rust_text(r@, verb@));
    code
}

impl Target {
    /// The target that an identifier names: `curl`, `javascript`, `python`, `go` or `rust`.
    pub fn from_name(name: &String) -> (t: Option<Target>)
        ensures
            t == target_named(name@),
    {
        if *name == String::from_str("curl") {
            Some(Target::Curl)
        } else if *name == String::from_str("javascript") {
            Some(Target::JavaScript)
        } else if *name == String::from_str("python") {
            Some(Target::Python)
        } else if *name == String::from_str("go") {
            Some(Target::Go)
        } else if *name == String::from_str("rust") {
            Some(Target::Rust)
        } else {
            None
        }
    }
}

impl SnippetRequest {
    /// Builds a description from possibly missing parts: the method defaults to
    /// `GET`, the url to the empty string, and header entries whose value is not
    /// text are left out.
    pub fn from_parts(
        method: Option<String>,
        url: Option<String>,
        headers: Option<Vec<(String, Option<String>)>>,
        body: Option<String>,
    ) -> (r: SnippetRequest)
        ensures
            r.method@ == (match method {
                Some(m) => m@,
                None => "GET"@,
            }),
            r.url@ == (match url {
                Some(u) => u@,
                None => Seq::<char>::empty(),
            }),
            r.headers@ == (match headers {
                Some(h) => text_entries(h@),
                None => Seq::<(String, String)>::empty(),
            }),
            r.body == body,
    {
        let method = match method {
            Some(m) => m,
            None => String::from_str("GET"),
        };
        let url = match url {
            Some(u) => u,
            None => String::new(),
        };
        let headers = match headers {
            Some(h) => keep_text_entries(&h),
            None => Vec::new(),
        };
        SnippetRequest { method, url, headers, body }
    }
}

/// Renders `r` as source code for `t`.
pub fn render(r: &SnippetRequest, t: Target) -> (code: String)
    ensures
        code@ == snippet_text(t, r@),
{
    match t {
        Target::Curl => generate_curl(r),
        Target::JavaScript => generate_javascript(r),
        Target::Python => generate_python(r),
        Target::Go => generate_go(r),
        Target::Rust => generate_rust(r),
    }
}

/// Renders `r` for the target named `language`; fails only when no supported
/// target has that name.
pub fn generate(r: &SnippetRequest, language: &String) -> (res: Result<String, GenerationError>)
    ensures
        match target_named(language@) {
            Some(t) => res is Ok && res->Ok_0@ == snippet_text(t, r@),
            None => res == Err::<String, GenerationError>(GenerationError::UnsupportedTarget),
        },
{
    match Target::from_name(language) {
        Some(t) => Ok(render(r, t)),
        None => Err(GenerationError::UnsupportedTarget),
    }
}

/// A request without headers or body: for every target the snippet is the
/// bare template, with no headers construct and no body construct in it.
pub open spec fn bare_text(t: Target, method: Seq<char>, url: Seq<char>) -> Seq<char> {
    match t {
        Target::Curl => "curl -X "@ + method + " '"@ + url + "'"@,
        Target::JavaScript => "const response = await fetch('"@ + url + "', {\n"@ + "  method: '"@
            + method + "',\n"@ + "});\n\nconst data = await response.json();"@,
        Target::Python => "import requests\n\n"@ + "url = '"@ + url + "'\n"@
            + "\nresponse = requests."@ + lower_of(method) + "(url"@
            + ")\nprint(response.json())"@,
        Target::Go => "package main\n\nimport (\n\t\"bytes\"\n\t\"fmt\"\n\t\"io\"\n\t\"net/http\"\n)\n\nfunc main() {\n"@
            + "\treq, _ := http.NewRequest(\""@ + method + "\", \""@ + url + "\", nil)\n"@
            + "\n\tclient := &http.Client{}\n"@ + "\tres, err := client.Do(req)\n"@
            + "\tif err != nil {\n\t\tfmt.Println(err)\n\t\treturn\n\t}\n"@
            + "\tdefer res.Body.Close()\n\n"@ + "\tbody, _ := io.ReadAll(res.Body)\n"@
            + "\tfmt.Println(string(body))\n}"@,
        Target::Rust => "use reqwest;\n\n#[tokio::main]\nasync fn main() -> Result<(), Box<dyn std::error::Error>> {\n"@
            + "    let client = reqwest::Client::new();\n"@ + "    let mut request = client."@
            + lower_of(method) + "(\""@ + url + "\")"@
            + ";\n\n    let response = request.send().await?;\n"@
            + "    let body = response.text().await?;\n"@
            + "    println!(\"{}\", body);\n\n    Ok(())\n}"@,
    }
}

/// For every target, a request with no header entries and no body renders as
/// the bare template of that target: no headers construct and no body
/// construct is emitted.
pub proof fn lemma_no_headers_no_body(t: Target, r: RequestView)
    requires
        r.headers.len() == 0,
        r.body is None,
    ensures
        snippet_text(t, r) == bare_text(t, r.method, r.url),
{
    assert(header_lines(r.headers, " \\\n  -H '"@, ": "@, "'"@) == Seq::<char>::empty());
    assert(header_lines(r.headers, "\treq.Header.Add(\""@, "\", \""@, "\")\n"@)
        == Seq::<char>::empty());
    assert(header_lines(r.headers, "\n        .header(\""@, "\", \""@, "\")"@)
        == Seq::<char>::empty());
    assert(snippet_text(t, r) =~= bare_text(t, r.method, r.url));
}

#[verifier::external_type_specification]
#[verifier::external_body]
pub struct ExJsonValue(serde_json::Value);

/// What serde_json's indexing of a `Value` by a key returns.
pub uninterp spec fn json_at(v: serde_json::Value, key: Seq<char>) -> serde_json::Value;

/// The text of a JSON string value, `None` for any other value.
pub uninterp spec fn json_str_of(v: serde_json::Value) -> Option<Seq<char>>;

/// The entries of a JSON object value in its iteration order, `None` for any other value.
pub uninterp spec fn json_entries_of(v: serde_json::Value) -> Option<
    Seq<(Seq<char>, serde_json::Value)>,
>;

/// Relies on serde_json's indexing of a `Value` by key: the value stored
/// under `key`, or `Null` when `v` is not an object or has no such key.
#[verifier::external_body]
fn json_field<'a>(v: &'a serde_json::Value, key: &str) -> (r: &'a serde_json::Value)
    ensures
        *r == json_at(*v, key@),
{
    &v[key]
}

/// Relies on `serde_json::Value::as_str`: the text of a string value, else `None`.
#[verifier::external_body]
fn json_text(v: &serde_json::Value) -> (r: Option<String>)
    ensures
        json_str_of(*v) == (match r {
            Some(s) => Some(s@),
            None => None,
        }),
{
    v.as_str().map(String::from)
}

/// Relies on `serde_json::Value::as_object`: the entries of an object value in
/// the map's iteration order, else `None`.
#[verifier::external_body]
fn json_entries(v: &serde_json::Value) -> (r: Option<Vec<(String, serde_json::Value)>>)
    ensures
        json_entries_of(*v) == (match r {
            Some(es) => Some(es@.map_values(|p: (String, serde_json::Value)| (p.0@, p.1))),
            None => None,
        }),
        r is Some ==> keys_distinct(r->0@.map_values(|p: (String, serde_json::Value)| (p.0@, p.1))),
{
    v.as_object().map(|m| m.iter().map(|(k, x)| (k.clone(), x.clone())).collect())
}

/// The entries whose value is a JSON string, in order, with that string as value.
pub open spec fn json_text_pairs(es: Seq<(Seq<char>, serde_json::Value)>) -> Seq<
    (Seq<char>, Seq<char>),
>
    decreases es.len(),
{
    if es.len() == 0 {
        Seq::empty()
    } else {
        let rest = json_text_pairs(es.drop_last());
        match json_str_of(es.last().1) {
            Some(s) => rest.push((es.last().0, s)),
            None => rest,
        }
    }
}

/// Every name of `json_text_pairs(es)` is a name of `es`.
proof fn lemma_text_pairs_names(es: Seq<(Seq<char>, serde_json::Value)>)
    ensures
        forall|j: int|
            0 <= j < json_text_pairs(es).len() ==> exists|k: int|
                0 <= k < es.len() && #[trigger] json_text_pairs(es)[j].0 == es[k].0,
    decreases es.len(),
{
    if es.len() > 0 {
        lemma_text_pairs_names(es.drop_last());
        let rest = json_text_pairs(es.drop_last());
        assert forall|j: int| 0 <= j < json_text_pairs(es).len() implies exists|k: int|
            0 <= k < es.len() && #[trigger] json_text_pairs(es)[j].0 == es[k].0 by {
            if j < rest.len() {
                let k = choose|k: int|
                    0 <= k < es.drop_last().len() && #[trigger] rest[j].0 == es.drop_last()[k].0;
                assert(es[k] == es.drop_last()[k]);
            } else {
                assert(json_text_pairs(es)[j].0 == es[es.len() - 1].0);
            }
        }
    }
}

/// Filtering keeps names distinct.
proof fn lemma_text_pairs_distinct(es: Seq<(Seq<char>, serde_json::Value)>)
    requires
        keys_distinct(es),
    ensures
        keys_distinct(json_text_pairs(es)),
    decreases es.len(),
{
    if es.len() > 0 {
        let init = es.drop_last();
        assert(keys_distinct(init)) by {
            assert forall|i: int, j: int| 0 <= i < j < init.len() implies init[i].0 != init[j].0 by {
                assert(init[i] == es[i] && init[j] == es[j]);
            }
        }
        lemma_text_pairs_distinct(init);
        lemma_text_pairs_names(init);
        let rest = json_text_pairs(init);
        assert forall|j: int| 0 <= j < rest.len() implies rest[j].0 != es.last().0 by {
            let k = choose|k: int| 0 <= k < init.len() && #[trigger] rest[j].0 == init[k].0;
            assert(init[k] == es[k]);
        }
    }
}

/// The request description that untyped data `v` holds, with defaults applied.
pub open spec fn json_request(v: serde_json::Value) -> RequestView {
    RequestView {
        method: match json_str_of(json_at(v, "method"@)) {
            Some(m) => m,
            None => "GET"@,
        },
        url: match json_str_of(json_at(v, "url"@)) {
            Some(u) => u,
            None => Seq::empty(),
        },
        headers: match json_entries_of(json_at(v, "headers"@)) {
            Some(es) => json_text_pairs(es),
            None => Seq::empty(),
        },
        body: json_str_of(json_at(v, "body"@)),
    }
}

/// Reads a request description out of untyped structured data: the string
/// fields `method`, `url` and `body`, and the object `headers`, whose entries
/// with a non-string value are left out. The method defaults to `GET` and the
/// url to the empty string.
pub fn request_from_json(v: &serde_json::Value) -> (r: SnippetRequest)
    ensures
        r@ == json_request(*v),
        r.wf(),
{
    let method = match json_text(json_field(v, "method")) {
        Some(m) => m,
        None => String::from_str("GET"),
    };
    let url = match json_text(json_field(v, "url")) {
        Some(u) => u,
        None => String::new(),
    };
    let body = json_text(json_field(v, "body"));
    let mut headers: Vec<(String, String)> = Vec::new();
    match json_entries(json_field(v, "headers")) {
        Some(entries) => {
            let ghost es = entries@.map_values(|p: (String, serde_json::Value)| (p.0@, p.1));
            let mut i: usize = 0;
            while i < entries.len()
                invariant
                    i <= entries@.len(),
                    es == entries@.map_values(|p: (String, serde_json::Value)| (p.0@, p.1)),
                    pairs_view(headers@) == json_text_pairs(es.subrange(0, i as int)),
                decreases entries@.len() - i,
            {
                proof {
                    assert(es.subrange(0, i + 1).drop_last() =~= es.subrange(0, i as int));
                }
                match json_text(&entries[i].1) {
                    Some(s) => {
                        headers.push((entries[i].0.clone(), s));
                        proof {
                            assert(pairs_view(headers@) =~= json_text_pairs(
                                es.subrange(0, i + 1),
                            ));
                        }
                    },
                    None => {},
                }
                i = i + 1;
            }
            proof {
                assert(es.subrange(0, es.len() as int) =~= es);
                lemma_text_pairs_distinct(es);
            }
        },
        None => {
            assert(pairs_view(headers@) =~= Seq::<(Seq<char>, Seq<char>)>::empty());
        },
    }
    let r = SnippetRequest { method, url, headers, body };
    assert(r@.body == json_request(*v).body);
    r
}

/// Renders untyped request data for the target named `language`; fails, with
/// no output, exactly when no supported target has that name.
pub fn generate_code_snippet(request: &serde_json::Value, language: &String) -> (res: Result<
    String,
    GenerationError,
>)
    ensures
        match target_named(language@) {
            Some(t) => res is Ok && res->Ok_0@ == snippet_text(t, json_request(*request)),
            None => res == Err::<String, GenerationError>(GenerationError::UnsupportedTarget),
        },
{
    let r = request_from_json(request);
    generate(&r, language)
}

} // verus!
