use imgup::Config;
use imgup::FormPart;
use imgup::JsonVal;
use imgup::PathStep;
use imgup::UploadResult;
use imgup::base_name;
use imgup::build_form_parts;
use imgup::interpret_parsed;
use imgup::interpret_response;
use imgup::load_configs;
use imgup::local_file_error;
use imgup::parse_config;
use imgup::select_config;
use imgup::str_eq;
use imgup::str_starts_with;
use imgup::use_build_in_config;

fn simple_config(response: Vec<PathStep>, message: Vec<PathStep>) -> Config {
    Config {
        name: "testsrv".to_string(),
        url: "https://example.org/upload".to_string(),
        headers: Vec::new(),
        form: Vec::new(),
        form_file: "file".to_string(),
        response,
        message,
    }
}

fn key(k: &str) -> PathStep {
    PathStep::ObjectKey(k.to_string())
}

#[test]
fn plain_text_url_body_is_success() {
    let config = simple_config(Vec::new(), Vec::new());
    let body = "https://example.org/i/123.png";
    match interpret_response(&config, body) {
        UploadResult::Success(u) => assert_eq!(u, body),
        UploadResult::Failure(m) => panic!("expected success, got failure: {}", m),
    }
}

#[test]
fn plain_text_url_needs_empty_success_path() {
    let config = simple_config(vec![key("data")], Vec::new());
    let body = "https://example.org/i/123.png";
    match interpret_response(&config, body) {
        UploadResult::Success(u) => panic!("expected failure, got success: {}", u),
        UploadResult::Failure(m) => assert!(m.contains(body)),
    }
}

#[test]
fn missing_key_falls_through_to_error_path() {
    let config = simple_config(vec![key("data"), key("url")], vec![key("msg")]);
    let parsed = JsonVal::Obj(vec![
        ("other".to_string(), JsonVal::Int(1)),
        ("msg".to_string(), JsonVal::Str("no data here".to_string())),
    ]);
    match interpret_parsed(&config, Some(parsed), "{}") {
        UploadResult::Failure(m) => assert_eq!(m, "no data here"),
        UploadResult::Success(u) => panic!("expected failure, got success: {}", u),
    }
}

#[test]
fn out_of_range_index_falls_through() {
    let config = simple_config(
        vec![key("items"), PathStep::ArrayIndex(3)],
        vec![key("msg")],
    );
    let parsed = JsonVal::Obj(vec![
        ("items".to_string(), JsonVal::Arr(vec![JsonVal::Str("only one".to_string())])),
        ("msg".to_string(), JsonVal::Str("index too large".to_string())),
    ]);
    match interpret_parsed(&config, Some(parsed), "{}") {
        UploadResult::Failure(m) => assert_eq!(m, "index too large"),
        UploadResult::Success(u) => panic!("expected failure, got success: {}", u),
    }
}

#[test]
fn non_string_at_success_path_falls_through() {
    let config = simple_config(vec![key("data")], vec![key("msg")]);
    let parsed = JsonVal::Obj(vec![
        ("data".to_string(), JsonVal::Obj(vec![])),
        ("msg".to_string(), JsonVal::Str("data is no string".to_string())),
    ]);
    match interpret_parsed(&config, Some(parsed), "{}") {
        UploadResult::Failure(m) => assert_eq!(m, "data is no string"),
        UploadResult::Success(u) => panic!("expected failure, got success: {}", u),
    }
}

#[test]
fn key_step_into_array_falls_through() {
    let config = simple_config(vec![key("url")], vec![key("msg")]);
    let parsed = JsonVal::Arr(vec![JsonVal::Str("not an object".to_string())]);
    match interpret_parsed(&config, Some(parsed), "[]") {
        UploadResult::Failure(m) => assert_eq!(m, "response could not be interpreted"),
        UploadResult::Success(u) => panic!("expected failure, got success: {}", u),
    }
}

#[test]
fn absent_form_file_defaults_to_empty() {
    let entry = JsonVal::Obj(vec![
        ("name".to_string(), JsonVal::Str("srv".to_string())),
        ("url".to_string(), JsonVal::Str("https://s/u".to_string())),
    ]);
    let configs = parse_config(&JsonVal::Arr(vec![entry]));
    assert_eq!(configs.len(), 1);
    assert_eq!(configs[0].form_file, "");
    assert!(configs[0].headers.is_empty());
    assert!(configs[0].response.is_empty());
}

#[test]
fn round_trip_success_path() {
    let config = simple_config(vec![key("data"), key("url")], vec![key("msg")]);
    let body = "{\"data\":{\"url\":\"https://x/y.png\"}}";
    match interpret_response(&config, body) {
        UploadResult::Success(u) => assert_eq!(u, "https://x/y.png"),
        UploadResult::Failure(m) => panic!("expected success, got failure: {}", m),
    }
}

#[test]
fn error_path_yields_failure_message() {
    let config = simple_config(vec![key("data"), key("url")], vec![key("msg")]);
    let body = "{\"code\":1,\"msg\":\"bad token\"}";
    match interpret_response(&config, body) {
        UploadResult::Failure(m) => assert_eq!(m, "bad token"),
        UploadResult::Success(u) => panic!("expected failure, got success: {}", u),
    }
}

#[test]
fn neither_path_yields_fixed_reason() {
    let config = simple_config(vec![key("data")], vec![key("msg")]);
    let body = "{\"code\":200}";
    match interpret_response(&config, body) {
        UploadResult::Failure(m) => assert_eq!(m, "response could not be interpreted"),
        UploadResult::Success(u) => panic!("expected failure, got success: {}", u),
    }
}

#[test]
fn unparseable_body_failure_contains_body() {
    let config = simple_config(Vec::new(), Vec::new());
    let body = "<!-- not json, not a url -->";
    match interpret_response(&config, body) {
        UploadResult::Failure(m) => {
            assert!(m.contains(body));
            assert_eq!(m, format!("could not parse response: {}", body));
        },
        UploadResult::Success(u) => panic!("expected failure, got success: {}", u),
    }
}

#[test]
fn uploadcc_success_is_prefixed() {
    let servers = use_build_in_config();
    let config = select_config(&servers, "uploadcc").expect("uploadcc is builtin");
    let body = "{\"success_image\":[{\"url\":\"012.png\"}]}";
    match interpret_response(config, body) {
        UploadResult::Success(u) => assert_eq!(u, "https://upload.cc/012.png"),
        UploadResult::Failure(m) => panic!("expected success, got failure: {}", m),
    }
}

#[test]
fn uploadcc_miss_is_fixed_failure() {
    let servers = use_build_in_config();
    let config = select_config(&servers, "uploadcc").expect("uploadcc is builtin");
    let body = "{\"success_image\":[]}";
    match interpret_response(config, body) {
        UploadResult::Failure(m) => assert_eq!(m, "Unable to upload file to upload.cc"),
        UploadResult::Success(u) => panic!("expected success prefix, got: {}", u),
    }
}

#[test]
fn multipart_has_one_file_part_and_all_text_parts() {
    let mut config = simple_config(Vec::new(), Vec::new());
    config.form = vec![
        ("alpha".to_string(), "1".to_string()),
        ("beta".to_string(), "2".to_string()),
    ];
    config.form_file = "file".to_string();
    let parts = build_form_parts(&config, "pic.png".to_string(), vec![7u8, 8u8, 9u8]);
    assert_eq!(parts.len(), 3);
    let mut file_parts: usize = 0;
    let mut text_parts: usize = 0;
    for part in parts.iter() {
        match part {
            FormPart::TextPart { name, value } => {
                text_parts += 1;
                assert!(
                    (name == "alpha" && value == "1") || (name == "beta" && value == "2"),
                    "unexpected text part {}={}",
                    name,
                    value
                );
            },
            FormPart::FilePart { name, filename, bytes } => {
                file_parts += 1;
                assert_eq!(name, "file");
                assert_eq!(filename, "pic.png");
                assert_eq!(bytes, &vec![7u8, 8u8, 9u8]);
            },
        }
    }
    assert_eq!(file_parts, 1);
    assert_eq!(text_parts, 2);
}

#[test]
fn directory_path_is_failure_before_any_request() {
    match local_file_error("some/dir", false) {
        Some(m) => assert_eq!(m, "`some/dir` is not a file"),
        None => panic!("a non-file must be rejected"),
    }
    assert!(local_file_error("some/file.png", true).is_none());
}

#[test]
fn headers_truncate_at_non_string_value() {
    let entry = JsonVal::Obj(vec![
        ("name".to_string(), JsonVal::Str("srv".to_string())),
        ("url".to_string(), JsonVal::Str("https://s/u".to_string())),
        (
            "headers".to_string(),
            JsonVal::Obj(vec![
                ("h1".to_string(), JsonVal::Str("v1".to_string())),
                ("h2".to_string(), JsonVal::Str("v2".to_string())),
                ("h3".to_string(), JsonVal::Int(5)),
                ("h4".to_string(), JsonVal::Str("v4".to_string())),
            ]),
        ),
    ]);
    let configs = parse_config(&JsonVal::Arr(vec![entry]));
    assert_eq!(configs.len(), 1);
    let headers = &configs[0].headers;
    assert_eq!(headers.len(), 2);
    assert_eq!(headers[0], ("h1".to_string(), "v1".to_string()));
    assert_eq!(headers[1], ("h2".to_string(), "v2".to_string()));
}

#[test]
fn bad_name_truncates_remaining_entries() {
    let good = |n: &str| {
        JsonVal::Obj(vec![
            ("name".to_string(), JsonVal::Str(n.to_string())),
            ("url".to_string(), JsonVal::Str("https://s/u".to_string())),
        ])
    };
    let bad = JsonVal::Obj(vec![
        ("name".to_string(), JsonVal::Int(1)),
        ("url".to_string(), JsonVal::Str("https://s/u".to_string())),
    ]);
    let configs = parse_config(&JsonVal::Arr(vec![good("one"), bad, good("three")]));
    assert_eq!(configs.len(), 1);
    assert_eq!(configs[0].name, "one");
}

#[test]
fn empty_name_drops_only_that_entry() {
    let entries = vec![
        JsonVal::Obj(vec![
            ("name".to_string(), JsonVal::Str("".to_string())),
            ("url".to_string(), JsonVal::Str("https://s/u".to_string())),
        ]),
        JsonVal::Obj(vec![
            ("name".to_string(), JsonVal::Str("kept".to_string())),
            ("url".to_string(), JsonVal::Str("https://s/u".to_string())),
        ]),
    ];
    let configs = parse_config(&JsonVal::Arr(entries));
    assert_eq!(configs.len(), 1);
    assert_eq!(configs[0].name, "kept");
}

#[test]
fn load_configs_reads_paths_and_skips_bad_steps() {
    let text = "[{\"name\":\"srv\",\"url\":\"https://s/u\",\
                 \"form_file\":\"blob\",\
                 \"response\":[\"data\",true,0,\"url\",-1],\
                 \"message\":[\"msg\"]}]";
    let configs = load_configs(text).expect("valid json");
    assert_eq!(configs.len(), 1);
    let c = &configs[0];
    assert_eq!(c.name, "srv");
    assert_eq!(c.url, "https://s/u");
    assert_eq!(c.form_file, "blob");
    assert_eq!(c.response.len(), 3);
    assert!(matches!(c.response[0], PathStep::ObjectKey(ref k) if k == "data"));
    assert!(matches!(c.response[1], PathStep::ArrayIndex(0)));
    assert!(matches!(c.response[2], PathStep::ObjectKey(ref k) if k == "url"));
    assert_eq!(c.message.len(), 1);
    assert!(matches!(c.message[0], PathStep::ObjectKey(ref k) if k == "msg"));
}

#[test]
fn load_configs_rejects_invalid_json() {
    assert!(load_configs("not json at all").is_none());
}

#[test]
fn builtin_catalog_is_complete() {
    let servers = use_build_in_config();
    assert_eq!(servers.len(), 7);
    let names: Vec<&str> = servers.iter().map(|c| c.name.as_str()).collect();
    assert_eq!(
        names,
        vec!["smms", "imgkr", "imgtp", "moebox", "vgy", "yujian", "uploadcc"]
    );
    let smms = &servers[0];
    assert_eq!(smms.url, "https://sm.ms/api/v2/upload");
    assert_eq!(smms.form_file, "smfile");
    assert_eq!(smms.headers.len(), 1);
    assert_eq!(smms.headers[0].0, "Authorization");
    assert_eq!(smms.response.len(), 2);
    let uploadcc = &servers[6];
    assert_eq!(uploadcc.form_file, "uploaded_file[]");
    assert!(matches!(uploadcc.response[1], PathStep::ArrayIndex(0)));
    let moebox = &servers[3];
    assert_eq!(moebox.form, vec![("reqtype".to_string(), "fileupload".to_string())]);
    assert!(moebox.response.is_empty());
}

#[test]
fn select_config_last_match_wins() {
    let mut servers = use_build_in_config();
    let mut shadow = simple_config(Vec::new(), Vec::new());
    shadow.name = "smms".to_string();
    shadow.url = "https://shadow.example/upload".to_string();
    servers.push(shadow);
    let picked = select_config(&servers, "smms").expect("smms exists");
    assert_eq!(picked.url, "https://shadow.example/upload");
    assert!(select_config(&servers, "nosuch").is_none());
}

#[test]
fn base_name_takes_suffix_after_last_separator() {
    assert_eq!(base_name("a/b/c.png"), "c.png");
    assert_eq!(base_name("noslash.jpg"), "noslash.jpg");
    assert_eq!(base_name("dir/"), "");
    assert_eq!(base_name(""), "");
}

#[test]
fn string_helpers_behave() {
    assert!(str_eq("abc", "abc"));
    assert!(!str_eq("abc", "abd"));
    assert!(!str_eq("abc", "ab"));
    assert!(str_starts_with("http://x", "http"));
    assert!(!str_starts_with("htt", "http"));
}
