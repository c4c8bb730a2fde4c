use aiome::common::ProjectType;
use aiome::init::{parse_language, resolve_target, target_path, InitError, InitLanguage, InitTarget};
use aiome::python_check::{check_requirements, recommended_package};
use aiome::scanner::{find_secret_lines, is_scannable_file};
use aiome::stream::{decode_chunk, drain_ndjson, drain_sse_events, drain_sse_lines, StreamFormat};

#[test]
fn scannable_files() {
    assert!(is_scannable_file("./src/main.rs"));
    assert!(is_scannable_file("./config.env"));
    assert!(is_scannable_file("x.yml"));
    assert!(!is_scannable_file("./.env"));
    assert!(!is_scannable_file("./README"));
    assert!(!is_scannable_file("./notes.txt"));
    assert!(!is_scannable_file("./archive.tar.gz"));
}

#[test]
fn secret_lines() {
    let content = "let a = 1;\napi_key = \"abcdefghijkl1234\"\n  PASSWORD: 'abcdefghijklm'  \ntoken = \"short\"";
    assert_eq!(
        find_secret_lines(content),
        vec![
            (2, "api_key = \"abcdefghijkl1234\"".to_string()),
            (3, "PASSWORD: 'abcdefghijklm'".to_string()),
        ]
    );
    assert_eq!(find_secret_lines(""), Vec::<(usize, String)>::new());
}

#[test]
fn python_requirements() {
    assert_eq!(recommended_package(0).0, "defusedxml");
    assert_eq!(check_requirements("Bandit==1.7\nrequests"), (vec![false, true, false], 2));
    assert_eq!(check_requirements("defusedxml\nbandit\npip-audit"), (vec![true, true, true], 0));
}

#[test]
fn init_targets() {
    assert_eq!(parse_language("rust"), Ok(InitLanguage::Rust));
    assert_eq!(parse_language("auto"), Ok(InitLanguage::Auto));
    let err = parse_language("go").unwrap_err();
    assert_eq!(err, InitError::UnknownLanguage("go".to_string()));
    assert_eq!(err.message(), "Unknown language: 'go'. Supported: rust, python, auto");
    assert_eq!(resolve_target(InitLanguage::Python, ProjectType::Rust), Ok(InitTarget::Python));
    assert_eq!(resolve_target(InitLanguage::Auto, ProjectType::Rust), Ok(InitTarget::Rust));
    assert_eq!(resolve_target(InitLanguage::Auto, ProjectType::Unknown), Err(InitError::CouldNotDetect));
    assert_eq!(
        InitError::CouldNotDetect.message(),
        "Could not auto-detect project type. Please specify 'rust' or 'python'."
    );
    assert_eq!(target_path(InitTarget::Rust), "src/guardrails.rs");
    assert_eq!(target_path(InitTarget::Python), "secure_requirements.txt");
}

#[test]
fn ndjson_framing() {
    let (frames, rest) = drain_ndjson("{\"a\":1}\n\n  \n{\"b\"");
    assert_eq!(frames, vec!["{\"a\":1}".to_string()]);
    assert_eq!(rest, "{\"b\"");
    // Split across two chunks, the same frames come out.
    let (f1, r1) = drain_ndjson("{\"a\":");
    let (f2, r2) = drain_ndjson(&format!("{}1}}\n", r1));
    assert!(f1.is_empty());
    assert_eq!(f2, vec!["{\"a\":1}".to_string()]);
    assert_eq!(r2, "");
}

#[test]
fn sse_framing() {
    let (frames, rest) = drain_sse_events("junk data: {x}\n\ndata: {y}");
    assert_eq!(frames, vec!["{x}".to_string()]);
    assert_eq!(rest, "data: {y}");
    let (frames, rest) = drain_sse_lines("data: a \ndata: [DONE]\ndata: b\n", true);
    assert_eq!(frames, vec!["a".to_string()]);
    assert_eq!(rest, "data: b\n");
    let (frames, rest) = drain_sse_lines("data: a \ndata: [DONE]\ndata: b\n", false);
    assert_eq!(frames, vec!["a".to_string(), "[DONE]".to_string(), "b".to_string()]);
    assert_eq!(rest, "");
}

#[test]
fn chunk_decoding_per_provider() {
    let d = decode_chunk(StreamFormat::Ollama, "", b"{\"message\":{\"content\":\"Hi\"}}\n{\"mess".to_vec());
    assert_eq!(d.texts, vec!["Hi".to_string()]);
    assert_eq!(d.rest, "{\"mess");
    assert!(!d.invalid_utf8);
    let d = decode_chunk(
        StreamFormat::Gemini,
        "",
        b"data: {\"candidates\":[{\"content\":{\"parts\":[{\"text\":\"G\"}]}}]}\n\n".to_vec(),
    );
    assert_eq!(d.texts, vec!["G".to_string()]);
    let d = decode_chunk(
        StreamFormat::OpenAi,
        "",
        b"data: {\"choices\":[{\"delta\":{\"content\":\"O\"}}]}\ndata: [DONE]\n".to_vec(),
    );
    assert_eq!(d.texts, vec!["O".to_string()]);
    let d = decode_chunk(StreamFormat::Anthropic, "data: {\"delta\":", b"{\"text\":\"C\"}}\ndata: {}\n".to_vec());
    assert_eq!(d.texts, vec!["C".to_string()]);
    assert_eq!(d.rest, "");
    let d = decode_chunk(StreamFormat::Ollama, "keep", vec![0xff, 0xfe]);
    assert!(d.invalid_utf8);
    assert!(d.texts.is_empty());
    assert_eq!(d.rest, "keep");
    let d = decode_chunk(StreamFormat::Anthropic, "keep", vec![0xff]);
    assert!(!d.invalid_utf8);
    assert_eq!(d.rest, "keep");
}

#[test]
fn sse_framing_ignores_chunk_boundaries() {
    let whole = "data: {\"a\":1}\n\ndata: {\"b\":2}\n\n";
    let (all, rest_all) = drain_sse_events(whole);
    let (first, rest) = drain_sse_events("data: {\"a\":1}\n\nda");
    let (second, rest2) = drain_sse_events(&format!("{}ta: {{\"b\":2}}\n\n", rest));
    let mut joined = first.clone();
    joined.extend(second);
    assert_eq!(joined, all);
    assert_eq!(rest2, rest_all);
    let (lines_all, _) = drain_sse_lines("data: x\ndata: y\n", false);
    let (l1, r1) = drain_sse_lines("data: x\ndat", false);
    let (l2, _) = drain_sse_lines(&format!("{}a: y\n", r1), false);
    assert_eq!([l1, l2].concat(), lines_all);
}
