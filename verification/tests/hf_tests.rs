use landry::error::AppError;
use landry::hf::{http_failure, ByteProgress, HubRequest};
use landry::domain::HfFile;
use landry::hf::{
    bearer_header, download_url, gguf_files, has_gguf_extension, model_detail_url, search_url,
    summarize_search_item, summarize_search_items, HfCardData, HfLfs, HfSearchItem, HfSibling,
};

#[test]
fn search_address_is_encoded() {
    assert_eq!(
        search_url("phi-3 gguf", 25),
        "https://huggingface.co/api/models?search=phi-3%20gguf&limit=25"
    );
    assert_eq!(
        search_url("a&b/é~", 3),
        "https://huggingface.co/api/models?search=a%26b%2F%C3%A9~&limit=3"
    );
}

#[test]
fn detail_and_download_addresses() {
    assert_eq!(model_detail_url("a/b"), "https://huggingface.co/api/models/a/b");
    assert_eq!(
        download_url("a/b", "x y.gguf"),
        "https://huggingface.co/a/b/resolve/main/x%20y.gguf"
    );
}

#[test]
fn bearer_header_from_token() {
    assert_eq!(bearer_header(Some("  hf_abc ")).as_deref(), Some("Bearer hf_abc"));
    assert_eq!(bearer_header(Some("   ")), None);
    assert_eq!(bearer_header(None), None);
}

fn item(summary: Option<&str>, description: Option<&str>, card: bool) -> HfSearchItem {
    HfSearchItem {
        repo_id: "r/x".to_string(),
        likes: Some(3),
        downloads: None,
        card_data: if card {
            Some(HfCardData { summary: summary.map(|s| s.to_string()), description: description.map(|s| s.to_string()) })
        } else {
            None
        },
    }
}

#[test]
fn search_item_descriptions() {
    let s = summarize_search_item(&item(Some("  Small model "), Some("ignored"), true));
    assert_eq!(s.repo_id, "r/x");
    assert_eq!(s.description.as_deref(), Some("Small model"));
    assert_eq!(s.likes, Some(3));
    assert_eq!(s.downloads, None);
    let s = summarize_search_item(&item(None, Some(" desc "), true));
    assert_eq!(s.description.as_deref(), Some("desc"));
    let s = summarize_search_item(&item(Some("  "), Some("desc"), true));
    assert_eq!(s.description, None);
    let s = summarize_search_item(&item(None, None, false));
    assert_eq!(s.description, None);
    let all = summarize_search_items(&vec![item(None, None, false), item(Some("x"), None, true)]);
    assert_eq!(all.len(), 2);
    assert_eq!(all[1].description.as_deref(), Some("x"));
}

fn sib(name: &str, size: Option<u64>) -> HfSibling {
    HfSibling {
        rfilename: name.to_string(),
        lfs: size.map(|s| HfLfs { size: Some(s), oid: Some(format!("sha-{}", name)) }),
    }
}

#[test]
fn gguf_files_are_filtered_and_sorted() {
    let sibs = vec![
        sib("README.md", None),
        sib("model.Q8_0.gguf", Some(800)),
        sib("model.Q4_K_M.GGUF", Some(400)),
        sib("config.json", Some(1)),
        sib("model.Q5_K_M.gguf", Some(500)),
        sib("b.gguf", Some(400)),
        sib("no-size.gguf", None),
    ];
    let files: Vec<HfFile> = gguf_files(&sibs);
    let names: Vec<&str> = files.iter().map(|f| f.rfilename.as_str()).collect();
    assert_eq!(
        names,
        vec!["no-size.gguf", "b.gguf", "model.Q4_K_M.GGUF", "model.Q5_K_M.gguf", "model.Q8_0.gguf"]
    );
    assert_eq!(files[1].size, Some(400));
    assert_eq!(files[1].sha256.as_deref(), Some("sha-b.gguf"));
    assert_eq!(files[0].sha256, None);
}

#[test]
fn gguf_extension_of_lowered_name() {
    assert!(has_gguf_extension("x.gguf"));
    assert!(!has_gguf_extension("x.GGUF"));
    assert!(!has_gguf_extension("x.gguf.part"));
}

#[test]
fn failed_requests_and_byte_counts() {
    match http_failure(HubRequest::Search, "404 Not Found") {
        AppError::Network(m) => assert_eq!(m, "Hugging Face search failed: HTTP 404 Not Found"),
        other => panic!("{:?}", other),
    }
    match http_failure(HubRequest::Download, "401 Unauthorized") {
        AppError::Network(m) => assert_eq!(m, "Download failed: HTTP 401 Unauthorized"),
        other => panic!("{:?}", other),
    }
    let mut p = ByteProgress::start(Some(10));
    assert_eq!(p.on_chunk(4), (4, Some(10)));
    assert_eq!(p.on_chunk(6), (10, Some(10)));
}
