use onedrive_driver_rs::utils::{
    decode_path_segments, encode_graph_path, graph_children_url, graph_children_url_text,
    graph_item_url, graph_item_url_text, onedrive_path_segments, parse_graph_url,
    percent_encode_segment,
};
use onedrive_driver_rs::error::OneDriveApiError;

fn strings(v: &[&str]) -> Vec<String> {
    v.iter().map(|s| s.to_string()).collect()
}

#[test]
fn decodes_segments_without_empty_pieces() {
    assert_eq!(decode_path_segments("/a//b/"), strings(&["a", "b"]));
    assert_eq!(decode_path_segments(""), Vec::<String>::new());
    assert_eq!(decode_path_segments("///"), Vec::<String>::new());
}

#[test]
fn decodes_percent_escapes() {
    assert_eq!(decode_path_segments("b%20c"), strings(&["b c"]));
    assert_eq!(decode_path_segments("%E4%BD%A0%E5%A5%BD"), strings(&["你好"]));
    // an escaped slash splits after decoding
    assert_eq!(decode_path_segments("a%2Fb"), strings(&["a", "b"]));
    // a percent sign not followed by two hex digits stays
    assert_eq!(decode_path_segments("100%"), strings(&["100%"]));
    assert_eq!(decode_path_segments("%zz"), strings(&["%zz"]));
    // invalid UTF-8 becomes the replacement character
    assert_eq!(decode_path_segments("%FF"), strings(&["\u{FFFD}"]));
}

#[test]
fn root_segments_come_first() {
    assert_eq!(
        onedrive_path_segments("/Root Folder/", "a/b%20c/"),
        strings(&["Root Folder", "a", "b c"])
    );
    assert_eq!(onedrive_path_segments("", ""), Vec::<String>::new());
}

#[test]
fn encodes_reserved_and_non_ascii_bytes() {
    assert_eq!(percent_encode_segment("a#b?c"), "a%23b%3Fc");
    assert_eq!(percent_encode_segment("x:y"), "x%3Ay");
    assert_eq!(percent_encode_segment("é"), "%C3%A9");
    assert_eq!(percent_encode_segment("Report 2024"), "Report%202024");
    assert_eq!(percent_encode_segment("a/b"), "a%2Fb");
    assert_eq!(percent_encode_segment("100%"), "100%25");
    assert_eq!(percent_encode_segment("plain-name_1.txt"), "plain-name_1.txt");
    assert_eq!(percent_encode_segment("{[|]}^\\`\"<>"), "%7B%5B%7C%5D%7D%5E%5C%60%22%3C%3E");
    assert_eq!(percent_encode_segment("\t"), "%09");
}

#[test]
fn joins_encoded_segments_with_slashes() {
    assert_eq!(encode_graph_path(&strings(&["Documents", "Q1 report"])), "Documents/Q1%20report");
    assert_eq!(encode_graph_path(&strings(&["only"])), "only");
    assert_eq!(encode_graph_path(&Vec::new()), "");
}

#[test]
fn builds_root_urls_for_empty_paths() {
    assert_eq!(
        graph_children_url_text("", "/"),
        "https://graph.microsoft.com/v1.0/me/drive/root/children"
    );
    assert_eq!(graph_item_url_text("/", ""), "https://graph.microsoft.com/v1.0/me/drive/root");
    let url = graph_children_url("", "").ok().unwrap();
    assert_eq!(url.as_str(), "https://graph.microsoft.com/v1.0/me/drive/root/children");
    let url = graph_item_url("", "").ok().unwrap();
    assert_eq!(url.as_str(), "https://graph.microsoft.com/v1.0/me/drive/root");
}

#[test]
fn builds_path_urls() {
    assert_eq!(
        graph_children_url_text("/Documents", "Reports 2024/Q1"),
        "https://graph.microsoft.com/v1.0/me/drive/root:/Documents/Reports%202024/Q1:/children"
    );
    assert_eq!(
        graph_item_url_text("Documents", "a#b"),
        "https://graph.microsoft.com/v1.0/me/drive/root:/Documents/a%23b:"
    );
    let url = graph_children_url("/Documents", "Reports 2024/Q1").ok().unwrap();
    assert_eq!(
        url.as_str(),
        "https://graph.microsoft.com/v1.0/me/drive/root:/Documents/Reports%202024/Q1:/children"
    );
    let url = graph_item_url("", "你好").ok().unwrap();
    assert_eq!(
        url.as_str(),
        "https://graph.microsoft.com/v1.0/me/drive/root:/%E4%BD%A0%E5%A5%BD:"
    );
}

#[test]
fn children_url_is_item_url_with_children_suffix() {
    for (root, path) in [("", ""), ("/r", "a/b"), ("x y", "%41")] {
        let item = graph_item_url_text(root, path);
        let children = graph_children_url_text(root, path);
        assert_eq!(children, format!("{}/children", item));
    }
}

#[test]
fn encoded_path_splits_back_into_segments() {
    let segments = strings(&["a/b", "c d", "é"]);
    let encoded = encode_graph_path(&segments);
    let pieces: Vec<&str> = encoded.split('/').collect();
    assert_eq!(pieces, vec!["a%2Fb", "c%20d", "%C3%A9"]);
}

#[test]
fn refuses_unparsable_urls() {
    match parse_graph_url("not a url") {
        Err(OneDriveApiError::GraphUrlBuild(reason)) => assert!(!reason.is_empty()),
        _ => panic!("expected a GraphUrlBuild error"),
    }
    assert!(parse_graph_url("https://graph.microsoft.com/v1.0/me/drive/root").is_ok());
}

#[test]
fn decoding_an_encoded_path_gives_the_segments_back() {
    for parts in [
        vec!["a b", "é", "x%y", "q?"],
        vec!["Documents"],
        vec!["100%", "%41", "你好", "#tag"],
        vec![],
    ] {
        let segments = strings(&parts);
        let encoded = encode_graph_path(&segments);
        assert_eq!(decode_path_segments(&encoded), segments);
    }
}
