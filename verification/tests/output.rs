use pageinfo::capture::CaptureResult;
use pageinfo::output::{
    content_file_name, current_timestamp, extension_for, make_slug, metadata_file_name,
    output_path, plan_outputs, timestamp_suffix, u32_to_dec,
};

#[test]
fn extension_mapping() {
    assert_eq!(
        extension_for(&Some("text/html; charset=utf-8".to_string())),
        ".html"
    );
    assert_eq!(extension_for(&Some("application/json".to_string())), ".json");
    assert_eq!(extension_for(&Some("image/png".to_string())), ".txt");
    assert_eq!(extension_for(&None), ".txt");
}

#[test]
fn slug_strips_scheme_and_collapses_separators() {
    assert_eq!(make_slug(&"https://example.com".to_string()), "example-com");
    assert_eq!(make_slug(&"example.com".to_string()), "example-com");
    assert_eq!(make_slug(&"http://example.com/a b".to_string()), "example-com-a-b");
}

#[test]
fn slug_strips_www() {
    assert_eq!(
        make_slug(&"https://www.example.com".to_string()),
        "example-com"
    );
}

#[test]
fn decimal_rendering() {
    assert_eq!(u32_to_dec(0), "0");
    assert_eq!(u32_to_dec(7), "7");
    assert_eq!(u32_to_dec(907), "907");
    assert_eq!(u32_to_dec(4294967295), "4294967295");
}

#[test]
fn timestamp_suffix_format() {
    assert_eq!(timestamp_suffix(2024, 1, 5, 7, 8, 9), "_2024-01-05-070809");
    assert_eq!(
        timestamp_suffix(987, 12, 31, 23, 59, 58),
        "_0987-12-31-235958"
    );
    assert_eq!(timestamp_suffix(-44, 3, 15, 12, 0, 0), "_-0044-03-15-120000");
}

#[test]
fn current_timestamp_shape() {
    let t = current_timestamp();
    let chars: Vec<char> = t.chars().collect();
    assert_eq!(chars.len(), 18);
    assert_eq!(chars[0], '_');
    assert_eq!(chars[5], '-');
    assert_eq!(chars[8], '-');
    assert_eq!(chars[11], '-');
    assert!(chars[1].is_ascii_digit());
    assert!(chars[17].is_ascii_digit());
}

#[test]
fn file_names() {
    let slug = "example-com".to_string();
    let ts = "_2024-01-05-070809".to_string();
    assert_eq!(
        metadata_file_name(&slug, &ts),
        "example-com_2024-01-05-070809-info.json"
    );
    assert_eq!(
        content_file_name(&slug, &ts, &".html".to_string()),
        "example-com_2024-01-05-070809.html"
    );
}

#[test]
fn output_paths() {
    let name = "f.html".to_string();
    assert_eq!(output_path(&Some("out".to_string()), &name), "out/f.html");
    assert_eq!(output_path(&Some("out/".to_string()), &name), "out/f.html");
    assert_eq!(output_path(&Some(String::new()), &name), "f.html");
    assert_eq!(output_path(&None, &name), "f.html");
}

#[test]
fn metadata_prints_to_stdout_without_output_dir() {
    let json = Some("{\"title\":\"t\"}".to_string());
    let p = plan_outputs(&json, &None, false, &"example-com".to_string(), &"_t".to_string());
    assert_eq!(p.print_metadata, Some("{\"title\":\"t\"}".to_string()));
    assert!(p.metadata_file.is_none());
    assert!(p.content_file.is_none());
    assert!(p.print_content.is_none());
}

#[test]
fn capture_output_survives_metadata_failure() {
    let capture = Some(CaptureResult {
        content: Some("<html></html>".to_string()),
        content_type: Some("text/html; charset=utf-8".to_string()),
    });
    let p = plan_outputs(
        &None,
        &capture,
        true,
        &"example-com".to_string(),
        &"_2024-01-05-070809".to_string(),
    );
    assert!(p.print_metadata.is_none());
    assert!(p.metadata_file.is_none());
    let (name, body) = p.content_file.unwrap();
    assert_eq!(name, "example-com_2024-01-05-070809.html");
    assert_eq!(body, "<html></html>");
}

#[test]
fn metadata_output_survives_capture_failure() {
    let json = Some("{\"status\":200}".to_string());
    let p = plan_outputs(
        &json,
        &None,
        true,
        &"example-com".to_string(),
        &"_2024-01-05-070809".to_string(),
    );
    assert_eq!(p.print_metadata, Some("{\"status\":200}".to_string()));
    let (name, body) = p.metadata_file.unwrap();
    assert_eq!(name, "example-com_2024-01-05-070809-info.json");
    assert_eq!(body, "{\"status\":200}");
    assert!(p.content_file.is_none());
}

#[test]
fn content_falls_back_to_stdout_without_output_dir() {
    let capture = Some(CaptureResult {
        content: Some("plain".to_string()),
        content_type: None,
    });
    let p = plan_outputs(&None, &capture, false, &"s".to_string(), &"_t".to_string());
    assert!(p.content_file.is_none());
    assert_eq!(p.print_content, Some("plain".to_string()));
}

#[test]
fn absent_content_is_not_written() {
    let capture = Some(CaptureResult {
        content: None,
        content_type: Some("text/html".to_string()),
    });
    let p = plan_outputs(&None, &capture, true, &"s".to_string(), &"_t".to_string());
    assert!(p.content_file.is_none());
    assert!(p.print_content.is_none());
}
