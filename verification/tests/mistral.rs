use prompt_harness::mistral::{
    is_false, ApiDocument, ApiHyperlink, ApiImage, ApiPage, ApiResponse, ApiTable, ApiUsageInfo,
    Hyperlink, Image, ImageBbox, MistralOcrProvider, Page, PageDimensions, Request, Table,
    TableFormat,
};
use prompt_harness::ProviderError;

fn provider() -> MistralOcrProvider {
    MistralOcrProvider::with_api_key("m-key".to_string(), MistralOcrProvider::LATEST_MODEL.to_string())
}

fn bbox(a: u32, b: u32, c: u32, d: u32) -> ImageBbox {
    ImageBbox { top_left_x: a, top_left_y: b, bottom_right_x: c, bottom_right_y: d }
}

fn api_page(index: u32) -> ApiPage {
    ApiPage {
        index,
        markdown: format!("# page {}", index),
        images: vec![],
        dimensions: None,
        tables: None,
        hyperlinks: None,
        header: None,
        footer: None,
    }
}

#[test]
fn is_false_negates() {
    assert!(is_false(&false));
    assert!(!is_false(&true));
}

#[test]
fn bbox_width_and_height() {
    let b = bbox(10, 20, 110, 70);
    assert_eq!(b.width(), 100);
    assert_eq!(b.height(), 50);
    let inverted = bbox(50, 50, 10, 10);
    assert_eq!(inverted.width(), 0);
    assert_eq!(inverted.height(), 0);
    assert_eq!(bbox(0, 0, u32::MAX, u32::MAX).width(), u32::MAX);
    assert!(bbox(1, 2, 3, 4) == bbox(1, 2, 3, 4));
}

#[test]
fn default_request_is_an_empty_pdf() {
    let r = Request::default();
    assert!(r.document.is_empty());
    assert_eq!(r.mime_type, "application/pdf");
    assert!(r.pages.is_none());
    assert!(!r.include_images);
    assert!(r.image_limit.is_none());
    assert!(r.image_min_size.is_none());
    assert!(r.table_format.is_none());
    assert!(!r.extract_headers);
    assert!(!r.extract_footers);
    assert!(matches!(TableFormat::default(), TableFormat::Markdown));
}

#[test]
fn mistral_provider_reports_name_and_model() {
    let p = provider();
    assert_eq!(p.name(), "mistral");
    assert_eq!(p.model(), "mistral-ocr-2512");
    assert_eq!(p.api_key(), "m-key");
    assert_eq!(MistralOcrProvider::API_ENDPOINT, "https://api.mistral.ai/v1/ocr");
}

#[test]
fn pdf_becomes_a_document_url() {
    let p = provider();
    match p.create_document(b"hello", "application/pdf") {
        Ok(ApiDocument::DocumentUrl { document_url }) => {
            assert_eq!(document_url, "data:application/pdf;base64,aGVsbG8=")
        }
        _ => panic!("expected a document URL"),
    }
}

#[test]
fn image_becomes_an_image_url() {
    let p = provider();
    match p.create_document(&[0xff, 0x00, 0x10], "image/png") {
        Ok(ApiDocument::ImageUrl { image_url }) => {
            assert_eq!(image_url.url, "data:image/png;base64,/wAQ")
        }
        _ => panic!("expected an image URL"),
    }
    match p.create_document(b"", "image/jpeg") {
        Ok(ApiDocument::ImageUrl { image_url }) => assert_eq!(image_url.url, "data:image/jpeg;base64,"),
        _ => panic!("expected an image URL"),
    }
}

#[test]
fn other_mime_types_are_refused() {
    let p = provider();
    match p.create_document(b"x", "text/plain") {
        Err(ProviderError::Config { message, env_var }) => {
            assert_eq!(
                message,
                "unsupported MIME type: text/plain. Expected application/pdf or image/*"
            );
            assert!(env_var.is_none());
        }
        _ => panic!("expected a configuration error"),
    }
    assert!(p.create_document(b"x", "Application/PDF").is_err());
    assert!(p.create_document(b"x", "image").is_err());
}

#[test]
fn build_request_copies_options() {
    let p = provider();
    let pages = [0u32, 2, 5];
    let request = Request {
        document: b"abc",
        mime_type: "image/webp",
        pages: Some(&pages),
        include_images: true,
        image_limit: Some(3),
        image_min_size: Some(64),
        table_format: Some(TableFormat::Html),
        extract_headers: true,
        extract_footers: false,
    };
    let r = p.build_request(&request).unwrap();
    assert_eq!(r.model, "mistral-ocr-2512");
    match &r.document {
        ApiDocument::ImageUrl { image_url } => assert_eq!(image_url.url, "data:image/webp;base64,YWJj"),
        _ => panic!("expected an image URL"),
    }
    assert_eq!(r.pages, Some(vec![0, 2, 5]));
    assert!(r.include_image_base64);
    assert_eq!(r.image_limit, Some(3));
    assert_eq!(r.image_min_size, Some(64));
    assert!(matches!(r.table_format, Some(TableFormat::Html)));
    assert!(r.extract_header);
    assert!(!r.extract_footer);
    let bad = Request { mime_type: "application/zip", ..Request::default() };
    assert!(matches!(p.build_request(&bad), Err(ProviderError::Config { .. })));
}

#[test]
fn tables_prefer_html_then_markdown_then_content() {
    let t = Table::from_api(ApiTable {
        content: Some("c".to_string()),
        markdown: Some("m".to_string()),
        html: Some("<table/>".to_string()),
    });
    assert_eq!((t.content.as_str(), t.format.as_str()), ("<table/>", "html"));
    let t = Table::from_api(ApiTable { content: Some("c".to_string()), markdown: Some("|m|".to_string()), html: None });
    assert_eq!((t.content.as_str(), t.format.as_str()), ("|m|", "markdown"));
    let t = Table::from_api(ApiTable { content: Some("c".to_string()), markdown: None, html: None });
    assert_eq!((t.content.as_str(), t.format.as_str()), ("c", "text"));
    let t = Table::from_api(ApiTable { content: None, markdown: None, html: None });
    assert_eq!((t.content.as_str(), t.format.as_str()), ("", "text"));
}

#[test]
fn simple_hyperlink_uses_url_as_text() {
    let h = Hyperlink::from_api(ApiHyperlink::Simple("https://example.com".to_string()));
    assert_eq!(h.text, "https://example.com");
    assert_eq!(h.url, "https://example.com");
    let h = Hyperlink::from_api(ApiHyperlink::Structured {
        text: "Example".to_string(),
        url: "https://example.com".to_string(),
    });
    assert_eq!(h.text, "Example");
    assert_eq!(h.url, "https://example.com");
}

#[test]
fn image_conversion_keeps_box_and_data() {
    let i = Image::from_api(ApiImage {
        id: "img-0.jpeg".to_string(),
        top_left_x: 1,
        top_left_y: 2,
        bottom_right_x: 30,
        bottom_right_y: 40,
        image_base64: Some("AAAA".to_string()),
    });
    assert_eq!(i.id, "img-0.jpeg");
    assert_eq!(i.bbox, bbox(1, 2, 30, 40));
    assert_eq!(i.image_base64.as_deref(), Some("AAAA"));
}

#[test]
fn page_conversion_keeps_order_and_defaults_missing_lists() {
    let api = ApiPage {
        index: 3,
        markdown: "text".to_string(),
        images: vec![
            ApiImage { id: "a".to_string(), top_left_x: 0, top_left_y: 0, bottom_right_x: 1, bottom_right_y: 1, image_base64: None },
            ApiImage { id: "b".to_string(), top_left_x: 0, top_left_y: 0, bottom_right_x: 2, bottom_right_y: 2, image_base64: None },
        ],
        dimensions: Some(PageDimensions { dpi: Some(200), width: 1700, height: 2200 }),
        tables: Some(vec![ApiTable { content: None, markdown: Some("t1".to_string()), html: None }]),
        hyperlinks: None,
        header: Some("head".to_string()),
        footer: None,
    };
    let p: Page = Page::from_api(api);
    assert_eq!(p.index, 3);
    assert_eq!(p.markdown, "text");
    assert_eq!(p.images.iter().map(|i| i.id.as_str()).collect::<Vec<_>>(), vec!["a", "b"]);
    assert_eq!(p.tables.len(), 1);
    assert_eq!(p.tables[0].format, "markdown");
    assert!(p.hyperlinks.is_empty());
    let d = p.dimensions.unwrap();
    assert_eq!((d.dpi, d.width, d.height), (Some(200), 1700, 2200));
    assert_eq!(p.header.as_deref(), Some("head"));
    assert!(p.footer.is_none());
}

#[test]
fn response_uses_reported_usage() {
    let api = ApiResponse {
        pages: vec![api_page(0), api_page(1)],
        model: "mistral-ocr-2512".to_string(),
        usage_info: Some(ApiUsageInfo { pages_processed: 5, doc_size_bytes: Some(1234) }),
    };
    let r = MistralOcrProvider::response_from_api(api);
    assert_eq!(r.pages.len(), 2);
    assert_eq!(r.pages[1].markdown, "# page 1");
    assert_eq!(r.model, "mistral-ocr-2512");
    assert_eq!(r.pages_processed, 5);
    assert_eq!(r.doc_size_bytes, Some(1234));
}

#[test]
fn response_without_usage_counts_pages() {
    let api = ApiResponse {
        pages: vec![api_page(0), api_page(1), api_page(2)],
        model: "m".to_string(),
        usage_info: None,
    };
    let r = MistralOcrProvider::response_from_api(api);
    assert_eq!(r.pages_processed, 3);
    assert!(r.doc_size_bytes.is_none());
}

#[test]
fn process_result_keeps_raw_body_for_replay() {
    let body = "{\"pages\":[],\"model\":\"m\"}".to_string();
    let api = || ApiResponse { pages: vec![api_page(7)], model: "m".to_string(), usage_info: None };
    let saved = MistralOcrProvider::process_result(api(), body.clone());
    assert_eq!(saved.raw_json, body);
    let replayed = MistralOcrProvider::response_from_api(api());
    assert_eq!(saved.response.pages.len(), replayed.pages.len());
    assert_eq!(saved.response.pages[0].markdown, replayed.pages[0].markdown);
    assert_eq!(saved.response.pages_processed, replayed.pages_processed);
    assert_eq!(saved.response.model, replayed.model);
}

#[test]
fn document_from_encoded_builds_data_urls() {
    match MistralOcrProvider::document_from_encoded("application/pdf", "QUJD") {
        Ok(ApiDocument::DocumentUrl { document_url }) => {
            assert_eq!(document_url, "data:application/pdf;base64,QUJD")
        }
        _ => panic!("expected a document URL"),
    }
    match MistralOcrProvider::document_from_encoded("image/gif", "R0lG") {
        Ok(ApiDocument::ImageUrl { image_url }) => assert_eq!(image_url.url, "data:image/gif;base64,R0lG"),
        _ => panic!("expected an image URL"),
    }
    match MistralOcrProvider::document_from_encoded("", "") {
        Err(ProviderError::Config { message, .. }) => assert_eq!(
            message,
            "unsupported MIME type: . Expected application/pdf or image/*"
        ),
        _ => panic!("expected a configuration error"),
    }
}

#[test]
fn mistral_provider_agent_is_configured() {
    let p = provider();
    let agent = p.client();
    assert_eq!(agent.config().timeouts().global, Some(std::time::Duration::from_secs(120)));
    assert!(!agent.config().http_status_as_error());
}

#[test]
fn mistral_request_headers() {
    let h = provider().request_headers();
    let h: Vec<(&str, &str)> = h.iter().map(|(k, v)| (k.as_str(), v.as_str())).collect();
    assert_eq!(h, vec![("Authorization", "Bearer m-key"), ("Content-Type", "application/json")]);
}
