//! Mistral OCR API client: the request it sends for a document and how it reads the reply.
use vstd::prelude::*;
use vstd::string::StringExecFns;
use vstd::slice::slice_to_vec;
use base64::Engine;
use crate::client::{
    agent_global_timeout, agent_status_as_error, create_default_agent, default_timeout_secs,
    duration_from_secs,
};
use crate::error::{ProviderError, Result};
use crate::text::{char_prefix_is_byte_prefix, has_byte_prefix, str_eq, str_starts_with};

verus! {

/// Whether a flag is off; the request encoder leaves out flags that are off.
pub fn is_false(b: &bool) -> (r: bool)
    ensures
        r == !*b,
{
    !*b
}

/// An OCR request for one document.
pub struct Request<'a> {
    pub document: &'a [u8],
    pub mime_type: &'a str,
    pub pages: Option<&'a [u32]>,
    pub include_images: bool,
    pub image_limit: Option<u32>,
    pub image_min_size: Option<u32>,
    pub table_format: Option<TableFormat>,
    pub extract_headers: bool,
    pub extract_footers: bool,
}

impl Default for Request<'_> {
    /// An empty PDF document, all pages, no images, no table format, no headers or footers.
    fn default() -> (r: Self)
        ensures
            r.document@.len() == 0,
            r.mime_type@ == "application/pdf"@,
            r.pages is None,
            !r.include_images,
            r.image_limit is None,
            r.image_min_size is None,
            r.table_format is None,
            !r.extract_headers,
            !r.extract_footers,
    {
        Request {
            document: &[],
            mime_type: "application/pdf",
            pages: None,
            include_images: false,
            image_limit: None,
            image_min_size: None,
            table_format: None,
            extract_headers: false,
            extract_footers: false,
        }
    }
}

/// How tables are rendered in the OCR output.
#[derive(Debug, Clone, Copy)]
pub enum TableFormat {
    Markdown,
    Html,
}

impl Default for TableFormat {
    fn default() -> (r: Self)
        ensures
            r is Markdown,
    {
        TableFormat::Markdown
    }
}

/// The parsed OCR response.
#[derive(Debug, Clone)]
pub struct Response {
    pub pages: Vec<Page>,
    pub model: String,
    pub pages_processed: u32,
    pub doc_size_bytes: Option<u64>,
}

/// The parsed response together with the raw JSON body it was read from.
#[derive(Debug, Clone)]
pub struct ProcessResult {
    pub response: Response,
    pub raw_json: String,
}

/// One page of OCR output.
#[derive(Debug, Clone)]
pub struct Page {
    pub index: u32,
    pub markdown: String,
    pub dimensions: Option<PageDimensions>,
    pub images: Vec<Image>,
    pub tables: Vec<Table>,
    pub hyperlinks: Vec<Hyperlink>,
    pub header: Option<String>,
    pub footer: Option<String>,
}

/// The size of a page.
#[derive(Debug, Clone)]
pub struct PageDimensions {
    pub dpi: Option<u32>,
    pub width: u32,
    pub height: u32,
}

/// An image found on a page.
#[derive(Debug, Clone)]
pub struct Image {
    pub id: String,
    pub bbox: ImageBbox,
    pub image_base64: Option<String>,
}

/// Where an image lies on its page.
#[derive(Debug, Clone, PartialEq, Eq, Structural)]
pub struct ImageBbox {
    pub top_left_x: u32,
    pub top_left_y: u32,
    pub bottom_right_x: u32,
    pub bottom_right_y: u32,
}

impl ImageBbox {
    /// The horizontal extent: right edge minus left edge, or zero if the box is inverted.
    pub fn width(&self) -> (r: u32)
        ensures
            r == (if self.bottom_right_x >= self.top_left_x {
                (self.bottom_right_x - self.top_left_x) as u32
            } else {
                0
            }),
    {
        self.bottom_right_x.saturating_sub(self.top_left_x)
    }

    /// The vertical extent: bottom edge minus top edge, or zero if the box is inverted.
    pub fn height(&self) -> (r: u32)
        ensures
            r == (if self.bottom_right_y >= self.top_left_y {
                (self.bottom_right_y - self.top_left_y) as u32
            } else {
                0
            }),
    {
        self.bottom_right_y.saturating_sub(self.top_left_y)
    }
}

/// A table found on a page, with the format of its content (`html`, `markdown` or `text`).
#[derive(Debug, Clone)]
pub struct Table {
    pub content: String,
    pub format: String,
}

/// A hyperlink found on a page.
#[derive(Debug, Clone)]
pub struct Hyperlink {
    pub text: String,
    pub url: String,
}

/// The JSON body sent to the OCR API.
pub struct ApiRequest {
    pub model: String,
    pub document: ApiDocument,
    pub pages: Option<Vec<u32>>,
    pub include_image_base64: bool,
    pub image_limit: Option<u32>,
    pub image_min_size: Option<u32>,
    pub table_format: Option<TableFormat>,
    pub extract_header: bool,
    pub extract_footer: bool,
}

/// The document of a request, as a data URL.
pub enum ApiDocument {
    DocumentUrl { document_url: String },
    ImageUrl { image_url: ApiImageUrl },
}

/// The URL of an image document.
pub struct ApiImageUrl {
    pub url: String,
}

/// The decoded JSON reply of the OCR API.
pub struct ApiResponse {
    pub pages: Vec<ApiPage>,
    pub model: String,
    pub usage_info: Option<ApiUsageInfo>,
}

/// One page of the reply.
pub struct ApiPage {
    pub index: u32,
    pub markdown: String,
    pub images: Vec<ApiImage>,
    pub dimensions: Option<PageDimensions>,
    pub tables: Option<Vec<ApiTable>>,
    pub hyperlinks: Option<Vec<ApiHyperlink>>,
    pub header: Option<String>,
    pub footer: Option<String>,
}

/// One image of a reply page.
pub struct ApiImage {
    pub id: String,
    pub top_left_x: u32,
    pub top_left_y: u32,
    pub bottom_right_x: u32,
    pub bottom_right_y: u32,
    pub image_base64: Option<String>,
}

/// One table of a reply page, in whichever renderings the reply holds.
pub struct ApiTable {
    pub content: Option<String>,
    pub markdown: Option<String>,
    pub html: Option<String>,
}

/// One hyperlink of a reply page: a bare URL, or a text and a URL.
pub enum ApiHyperlink {
    Simple(String),
    Structured { text: String, url: String },
}

/// Usage figures of the reply.
pub struct ApiUsageInfo {
    pub pages_processed: u32,
    pub doc_size_bytes: Option<u64>,
}

/// The image that a reply image becomes.
pub open spec fn image_of(api: ApiImage) -> Image {
    Image {
        id: api.id,
        bbox: ImageBbox {
            top_left_x: api.top_left_x,
            top_left_y: api.top_left_y,
            bottom_right_x: api.bottom_right_x,
            bottom_right_y: api.bottom_right_y,
        },
        image_base64: api.image_base64,
    }
}

/// The characters of an optional string, or nothing.
pub open spec fn text_or_empty(s: Option<String>) -> Seq<char> {
    match s {
        Some(t) => t@,
        None => Seq::empty(),
    }
}

/// `t` is the table that the reply table `api` becomes: its HTML if it has one, else its
/// markdown, else its plain content (or nothing), labelled with that format.
pub open spec fn table_of(api: ApiTable, t: Table) -> bool {
    match api.html {
        Some(h) => t.content@ == h@ && t.format@ == "html"@,
        None => match api.markdown {
            Some(m) => t.content@ == m@ && t.format@ == "markdown"@,
            None => t.content@ == text_or_empty(api.content) && t.format@ == "text"@,
        },
    }
}

/// `h` is the hyperlink that the reply hyperlink `api` becomes: a bare URL is also its text.
pub open spec fn hyperlink_of(api: ApiHyperlink, h: Hyperlink) -> bool {
    match api {
        ApiHyperlink::Simple(u) => h.text@ == u@ && h.url@ == u@,
        ApiHyperlink::Structured { text, url } => h.text@ == text@ && h.url@ == url@,
    }
}

/// The tables of a reply page (none if it lists none).
pub open spec fn api_tables(api: ApiPage) -> Seq<ApiTable> {
    match api.tables {
        Some(v) => v@,
        None => Seq::empty(),
    }
}

/// The hyperlinks of a reply page (none if it lists none).
pub open spec fn api_hyperlinks(api: ApiPage) -> Seq<ApiHyperlink> {
    match api.hyperlinks {
        Some(v) => v@,
        None => Seq::empty(),
    }
}

/// `p` is the page that the reply page `api` becomes: the same index, text, size, header
/// and footer, and its images, tables and hyperlinks converted one by one, in order.
pub open spec fn page_of(api: ApiPage, p: Page) -> bool {
    &&& p.index == api.index
    &&& p.markdown == api.markdown
    &&& p.dimensions == api.dimensions
    &&& p.header == api.header
    &&& p.footer == api.footer
    &&& p.images@.len() == api.images@.len()
    &&& forall|i: int| 0 <= i < p.images@.len() ==> #[trigger] p.images@[i] == image_of(api.images@[i])
    &&& p.tables@.len() == api_tables(api).len()
    &&& forall|i: int| 0 <= i < p.tables@.len() ==> table_of(api_tables(api)[i], #[trigger] p.tables@[i])
    &&& p.hyperlinks@.len() == api_hyperlinks(api).len()
    &&& forall|i: int|
        0 <= i < p.hyperlinks@.len() ==> hyperlink_of(api_hyperlinks(api)[i], #[trigger] p.hyperlinks@[i])
}

/// The number of pages processed: as reported, or else the number of pages in the reply
/// (kept to 32 bits).
pub open spec fn pages_processed_of(api: ApiResponse) -> u32 {
    match api.usage_info {
        Some(u) => u.pages_processed,
        None => api.pages@.len() as u32,
    }
}

/// `r` is the response that the reply `api` becomes.
pub open spec fn response_of(api: ApiResponse, r: Response) -> bool {
    &&& r.model == api.model
    &&& r.pages_processed == pages_processed_of(api)
    &&& r.doc_size_bytes == (match api.usage_info {
        Some(u) => u.doc_size_bytes,
        None => None,
    })
    &&& r.pages@.len() == api.pages@.len()
    &&& forall|i: int| 0 <= i < r.pages@.len() ==> page_of(api.pages@[i], #[trigger] r.pages@[i])
}

/// Two pages hold the same values (strings compared by their characters).
pub open spec fn same_page(p: Page, q: Page) -> bool {
    &&& p.index == q.index
    &&& p.markdown@ == q.markdown@
    &&& p.dimensions == q.dimensions
    &&& p.header.deep_view() == q.header.deep_view()
    &&& p.footer.deep_view() == q.footer.deep_view()
    &&& p.images@ == q.images@
    &&& p.tables@.len() == q.tables@.len()
    &&& forall|i: int|
        0 <= i < p.tables@.len() ==> (#[trigger] p.tables@[i]).content@ == q.tables@[i].content@
            && p.tables@[i].format@ == q.tables@[i].format@
    &&& p.hyperlinks@.len() == q.hyperlinks@.len()
    &&& forall|i: int|
        0 <= i < p.hyperlinks@.len() ==> (#[trigger] p.hyperlinks@[i]).text@
            == q.hyperlinks@[i].text@ && p.hyperlinks@[i].url@ == q.hyperlinks@[i].url@
}

/// Two responses hold the same values.
pub open spec fn same_response(r: Response, s: Response) -> bool {
    &&& r.model@ == s.model@
    &&& r.pages_processed == s.pages_processed
    &&& r.doc_size_bytes == s.doc_size_bytes
    &&& r.pages@.len() == s.pages@.len()
    &&& forall|i: int| 0 <= i < r.pages@.len() ==> same_page(#[trigger] r.pages@[i], s.pages@[i])
}

/// Replaying a saved reply gives the response that was read from it when it was received:
/// a reply decoded from the same body is read into the same response.
pub proof fn replay_gives_same_response(api: ApiResponse, saved: ProcessResult, replayed: Response)
    requires
        response_of(api, saved.response),
        response_of(api, replayed),
    ensures
        same_response(saved.response, replayed),
{
    let r = saved.response;
    assert forall|i: int| 0 <= i < r.pages@.len() implies same_page(
        #[trigger] r.pages@[i],
        replayed.pages@[i],
    ) by {
        let p = r.pages@[i];
        let q = replayed.pages@[i];
        let a = api.pages@[i];
        assert(page_of(a, p));
        assert(page_of(a, q));
        assert(p.images@ =~= q.images@);
        assert forall|j: int| 0 <= j < p.tables@.len() implies (#[trigger] p.tables@[j]).content@
            == q.tables@[j].content@ && p.tables@[j].format@ == q.tables@[j].format@ by {
            assert(table_of(api_tables(a)[j], p.tables@[j]));
            assert(table_of(api_tables(a)[j], q.tables@[j]));
        }
        assert forall|j: int| 0 <= j < p.hyperlinks@.len() implies (#[trigger] p.hyperlinks@[j]).text@
            == q.hyperlinks@[j].text@ && p.hyperlinks@[j].url@ == q.hyperlinks@[j].url@ by {
            assert(hyperlink_of(api_hyperlinks(a)[j], p.hyperlinks@[j]));
            assert(hyperlink_of(api_hyperlinks(a)[j], q.hyperlinks@[j]));
        }
    }
}

/// Reading a reply image keeps its identifier, its box coordinates and its base64 data exactly
/// as the reply holds them.
pub proof fn image_keeps_reply_fields(api: ApiImage)
    ensures
        image_of(api).id == api.id,
        image_of(api).bbox.top_left_x == api.top_left_x,
        image_of(api).bbox.top_left_y == api.top_left_y,
        image_of(api).bbox.bottom_right_x == api.bottom_right_x,
        image_of(api).bbox.bottom_right_y == api.bottom_right_y,
        image_of(api).image_base64 == api.image_base64,
        image_of(api).image_base64.deep_view() == api.image_base64.deep_view(),
{
}

impl Image {
    /// The image that a reply image becomes.
    pub fn from_api(api: ApiImage) -> (r: Image)
        ensures
            r == image_of(api),
    {
        Image {
            id: api.id,
            bbox: ImageBbox {
                top_left_x: api.top_left_x,
                top_left_y: api.top_left_y,
                bottom_right_x: api.bottom_right_x,
                bottom_right_y: api.bottom_right_y,
            },
            image_base64: api.image_base64,
        }
    }
}

impl Table {
    /// The table that a reply table becomes: HTML is preferred, then markdown, then content.
    pub fn from_api(api: ApiTable) -> (r: Table)
        ensures
            table_of(api, r),
    {
        let ApiTable { content, markdown, html } = api;
        if let Some(h) = html {
            Table { content: h, format: String::from_str("html") }
        } else if let Some(m) = markdown {
            Table { content: m, format: String::from_str("markdown") }
        } else {
            let content = match content {
                Some(c) => c,
                None => String::new(),
            };
            Table { content, format: String::from_str("text") }
        }
    }
}

impl Hyperlink {
    /// The hyperlink that a reply hyperlink becomes.
    pub fn from_api(api: ApiHyperlink) -> (r: Hyperlink)
        ensures
            hyperlink_of(api, r),
    {
        match api {
            ApiHyperlink::Simple(url) => Hyperlink { text: url.clone(), url },
            ApiHyperlink::Structured { text, url } => Hyperlink { text, url },
        }
    }
}

impl Page {
    /// The page that a reply page becomes.
    pub fn from_api(api: ApiPage) -> (r: Page)
        ensures
            page_of(api, r),
    {
        let ApiPage { index, markdown, images, dimensions, tables, hyperlinks, header, footer } =
            api;
        let mut out_images: Vec<Image> = Vec::new();
        for img in it: images.into_iter()
            invariant
                it.seq() == images@,
                out_images@.len() == it.index(),
                forall|i: int| 0 <= i < it.index() ==> #[trigger] out_images@[i] == image_of(images@[i]),
        {
            out_images.push(Image::from_api(img));
        }
        let api_tables = match tables {
            Some(v) => v,
            None => Vec::new(),
        };
        let mut out_tables: Vec<Table> = Vec::new();
        for t in it: api_tables.into_iter()
            invariant
                it.seq() == api_tables@,
                out_tables@.len() == it.index(),
                forall|i: int| 0 <= i < it.index() ==> table_of(api_tables@[i], #[trigger] out_tables@[i]),
        {
            out_tables.push(Table::from_api(t));
        }
        let api_links = match hyperlinks {
            Some(v) => v,
            None => Vec::new(),
        };
        let mut out_links: Vec<Hyperlink> = Vec::new();
        for h in it: api_links.into_iter()
            invariant
                it.seq() == api_links@,
                out_links@.len() == it.index(),
                forall|i: int| 0 <= i < it.index() ==> hyperlink_of(api_links@[i], #[trigger] out_links@[i]),
        {
            out_links.push(Hyperlink::from_api(h));
        }
        Page {
            index,
            markdown,
            dimensions,
            images: out_images,
            tables: out_tables,
            hyperlinks: out_links,
            header,
            footer,
        }
    }
}

/// The character of the standard base64 alphabet (RFC 4648) for a six-bit value:
/// `A`-`Z`, `a`-`z`, `0`-`9`, `+`, `/`.
pub open spec fn base64_digit(v: int) -> char {
    if v < 26 {
        (65 + v) as char
    } else if v < 52 {
        (97 + v - 26) as char
    } else if v < 62 {
        (48 + v - 52) as char
    } else if v == 62 {
        '+'
    } else {
        '/'
    }
}

/// The standard base64 encoding (RFC 4648 alphabet, with `=` padding) of some bytes: each
/// group of three bytes becomes four characters of six bits each; a final group of one or
/// two bytes is padded with zero bits and then with `=`.
pub open spec fn base64_standard(bytes: Seq<u8>) -> Seq<char>
    decreases bytes.len(),
{
    if bytes.len() == 0 {
        Seq::empty()
    } else if bytes.len() == 1 {
        let a = bytes[0] as int;
        seq![base64_digit(a / 4), base64_digit((a % 4) * 16), '=', '=']
    } else if bytes.len() == 2 {
        let a = bytes[0] as int;
        let b = bytes[1] as int;
        seq![base64_digit(a / 4), base64_digit((a % 4) * 16 + b / 16), base64_digit((b % 16) * 4), '=']
    } else {
        let a = bytes[0] as int;
        let b = bytes[1] as int;
        let c = bytes[2] as int;
        seq![
            base64_digit(a / 4),
            base64_digit((a % 4) * 16 + b / 16),
            base64_digit((b % 16) * 4 + c / 64),
            base64_digit(c % 64),
        ] + base64_standard(bytes.skip(3))
    }
}

/// The length of the padded base64 encoding of `n` bytes.
pub open spec fn base64_len(n: nat) -> nat {
    4 * ((n + 2) / 3)
}

/// The padded base64 encoding of `n` bytes has `base64_len(n)` characters.
pub proof fn base64_standard_len(bytes: Seq<u8>)
    ensures
        base64_standard(bytes).len() == base64_len(bytes.len()),
    decreases bytes.len(),
{
    if bytes.len() > 2 {
        base64_standard_len(bytes.skip(3));
    }
}

/// Encodes bytes with `base64::engine::general_purpose::STANDARD` (`Engine::encode`): the
/// standard alphabet with padding, four characters for every three bytes or part of them.
/// The encoder panics where that length overflows `usize`, which `requires` excludes.
#[verifier::external_body]
fn encode_base64(bytes: &[u8]) -> (r: String)
    requires
        base64_len(bytes@.len()) <= usize::MAX,
    ensures
        r@ == base64_standard(bytes@),
{
    base64::engine::general_purpose::STANDARD.encode(bytes)
}

/// The data URL of a document with the given MIME type.
pub open spec fn data_url(mime_type: Seq<char>, bytes: Seq<u8>) -> Seq<char> {
    "data:"@ + mime_type + ";base64,"@ + base64_standard(bytes)
}

/// A MIME type that names a PDF document.
pub open spec fn is_pdf(mime_type: Seq<char>) -> bool {
    mime_type == "application/pdf"@
}

/// A MIME type that names an image (`image/...`).
pub open spec fn is_image(mime_type: Seq<char>) -> bool {
    has_byte_prefix(mime_type, "image/"@)
}

/// Every MIME type whose characters begin with `image/` names an image and not a PDF, so a
/// document of that type is sent as an image URL.
pub proof fn image_mime_types_are_images(mime_type: Seq<char>)
    requires
        "image/"@.len() <= mime_type.len(),
        mime_type.take("image/"@.len() as int) == "image/"@,
    ensures
        is_image(mime_type),
        !is_pdf(mime_type),
{
    char_prefix_is_byte_prefix(mime_type, "image/"@);
    reveal_strlit("image/");
    reveal_strlit("application/pdf");
    if mime_type == "application/pdf"@ {
        assert(mime_type.take(6)[0] == mime_type[0]);
        assert(false);
    }
}

/// Mistral OCR API client for document processing.
pub struct MistralOcrProvider {
    client: ureq::Agent,
    api_key: String,
    model: String,
}

impl MistralOcrProvider {
    /// The URL of the OCR API.
    pub const API_ENDPOINT: &'static str = "https://api.mistral.ai/v1/ocr";

    /// The latest OCR model.
    pub const LATEST_MODEL: &'static str = "mistral-ocr-2512";

    /// The agent that sends this provider's requests.
    pub closed spec fn spec_client(&self) -> ureq::Agent {
        self.client
    }

    /// The API key.
    pub closed spec fn spec_api_key(&self) -> Seq<char> {
        self.api_key@
    }

    /// The model name.
    pub closed spec fn spec_model(&self) -> Seq<char> {
        self.model@
    }

    /// A provider with the given API key and model, and an agent with the default configuration.
    pub fn with_api_key(api_key: String, model: String) -> (p: Self)
        ensures
            p.spec_api_key() == api_key@,
            agent_global_timeout(p.spec_client()) == Some(
                duration_from_secs(default_timeout_secs()),
            ),
            !agent_status_as_error(p.spec_client()),
            p.spec_model() == model@,
    {
        let client = create_default_agent();
        MistralOcrProvider { client, api_key, model }
    }

    /// Returns the provider name.
    pub fn name(&self) -> (r: &str)
        ensures
            r@ == "mistral"@,
    {
        "mistral"
    }

    /// Returns the model name.
    pub fn model(&self) -> (r: &str)
        ensures
            r@ == self.spec_model(),
    {
        self.model.as_str()
    }

    /// Returns the API key.
    pub fn api_key(&self) -> (r: &str)
        ensures
            r@ == self.spec_api_key(),
    {
        self.api_key.as_str()
    }

    /// The headers of every request, in order: the credentials, then the content type.
    pub fn request_headers(&self) -> (r: Vec<(String, String)>)
        ensures
            r@.len() == 2,
            r@[0].0@ == "Authorization"@ && r@[0].1@ == "Bearer "@ + self.spec_api_key(),
            r@[1].0@ == "Content-Type"@ && r@[1].1@ == "application/json"@,
    {
        let mut r: Vec<(String, String)> = Vec::new();
        r.push((String::from_str("Authorization"), String::from_str("Bearer ").concat(self.api_key.as_str())));
        r.push((String::from_str("Content-Type"), String::from_str("application/json")));
        r
    }

    /// The agent that sends this provider's requests.
    pub fn client(&self) -> (r: &ureq::Agent)
        ensures
            *r == self.spec_client(),
    {
        &self.client
    }

    /// The document part of a request for a document of the given MIME type whose base64
    /// encoding is `encoded`: a data URL, sent as a document for a PDF and as an image URL
    /// for an image; any other MIME type is a configuration error.
    pub fn document_from_encoded(mime_type: &str, encoded: &str) -> (r: Result<ApiDocument>)
        ensures
            is_pdf(mime_type@) ==> (r matches Ok(ApiDocument::DocumentUrl { document_url })
                && document_url@ == "data:"@ + mime_type@ + ";base64,"@ + encoded@),
            !is_pdf(mime_type@) && is_image(mime_type@) ==> (r matches Ok(
                ApiDocument::ImageUrl { image_url },
            ) && image_url.url@ == "data:"@ + mime_type@ + ";base64,"@ + encoded@),
            !is_pdf(mime_type@) && !is_image(mime_type@) ==> (r matches Err(e) && e.is_config(
                "unsupported MIME type: "@ + mime_type@
                    + ". Expected application/pdf or image/*"@,
                None,
            )),
    {
        let url = String::from_str("data:").concat(mime_type).concat(";base64,").concat(encoded);
        if str_eq(mime_type, "application/pdf") {
            Ok(ApiDocument::DocumentUrl { document_url: url })
        } else if str_starts_with(mime_type, "image/") {
            Ok(ApiDocument::ImageUrl { image_url: ApiImageUrl { url } })
        } else {
            let message = String::from_str("unsupported MIME type: ").concat(mime_type).concat(
                ". Expected application/pdf or image/*",
            );
            Err(ProviderError::Config { message, env_var: None })
        }
    }

    /// The document part of a request: a base64 data URL, sent as a document for a PDF and
    /// as an image URL for an image; any other MIME type is a configuration error.
    pub fn create_document(&self, bytes: &[u8], mime_type: &str) -> (r: Result<ApiDocument>)
        requires
            base64_len(bytes@.len()) <= usize::MAX,
        ensures
            is_pdf(mime_type@) ==> (r matches Ok(ApiDocument::DocumentUrl { document_url })
                && document_url@ == data_url(mime_type@, bytes@)),
            !is_pdf(mime_type@) && is_image(mime_type@) ==> (r matches Ok(
                ApiDocument::ImageUrl { image_url },
            ) && image_url.url@ == data_url(mime_type@, bytes@)),
            !is_pdf(mime_type@) && !is_image(mime_type@) ==> (r matches Err(e) && e.is_config(
                "unsupported MIME type: "@ + mime_type@
                    + ". Expected application/pdf or image/*"@,
                None,
            )),
    {
        let encoded = encode_base64(bytes);
        Self::document_from_encoded(mime_type, encoded.as_str())
    }

    /// The body to send for `request`: its document as a data URL, this provider's model,
    /// and the request's options as they are.
    pub fn build_request(&self, request: &Request<'_>) -> (r: Result<ApiRequest>)
        requires
            base64_len(request.document@.len()) <= usize::MAX,
        ensures
            r is Ok <==> is_pdf(request.mime_type@) || is_image(request.mime_type@),
            !is_pdf(request.mime_type@) && !is_image(request.mime_type@) ==> (r matches Err(e)
                && e.is_config(
                "unsupported MIME type: "@ + request.mime_type@
                    + ". Expected application/pdf or image/*"@,
                None,
            )),
            r matches Ok(req) ==> {
                &&& req.model@ == self.spec_model()
                &&& (match req.document {
                    ApiDocument::DocumentUrl { document_url } => is_pdf(request.mime_type@)
                        && document_url@ == data_url(request.mime_type@, request.document@),
                    ApiDocument::ImageUrl { image_url } => !is_pdf(request.mime_type@)
                        && image_url.url@ == data_url(request.mime_type@, request.document@),
                })
                &&& req.pages is Some <==> request.pages is Some
                &&& req.pages matches Some(p) ==> p@ == request.pages.unwrap()@
                &&& req.include_image_base64 == request.include_images
                &&& req.image_limit == request.image_limit
                &&& req.image_min_size == request.image_min_size
                &&& req.table_format == request.table_format
                &&& req.extract_header == request.extract_headers
                &&& req.extract_footer == request.extract_footers
            },
    {
        let document = self.create_document(request.document, request.mime_type)?;
        let pages = match request.pages {
            Some(p) => Some(slice_to_vec(p)),
            None => None,
        };
        Ok(ApiRequest {
            model: self.model.clone(),
            document,
            pages,
            include_image_base64: request.include_images,
            image_limit: request.image_limit,
            image_min_size: request.image_min_size,
            table_format: request.table_format,
            extract_header: request.extract_headers,
            extract_footer: request.extract_footers,
        })
    }

    /// The result of processing a document: the response read from the decoded reply, and
    /// the raw body it was decoded from, kept for replay.
    pub fn process_result(api: ApiResponse, raw_json: String) -> (r: ProcessResult)
        ensures
            response_of(api, r.response),
            r.raw_json == raw_json,
    {
        let response = Self::response_from_api(api);
        ProcessResult { response, raw_json }
    }

    /// The response that a decoded reply becomes: its pages converted one by one, its model,
    /// and its usage figures; without usage figures, the number of pages is the number of
    /// pages in the reply.
    pub fn response_from_api(api: ApiResponse) -> (r: Response)
        ensures
            response_of(api, r),
    {
        let ApiResponse { pages, model, usage_info } = api;
        let (pages_processed, doc_size_bytes) = match usage_info {
            Some(u) => (u.pages_processed, u.doc_size_bytes),
            None => (pages.len() as u32, None),
        };
        let mut out: Vec<Page> = Vec::new();
        for p in it: pages.into_iter()
            invariant
                it.seq() == pages@,
                out@.len() == it.index(),
                forall|i: int| 0 <= i < it.index() ==> page_of(pages@[i], #[trigger] out@[i]),
        {
            out.push(Page::from_api(p));
        }
        Response { pages: out, model, pages_processed, doc_size_bytes }
    }
}

} // verus!
