//! What names and limits memory, as JSON.
use crate::coding::{all_stable, enc_list, list_field, list_round_trip, list_to_json, mark, of_kind, has_kind, required, required_field, required_list, view_of, views, Coded};
use crate::json::{member, put, Json, JsonView};
use crate::record::{as_record, as_variant, find_list_fault, find_object_fault, find_required_fault, find_tag_fault, first, leading_text, lemma_item_fault, list_fault, list_tag, object_fault, record_of, required_fault, said, shape_view, tag_fault, tell, variant_of};
use crate::text::{copy, opt_text, texts, utf8_len};
use crate::types::memory::{is_canonical, is_lower_or_digit, is_tenant_char, is_tenant_id, parsed_memory_path, HitId, Locator, MemoryCapability, MemoryCapabilityView, MemoryPath, MemoryVersion, TenantId, TenantIdError};
use vstd::prelude::*;

verus! {

broadcast use vstd::seq_lib::group_seq_properties;

/// The first character, from `i` on, that no tenant id holds.
pub open spec fn first_odd(s: Seq<char>, i: nat) -> char
    decreases s.len() - i,
{
    if i >= s.len() {
        '_'
    } else if !is_tenant_char(s[i as int]) {
        s[i as int]
    } else {
        first_odd(s, i + 1)
    }
}

/// The first odd character is the one before which there is none.
proof fn lemma_first_odd(s: Seq<char>, i: nat, n: int)
    requires
        i <= n < s.len(),
        !is_tenant_char(s[n]),
        forall|j: int| i <= j < n ==> is_tenant_char(#[trigger] s[j]),
    ensures
        first_odd(s, i) == s[n],
    decreases n - i,
{
    if i < n {
        assert(is_tenant_char(s[i as int]));
        lemma_first_odd(s, i + 1, n);
    }
}

/// Where there is no odd character, the first one is said to be an underscore.
proof fn lemma_none_odd(s: Seq<char>, i: nat)
    requires
        forall|j: int| i <= j < s.len() ==> is_tenant_char(#[trigger] s[j]),
    ensures
        first_odd(s, i) == '_',
    decreases s.len() - i,
{
    if i < s.len() {
        assert(is_tenant_char(s[i as int]));
        lemma_none_odd(s, i + 1);
    }
}

/// Why a text is no tenant id.
pub open spec fn tenant_error(s: Seq<char>) -> TenantIdError {
    if s.len() == 0 {
        TenantIdError::Empty
    } else if utf8_len(s) > 64 {
        TenantIdError::TooLong(utf8_len(s) as usize)
    } else if !is_lower_or_digit(s[0]) {
        TenantIdError::InvalidStart
    } else {
        TenantIdError::InvalidChar(first_odd(s, 1))
    }
}

/// A tenant id is checked when it is read.
impl Coded for TenantId {
    open spec fn stable(v: Seq<char>) -> bool {
        is_tenant_id(v)
    }

    open spec fn enc(v: Seq<char>) -> JsonView {
        JsonView::Text(v)
    }

    open spec fn dec(json: JsonView) -> Option<Seq<char>> {
        match json {
            JsonView::Text(t) => if is_tenant_id(t) {
                Some(t)
            } else {
                None
            },
            _ => None,
        }
    }

    open spec fn complaint(json: JsonView) -> Seq<char> {
        match json {
            JsonView::Text(t) => tenant_error(t).message(),
            _ => String::complaint(json),
        }
    }

    proof fn round_trip(v: Seq<char>) {
    }

    fn to_json(&self) -> (r: Json) {
        Json::text(self.as_str())
    }

    fn read(json: &Json) -> (r: Option<Self>) {
        match json {
            Json::Text(t) => match TenantId::parse(t.as_str()) {
                Ok(id) => Some(id),
                Err(_) => None,
            },
            _ => None,
        }
    }

    fn complain(json: &Json) -> (r: String) {
        match json {
            Json::Text(t) => match TenantId::parse(t.as_str()) {
                Ok(_) => {
                    let e = TenantIdError::InvalidChar('_');
                    proof {
                        lemma_none_odd(t@, 1);
                    }
                    e.to_string()
                },
                Err(e) => {
                    proof {
                        if let TenantIdError::InvalidChar(c) = e {
                            let n = choose|i: int|
                                {
                                    &&& 1 <= i < t@.len()
                                    &&& #[trigger] t@[i] == c
                                    &&& !is_tenant_char(c)
                                    &&& forall|j: int| 1 <= j < i ==> is_tenant_char(#[trigger] t@[j])
                                };
                            lemma_first_odd(t@, 1, n);
                        }
                    }
                    e.to_string()
                },
            },
            _ => String::complain(json),
        }
    }
}

/// A memory path is checked, and brought into its canonical form, when it is read.
impl Coded for MemoryPath {
    open spec fn stable(v: Seq<char>) -> bool {
        is_canonical(v)
    }

    open spec fn enc(v: Seq<char>) -> JsonView {
        JsonView::Text(v)
    }

    open spec fn dec(json: JsonView) -> Option<Seq<char>> {
        match json {
            JsonView::Text(t) => match parsed_memory_path(t) {
                Ok(path) => Some(path),
                Err(_) => None,
            },
            _ => None,
        }
    }

    open spec fn complaint(json: JsonView) -> Seq<char> {
        match json {
            JsonView::Text(t) => match parsed_memory_path(t) {
                Ok(_) => "unexpected JSON"@,
                Err(e) => e.message(),
            },
            _ => String::complaint(json),
        }
    }

    proof fn round_trip(v: Seq<char>) {
    }

    fn to_json(&self) -> (r: Json) {
        Json::text(self.as_str())
    }

    fn read(json: &Json) -> (r: Option<Self>) {
        match json {
            Json::Text(t) => match MemoryPath::parse(t.as_str()) {
                Ok(path) => Some(path),
                Err(_) => None,
            },
            _ => None,
        }
    }

    fn complain(json: &Json) -> (r: String) {
        match json {
            Json::Text(t) => match MemoryPath::parse(t.as_str()) {
                Ok(_) => copy("unexpected JSON"),
                Err(e) => e.to_string(),
            },
            _ => String::complain(json),
        }
    }
}

impl Coded for MemoryVersion {
    open spec fn stable(v: u64) -> bool {
        true
    }

    open spec fn enc(v: u64) -> JsonView {
        JsonView::Unsigned(v)
    }

    open spec fn dec(json: JsonView) -> Option<u64> {
        u64::dec(json)
    }

    open spec fn complaint(json: JsonView) -> Seq<char> {
        u64::complaint(json)
    }

    proof fn round_trip(v: u64) {
    }

    fn to_json(&self) -> (r: Json) {
        Json::Unsigned(self.0)
    }

    fn read(json: &Json) -> (r: Option<Self>) {
        match u64::read(json) {
            Some(n) => Some(MemoryVersion(n)),
            None => None,
        }
    }

    fn complain(json: &Json) -> (r: String) {
        u64::complain(json)
    }
}

impl Coded for HitId {
    open spec fn stable(v: Seq<char>) -> bool {
        true
    }

    open spec fn enc(v: Seq<char>) -> JsonView {
        JsonView::Text(v)
    }

    open spec fn dec(json: JsonView) -> Option<Seq<char>> {
        String::dec(json)
    }

    open spec fn complaint(json: JsonView) -> Seq<char> {
        String::complaint(json)
    }

    proof fn round_trip(v: Seq<char>) {
    }

    fn to_json(&self) -> (r: Json) {
        Json::Text(self.0.clone())
    }

    fn read(json: &Json) -> (r: Option<Self>) {
        match String::read(json) {
            Some(t) => Some(HitId(t)),
            None => None,
        }
    }

    fn complain(json: &Json) -> (r: String) {
        String::complain(json)
    }
}

/// Where a hit is.
pub enum LocatorView {
    Text { byte_start: usize, byte_end: usize },
    PdfPage { page: u32, paragraph: u32 },
    HtmlSelector { selector: Seq<char>, text_start: usize, text_end: usize },
    JsonlLine { line: u64 },
    Opaque { format: Seq<char>, payload: Seq<char> },
}

impl View for Locator {
    type V = LocatorView;

    open spec fn view(&self) -> LocatorView {
        match self {
            Locator::Text { byte_start, byte_end } => LocatorView::Text { byte_start: *byte_start, byte_end: *byte_end },
            Locator::PdfPage { page, paragraph } => LocatorView::PdfPage { page: *page, paragraph: *paragraph },
            Locator::HtmlSelector { selector, text_start, text_end } => LocatorView::HtmlSelector {
                selector: selector@,
                text_start: *text_start,
                text_end: *text_end,
            },
            Locator::JsonlLine { line } => LocatorView::JsonlLine { line: *line },
            Locator::Opaque { format, payload } => LocatorView::Opaque { format: format@, payload: payload@ },
        }
    }
}

/// The names of the members of a locator differ.
pub proof fn lemma_locator_names()
    ensures
        mark("kind"@) == 4_107_110_100,
        mark("byte_start"@) == 10_098_115_116,
        mark("byte_end"@) == 8_098_095_100,
        mark("page"@) == 4_112_103_101,
        mark("paragraph"@) == 9_112_103_104,
        mark("selector"@) == 8_115_099_114,
        mark("text_start"@) == 10_116_115_116,
        mark("text_end"@) == 8_116_095_100,
        mark("line"@) == 4_108_110_101,
        mark("format"@) == 6_102_109_116,
        mark("payload"@) == 7_112_108_100,
{
    reveal_strlit("kind");
    reveal_strlit("byte_start");
    reveal_strlit("byte_end");
    reveal_strlit("page");
    reveal_strlit("paragraph");
    reveal_strlit("selector");
    reveal_strlit("text_start");
    reveal_strlit("text_end");
    reveal_strlit("line");
    reveal_strlit("format");
    reveal_strlit("payload");
}

/// The names of the variants of a locator differ.
pub proof fn lemma_locator_tags()
    ensures
        mark("text"@) == 4_116_120_116,
        mark("pdf_page"@) == 8_112_112_101,
        mark("html_selector"@) == 13_104_101_114,
        mark("jsonl_line"@) == 10_106_095_101,
        mark("opaque"@) == 6_111_113_101,
{
    reveal_strlit("text");
    reveal_strlit("pdf_page");
    reveal_strlit("html_selector");
    reveal_strlit("jsonl_line");
    reveal_strlit("opaque");
}

/// The value that the members of an object stand for, where they stand for a locator.
pub open spec fn locator_value(json: JsonView) -> Option<LocatorView> {
    if has_kind(json, "text"@) {
        match (
            required::<usize>(member(json, "byte_start"@)),
            required::<usize>(member(json, "byte_end"@)),
        ) {
            (Some(byte_start), Some(byte_end)) => Some(
                LocatorView::Text { byte_start, byte_end },
            ),
            _ => None,
        }
    } else if has_kind(json, "pdf_page"@) {
        match (
            required::<u32>(member(json, "page"@)),
            required::<u32>(member(json, "paragraph"@)),
        ) {
            (Some(page), Some(paragraph)) => Some(
                LocatorView::PdfPage { page, paragraph },
            ),
            _ => None,
        }
    } else if has_kind(json, "html_selector"@) {
        match (
            required::<String>(member(json, "selector"@)),
            required::<usize>(member(json, "text_start"@)),
            required::<usize>(member(json, "text_end"@)),
        ) {
            (Some(selector), Some(text_start), Some(text_end)) => Some(
                LocatorView::HtmlSelector { selector, text_start, text_end },
            ),
            _ => None,
        }
    } else if has_kind(json, "jsonl_line"@) {
        match required::<u64>(member(json, "line"@)) {
            Some(line) => Some(
                LocatorView::JsonlLine { line },
            ),
            _ => None,
        }
    } else if has_kind(json, "opaque"@) {
        match (
            required::<String>(member(json, "format"@)),
            required::<String>(member(json, "payload"@)),
        ) {
            (Some(format), Some(payload)) => Some(
                LocatorView::Opaque { format, payload },
            ),
            _ => None,
        }
    } else {
        None
    }
}

/// Reads the members of a locator.
fn read_locator_value(json: &Json) -> (r: Option<Locator>)
    ensures
        view_of(r) == locator_value(json@),
{
    let tag = match json.get("kind") {
        Some(Json::Text(tag)) => tag.as_str(),
        _ => {
            return None;
        },
    };
    if *tag == *"text" {
        match (
            required_field::<usize>(json, "byte_start"),
            required_field::<usize>(json, "byte_end"),
        ) {
            (Some(byte_start), Some(byte_end)) => Some(
                Locator::Text { byte_start, byte_end },
            ),
            _ => None,
        }
    } else if *tag == *"pdf_page" {
        match (
            required_field::<u32>(json, "page"),
            required_field::<u32>(json, "paragraph"),
        ) {
            (Some(page), Some(paragraph)) => Some(
                Locator::PdfPage { page, paragraph },
            ),
            _ => None,
        }
    } else if *tag == *"html_selector" {
        match (
            required_field::<String>(json, "selector"),
            required_field::<usize>(json, "text_start"),
            required_field::<usize>(json, "text_end"),
        ) {
            (Some(selector), Some(text_start), Some(text_end)) => Some(
                Locator::HtmlSelector { selector, text_start, text_end },
            ),
            _ => None,
        }
    } else if *tag == *"jsonl_line" {
        match required_field::<u64>(json, "line") {
            Some(line) => Some(
                Locator::JsonlLine { line },
            ),
            _ => None,
        }
    } else if *tag == *"opaque" {
        match (
            required_field::<String>(json, "format"),
            required_field::<String>(json, "payload"),
        ) {
            (Some(format), Some(payload)) => Some(
                Locator::Opaque { format, payload },
            ),
            _ => None,
        }
    } else {
        None
    }
}

/// The members of each variant of a locator, the tag first.
pub open spec fn locator_shape(tag: Seq<char>) -> Option<(Seq<Seq<char>>, nat)> {
    if tag == "text"@ {
        Some((seq!["kind"@, "byte_start"@, "byte_end"@], 3))
    } else if tag == "pdf_page"@ {
        Some((seq!["kind"@, "page"@, "paragraph"@], 3))
    } else if tag == "html_selector"@ {
        Some((seq!["kind"@, "selector"@, "text_start"@, "text_end"@], 4))
    } else if tag == "jsonl_line"@ {
        Some((seq!["kind"@, "line"@], 2))
    } else if tag == "opaque"@ {
        Some((seq!["kind"@, "format"@, "payload"@], 3))
    } else {
        None
    }
}

/// The object that stands for a locator, which may be written as the list of a tag and of the
/// values of the variant's members.
pub open spec fn locator_record(json: JsonView) -> JsonView {
    match leading_text(json) {
        Some(tag) => variant_of(json, locator_shape(tag)),
        None => json,
    }
}

/// The members of each variant of a locator, the tag first.
fn shape_of_locator(tag: &str) -> (r: Option<(Vec<String>, usize)>)
    ensures
        shape_view(r) == locator_shape(tag@),
{
    if *tag == *"text" {
        let names: Vec<String> = vec![copy("kind"), copy("byte_start"), copy("byte_end")];
        assert(texts(names@) =~= seq!["kind"@, "byte_start"@, "byte_end"@]);
        Some((names, 3))
    } else if *tag == *"pdf_page" {
        let names: Vec<String> = vec![copy("kind"), copy("page"), copy("paragraph")];
        assert(texts(names@) =~= seq!["kind"@, "page"@, "paragraph"@]);
        Some((names, 3))
    } else if *tag == *"html_selector" {
        let names: Vec<String> = vec![copy("kind"), copy("selector"), copy("text_start"), copy("text_end")];
        assert(texts(names@) =~= seq!["kind"@, "selector"@, "text_start"@, "text_end"@]);
        Some((names, 4))
    } else if *tag == *"jsonl_line" {
        let names: Vec<String> = vec![copy("kind"), copy("line")];
        assert(texts(names@) =~= seq!["kind"@, "line"@]);
        Some((names, 2))
    } else if *tag == *"opaque" {
        let names: Vec<String> = vec![copy("kind"), copy("format"), copy("payload")];
        assert(texts(names@) =~= seq!["kind"@, "format"@, "payload"@]);
        Some((names, 3))
    } else {
        None
    }
}

/// The object that a list stands for, where it stands for a locator.
fn record_of_locator(json: &Json) -> (r: Option<Json>)
    ensures
        match r {
            Some(record) => record@ == locator_record(json@),
            None => json@ == locator_record(json@),
        },
{
    match list_tag(json) {
        Some(tag) => as_variant(json, &shape_of_locator(tag.as_str())),
        None => None,
    }
}

/// What is wrong with the members of a locator.
pub open spec fn locator_fault(json: JsonView) -> Option<Seq<char>> {
    if has_kind(json, "text"@) {
        first(
            required_fault::<usize>(json, "byte_start"@),
            required_fault::<usize>(json, "byte_end"@),
        )
    } else if has_kind(json, "pdf_page"@) {
        first(
            required_fault::<u32>(json, "page"@),
            required_fault::<u32>(json, "paragraph"@),
        )
    } else if has_kind(json, "html_selector"@) {
        first(
            required_fault::<String>(json, "selector"@),
            first(
                required_fault::<usize>(json, "text_start"@),
                required_fault::<usize>(json, "text_end"@),
            ),
        )
    } else if has_kind(json, "jsonl_line"@) {
        required_fault::<u64>(json, "line"@)
    } else if has_kind(json, "opaque"@) {
        first(
            required_fault::<String>(json, "format"@),
            required_fault::<String>(json, "payload"@),
        )
    } else {
        Some(tag_fault(json, "kind"@))
    }
}

/// Finds what is wrong with the members of a locator.
fn find_locator_fault(json: &Json) -> (r: Option<String>)
    ensures
        opt_text(r) == locator_fault(json@),
{
    let tag = match json.get("kind") {
        Some(Json::Text(tag)) => tag.as_str(),
        _ => {
            return Some(find_tag_fault(json, "kind"));
        },
    };
    if *tag == *"text" {
        let fault = find_required_fault::<usize>(json, "byte_start");
        if fault.is_some() {
            return fault;
        }
        find_required_fault::<usize>(json, "byte_end")
    } else if *tag == *"pdf_page" {
        let fault = find_required_fault::<u32>(json, "page");
        if fault.is_some() {
            return fault;
        }
        find_required_fault::<u32>(json, "paragraph")
    } else if *tag == *"html_selector" {
        let fault = find_required_fault::<String>(json, "selector");
        if fault.is_some() {
            return fault;
        }
        let fault = find_required_fault::<usize>(json, "text_start");
        if fault.is_some() {
            return fault;
        }
        find_required_fault::<usize>(json, "text_end")
    } else if *tag == *"jsonl_line" {
        find_required_fault::<u64>(json, "line")
    } else if *tag == *"opaque" {
        let fault = find_required_fault::<String>(json, "format");
        if fault.is_some() {
            return fault;
        }
        find_required_fault::<String>(json, "payload")
    } else {
        Some(find_tag_fault(json, "kind"))
    }
}

impl Coded for Locator {
    open spec fn stable(v: LocatorView) -> bool {
        true
    }

    open spec fn enc(v: LocatorView) -> JsonView {
        match v {
            LocatorView::Text { byte_start, byte_end } => JsonView::Object(
                of_kind("text"@)
                    .insert("byte_start"@, usize::enc(byte_start))
                    .insert("byte_end"@, usize::enc(byte_end)),
            ),
            LocatorView::PdfPage { page, paragraph } => JsonView::Object(
                of_kind("pdf_page"@).insert("page"@, u32::enc(page)).insert("paragraph"@, u32::enc(paragraph)),
            ),
            LocatorView::HtmlSelector { selector, text_start, text_end } => JsonView::Object(
                of_kind("html_selector"@)
                    .insert("selector"@, String::enc(selector))
                    .insert("text_start"@, usize::enc(text_start))
                    .insert("text_end"@, usize::enc(text_end)),
            ),
            LocatorView::JsonlLine { line } => JsonView::Object(
                of_kind("jsonl_line"@).insert("line"@, u64::enc(line)),
            ),
            LocatorView::Opaque { format, payload } => JsonView::Object(
                of_kind("opaque"@)
                    .insert("format"@, String::enc(format))
                    .insert("payload"@, String::enc(payload)),
            ),
        }
    }

    open spec fn dec(json: JsonView) -> Option<LocatorView> {
        locator_value(locator_record(json))
    }

    open spec fn complaint(json: JsonView) -> Seq<char> {
        said(locator_fault(locator_record(json)))
    }

    proof fn round_trip(v: LocatorView) {
        lemma_locator_names();
        lemma_locator_tags();
        let json = Self::enc(v);
        match v {
            LocatorView::Text { byte_start, byte_end } => {
                assert(has_kind(json, "text"@));
                assert(member(json, "byte_start"@) == Some(usize::enc(byte_start)));
                assert(member(json, "byte_end"@) == Some(usize::enc(byte_end)));
            },
            LocatorView::PdfPage { page, paragraph } => {
                assert(has_kind(json, "pdf_page"@));
                assert(member(json, "page"@) == Some(u32::enc(page)));
                assert(member(json, "paragraph"@) == Some(u32::enc(paragraph)));
            },
            LocatorView::HtmlSelector { selector, text_start, text_end } => {
                assert(has_kind(json, "html_selector"@));
                assert(member(json, "selector"@) == Some(String::enc(selector)));
                assert(member(json, "text_start"@) == Some(usize::enc(text_start)));
                assert(member(json, "text_end"@) == Some(usize::enc(text_end)));
            },
            LocatorView::JsonlLine { line } => {
                assert(has_kind(json, "jsonl_line"@));
                assert(member(json, "line"@) == Some(u64::enc(line)));
            },
            LocatorView::Opaque { format, payload } => {
                assert(has_kind(json, "opaque"@));
                assert(member(json, "format"@) == Some(String::enc(format)));
                assert(member(json, "payload"@) == Some(String::enc(payload)));
            },
        }
    }

    fn to_json(&self) -> (r: Json) {
        let mut m: Vec<(String, Json)> = Vec::new();
        match self {
            Locator::Text { byte_start, byte_end } => {
                put(&mut m, "kind", Json::text("text"));
                put(&mut m, "byte_start", byte_start.to_json());
                put(&mut m, "byte_end", byte_end.to_json());
            },
            Locator::PdfPage { page, paragraph } => {
                put(&mut m, "kind", Json::text("pdf_page"));
                put(&mut m, "page", page.to_json());
                put(&mut m, "paragraph", paragraph.to_json());
            },
            Locator::HtmlSelector { selector, text_start, text_end } => {
                put(&mut m, "kind", Json::text("html_selector"));
                put(&mut m, "selector", selector.to_json());
                put(&mut m, "text_start", text_start.to_json());
                put(&mut m, "text_end", text_end.to_json());
            },
            Locator::JsonlLine { line } => {
                put(&mut m, "kind", Json::text("jsonl_line"));
                put(&mut m, "line", line.to_json());
            },
            Locator::Opaque { format, payload } => {
                put(&mut m, "kind", Json::text("opaque"));
                put(&mut m, "format", format.to_json());
                put(&mut m, "payload", payload.to_json());
            },
        }
        Json::Object(m)
    }

    fn read(json: &Json) -> (r: Option<Self>) {
        match record_of_locator(json) {
            Some(record) => read_locator_value(&record),
            None => read_locator_value(json),
        }
    }

    fn complain(json: &Json) -> (r: String) {
        match record_of_locator(json) {
            Some(record) => tell(find_locator_fault(&record)),
            None => tell(find_locator_fault(json)),
        }
    }
}

/// The names of the members of access to memory differ.
pub proof fn lemma_memory_names()
    ensures
        mark("enabled"@) == 7_101_098_100,
        mark("search_scopes"@) == 13_115_095_115,
        mark("write_scopes"@) == 12_119_115_115,
{
    reveal_strlit("enabled");
    reveal_strlit("search_scopes");
    reveal_strlit("write_scopes");
}

/// The value that the members of an object stand for, where they stand for access to memory.
pub open spec fn memory_value(json: JsonView) -> Option<MemoryCapabilityView> {
    match (
        required::<bool>(member(json, "enabled"@)),
        required_list::<MemoryPath>(member(json, "search_scopes"@)),
        required_list::<MemoryPath>(member(json, "write_scopes"@)),
    ) {
        (Some(enabled), Some(search_scopes), Some(write_scopes)) => Some(
            MemoryCapabilityView { enabled, search_scopes, write_scopes },
        ),
        _ => None,
    }
}

/// Reads the members of access to memory.
fn read_memory_value(json: &Json) -> (r: Option<MemoryCapability>)
    ensures
        view_of(r) == memory_value(json@),
{
    match (
        required_field::<bool>(json, "enabled"),
        list_field::<MemoryPath>(json, "search_scopes"),
        list_field::<MemoryPath>(json, "write_scopes"),
    ) {
        (Some(enabled), Some(search_scopes), Some(write_scopes)) => {
            proof {
                assert(texts(search_scopes@) =~= views(search_scopes@));
                assert(texts(write_scopes@) =~= views(write_scopes@));
            }
            Some(MemoryCapability { enabled, search_scopes, write_scopes })
        },
        _ => None,
    }
}

/// The members of access to memory.
pub open spec fn memory_names() -> Seq<Seq<char>> {
    seq!["enabled"@, "search_scopes"@, "write_scopes"@]
}

/// The object that a list stands for, where it stands for access to memory.
fn memory_record(json: &Json) -> (r: Option<Json>)
    ensures
        match r {
            Some(record) => record@ == record_of(json@, memory_names(), 3),
            None => json@ == record_of(json@, memory_names(), 3),
        },
{
    let names: Vec<String> = vec![copy("enabled"), copy("search_scopes"), copy("write_scopes")];
    assert(texts(names@) =~= memory_names());
    as_record(json, &names, 3)
}

/// What is wrong with the members of access to memory.
pub open spec fn memory_fault(json: JsonView) -> Option<Seq<char>> {
    first(
        object_fault(json),
        first(
            required_fault::<bool>(json, "enabled"@),
            first(
                list_fault::<MemoryPath>(json, "search_scopes"@),
                list_fault::<MemoryPath>(json, "write_scopes"@),
            ),
        ),
    )
}

/// Finds what is wrong with the members of access to memory.
fn find_memory_fault(json: &Json) -> (r: Option<String>)
    ensures
        opt_text(r) == memory_fault(json@),
{
    let fault = find_object_fault(json);
    if fault.is_some() {
        return fault;
    }
    let fault = find_required_fault::<bool>(json, "enabled");
    if fault.is_some() {
        return fault;
    }
    let fault = find_list_fault::<MemoryPath>(json, "search_scopes");
    if fault.is_some() {
        return fault;
    }
    find_list_fault::<MemoryPath>(json, "write_scopes")
}

impl Coded for MemoryCapability {
    open spec fn stable(v: MemoryCapabilityView) -> bool {
        all_stable::<MemoryPath>(v.search_scopes) && all_stable::<MemoryPath>(v.write_scopes)
    }

    open spec fn enc(v: MemoryCapabilityView) -> JsonView {
        JsonView::Object(
            Map::empty()
                .insert("enabled"@, bool::enc(v.enabled))
                .insert("search_scopes"@, enc_list::<MemoryPath>(v.search_scopes))
                .insert("write_scopes"@, enc_list::<MemoryPath>(v.write_scopes)),
        )
    }

    open spec fn dec(json: JsonView) -> Option<MemoryCapabilityView> {
        memory_value(record_of(json, memory_names(), 3))
    }

    open spec fn complaint(json: JsonView) -> Seq<char> {
        said(memory_fault(record_of(json, memory_names(), 3)))
    }

    proof fn round_trip(v: MemoryCapabilityView) {
        lemma_memory_names();
        let json = Self::enc(v);
        assert(member(json, "enabled"@) == Some(bool::enc(v.enabled)));
        bool::round_trip(v.enabled);
        assert(member(json, "search_scopes"@) == Some(enc_list::<MemoryPath>(v.search_scopes)));
        list_round_trip::<MemoryPath>(v.search_scopes);
        assert(member(json, "write_scopes"@) == Some(enc_list::<MemoryPath>(v.write_scopes)));
        list_round_trip::<MemoryPath>(v.write_scopes);
    }

    fn to_json(&self) -> (r: Json) {
        let mut m: Vec<(String, Json)> = Vec::new();
        put(&mut m, "enabled", self.enabled.to_json());
        put(&mut m, "search_scopes", list_to_json(&self.search_scopes));
        put(&mut m, "write_scopes", list_to_json(&self.write_scopes));
        proof {
            assert(texts(self.search_scopes@) =~= views(self.search_scopes@));
            assert(texts(self.write_scopes@) =~= views(self.write_scopes@));
        }
        Json::Object(m)
    }

    fn read(json: &Json) -> (r: Option<Self>) {
        match memory_record(json) {
            Some(record) => read_memory_value(&record),
            None => read_memory_value(json),
        }
    }

    fn complain(json: &Json) -> (r: String) {
        match memory_record(json) {
            Some(record) => tell(find_memory_fault(&record)),
            None => tell(find_memory_fault(json)),
        }
    }
}

/// A locator or access to memory is refused where something is wrong with it, and only there.
pub proof fn refused_memory_values_are_explained(json: JsonView)
    ensures
        locator_fault(json) is Some <==> locator_value(json) is None,
        memory_fault(json) is Some <==> memory_value(json) is None,
{
    match member(json, "search_scopes"@) {
        Some(JsonView::Array(items)) => {
            lemma_item_fault::<MemoryPath>(items);
        },
        _ => {},
    }
    match member(json, "write_scopes"@) {
        Some(JsonView::Array(items)) => {
            lemma_item_fault::<MemoryPath>(items);
        },
        _ => {},
    }
}

} // verus!
