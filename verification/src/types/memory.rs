//! Tenants, memory paths and the memory capability.
use crate::path::{all_names, dot, dot_dot, is_name, is_under, lemma_components_of_rooted, lemma_rooted_under, lemma_split_rooted, lemma_split_under, normalized, rooted, trim_slashes, under, without_trailing_slashes};
use crate::text::{byte_len, chars_of, concat, copy, copy_all, decimal, has_char, hex, hex_number, join_with, lemma_split_pieces, lemma_utf8_len_concat, number, split, split_at_char, texts, utf8_len, Named};
use vstd::prelude::*;
use vstd::string::*;

verus! {

broadcast use vstd::seq_lib::group_seq_properties;

/// Maximum size of the snippet returned in a search hit.
pub const MEMORY_SNIPPET_CHARS: usize = 320;

/// Time-to-live for `HitId`s in the per-process cache.
pub const HIT_ID_TTL_SECONDS: u64 = 300;

/// Maximum number of `HitId` cache entries across all tenants in a process.
pub const HIT_ID_CACHE_MAX: usize = 65_536;

/// Maximum entries in the buffer of recent writes of a run.
pub const RRWB_MAX_ENTRIES: usize = 64;

/// Maximum payload bytes of one entry of that buffer. Larger writes skip it.
pub const RRWB_MAX_BYTES_PER_ENTRY: usize = 64 * 1024;

/// Maximum total bytes held in that buffer.
pub const RRWB_MAX_TOTAL_BYTES: usize = 1024 * 1024;

/// A lowercase ASCII letter or an ASCII digit.
pub open spec fn is_lower_or_digit(c: char) -> bool {
    'a' <= c <= 'z' || '0' <= c <= '9'
}

/// A character that a tenant id may hold after the first one.
pub open spec fn is_tenant_char(c: char) -> bool {
    is_lower_or_digit(c) || c == '_' || c == '-'
}

/// The texts that are tenant ids: `[a-z0-9][a-z0-9_-]{0,63}`.
pub open spec fn is_tenant_id(s: Seq<char>) -> bool {
    &&& 0 < s.len()
    &&& utf8_len(s) <= 64
    &&& is_lower_or_digit(s[0])
    &&& forall|i: int| 1 <= i < s.len() ==> is_tenant_char(#[trigger] s[i])
}

/// Validated tenant identifier. Safe for filesystem path interpolation.
#[derive(Debug, PartialEq, Eq, Hash)]
pub struct TenantId(String);

/// Why a text is no tenant id.
#[derive(Debug, PartialEq, Eq)]
pub enum TenantIdError {
    Empty,
    TooLong(usize),
    InvalidStart,
    InvalidChar(char),
}

impl View for TenantId {
    type V = Seq<char>;

    closed spec fn view(&self) -> Seq<char> {
        self.0@
    }
}

impl Clone for TenantId {
    fn clone(&self) -> (r: Self)
        ensures
            r@ == self@,
    {
        proof {
            use_type_invariant(self);
        }
        TenantId(self.0.clone())
    }
}

impl TenantId {
    #[verifier::type_invariant]
    spec fn valid(self) -> bool {
        is_tenant_id(self.0@)
    }

    /// Parse and validate a tenant id.
    pub fn parse(s: &str) -> (r: Result<Self, TenantIdError>)
        ensures
            match r {
                Ok(id) => is_tenant_id(s@) && id@ == s@,
                Err(TenantIdError::Empty) => s@.len() == 0,
                Err(TenantIdError::TooLong(n)) => s@.len() > 0 && n == utf8_len(s@) && n > 64,
                Err(TenantIdError::InvalidStart) => {
                    &&& s@.len() > 0
                    &&& utf8_len(s@) <= 64
                    &&& !is_lower_or_digit(s@[0])
                },
                Err(TenantIdError::InvalidChar(c)) => {
                    &&& s@.len() > 0
                    &&& utf8_len(s@) <= 64
                    &&& is_lower_or_digit(s@[0])
                    &&& exists|i: int|
                        {
                            &&& 1 <= i < s@.len()
                            &&& #[trigger] s@[i] == c
                            &&& !is_tenant_char(c)
                            &&& forall|j: int| 1 <= j < i ==> is_tenant_char(#[trigger] s@[j])
                        }
                },
            },
    {
        if s.is_empty() {
            return Err(TenantIdError::Empty);
        }
        let len: usize = byte_len(s);
        if len > 64 {
            return Err(TenantIdError::TooLong(len));
        }
        let chars = chars_of(s);
        let first = chars[0];
        if !(('a' <= first && first <= 'z') || ('0' <= first && first <= '9')) {
            return Err(TenantIdError::InvalidStart);
        }
        let mut i: usize = 1;
        while i < chars.len()
            invariant
                1 <= i <= chars@.len(),
                chars@ == s@,
                s@.len() > 0,
                utf8_len(s@) <= 64,
                is_lower_or_digit(s@[0]),
                forall|j: int| 1 <= j < i ==> is_tenant_char(#[trigger] s@[j]),
            decreases chars@.len() - i,
        {
            let c = chars[i];
            if !(('a' <= c && c <= 'z') || ('0' <= c && c <= '9') || c == '_' || c == '-') {
                assert(s@[i as int] == c);
                return Err(TenantIdError::InvalidChar(c));
            }
            i = i + 1;
        }
        Ok(TenantId(copy(s)))
    }

    /// The validated string. Safe to use as a filesystem segment.
    pub fn as_str(&self) -> (r: &str)
        ensures
            r@ == self@,
            is_tenant_id(r@),
    {
        proof {
            use_type_invariant(self);
        }
        self.0.as_str()
    }

    /// Same as `as_str`. Named explicitly for clarity at use sites.
    pub fn as_fs_segment(&self) -> (r: &str)
        ensures
            r@ == self@,
            is_tenant_id(r@),
    {
        proof {
            use_type_invariant(self);
        }
        self.0.as_str()
    }
}

impl TenantId {
    /// The id as text.
    pub fn to_string(&self) -> (r: String)
        ensures
            r@ == self@,
    {
        self.0.clone()
    }
}

impl TenantIdError {
    /// What the error says.
    pub open spec fn message(self) -> Seq<char> {
        match self {
            TenantIdError::Empty => "tenant id is empty"@,
            TenantIdError::TooLong(n) => "tenant id too long: max 64 characters, got "@ + decimal(n as nat),
            TenantIdError::InvalidStart => "tenant id must start with a lowercase letter or digit"@,
            TenantIdError::InvalidChar(c) => "tenant id contains invalid character: '"@.push(c)
                + "' (allowed: a-z, 0-9, _, -)"@,
        }
    }

    /// What the error says.
    pub fn to_string(&self) -> (r: String)
        ensures
            r@ == self.message(),
    {
        match self {
            TenantIdError::Empty => copy("tenant id is empty"),
            TenantIdError::TooLong(n) => concat(
                "tenant id too long: max 64 characters, got ",
                number(*n as u64).as_str(),
            ),
            TenantIdError::InvalidStart => copy("tenant id must start with a lowercase letter or digit"),
            TenantIdError::InvalidChar(c) => {
                let mut out = copy("tenant id contains invalid character: '");
                out.push(*c);
                out.append("' (allowed: a-z, 0-9, _, -)");
                out
            },
        }
    }
}

/// A control character that memory paths refuse.
pub open spec fn is_control(c: char) -> bool {
    c < '\u{20}' || c == '\u{7f}'
}

/// The first control character of `s`, where it has one.
pub open spec fn first_control(s: Seq<char>) -> Option<char>
    decreases s.len(),
{
    if s.len() == 0 {
        None
    } else if first_control(s.drop_last()) is Some {
        first_control(s.drop_last())
    } else if is_control(s.last()) {
        Some(s.last())
    } else {
        None
    }
}

/// The paths at or under `/var/memory` and `/mnt`.
pub open spec fn is_memory_path(s: Seq<char>) -> bool {
    under(s, "/var/memory"@) || under(s, "/mnt"@)
}

/// Why a segment may not stand in a memory path.
pub open spec fn segment_error(segment: Seq<char>) -> Option<MemoryPathError> {
    if segment.len() == 0 {
        Some(MemoryPathError::EmptySegment)
    } else if segment == dot_dot() {
        Some(MemoryPathError::ParentSegment)
    } else if segment != dot() && utf8_len(segment) > 255 {
        Some(MemoryPathError::SegmentTooLong(utf8_len(segment) as usize))
    } else {
        None
    }
}

/// The names among `segments` (all but `.`), or the error of the first segment
/// that has one.
pub open spec fn memory_names(segments: Seq<Seq<char>>) -> Result<Seq<Seq<char>>, MemoryPathError>
    decreases segments.len(),
{
    if segments.len() == 0 {
        Ok(Seq::empty())
    } else {
        match memory_names(segments.drop_last()) {
            Err(e) => Err(e),
            Ok(names) => match segment_error(segments.last()) {
                Some(e) => Err(e),
                None => if segments.last() == dot() {
                    Ok(names)
                } else {
                    Ok(names.push(segments.last()))
                },
            },
        }
    }
}

/// What parsing the memory path `s` gives: its canonical form, or the first rule
/// that it breaks.
pub open spec fn parsed_memory_path(s: Seq<char>) -> Result<Seq<char>, MemoryPathError> {
    if s.len() == 0 {
        Err(MemoryPathError::Empty)
    } else if utf8_len(s) > 1024 {
        Err(MemoryPathError::PathTooLong(utf8_len(s) as usize))
    } else if s.contains('\0') {
        Err(MemoryPathError::NullByte)
    } else if first_control(s) is Some {
        Err(MemoryPathError::ControlChar(first_control(s)->0 as u32))
    } else if !is_memory_path(s) {
        Err(MemoryPathError::InvalidPrefix)
    } else {
        match memory_names(split_at_char(trim_slashes(s), '/').skip(1)) {
            Err(e) => Err(e),
            Ok(names) => Ok(rooted(names)),
        }
    }
}

/// Validated memory path, rooted at `/var/memory` or `/mnt`.
///
/// Rejects `..` (where the general path normalizer collapses it), null bytes,
/// control characters, oversized segments, and any path outside the two roots.
#[derive(Debug, PartialEq, Eq, Hash)]
pub struct MemoryPath(String);

/// Why a text is no memory path.
#[derive(Debug, PartialEq, Eq)]
pub enum MemoryPathError {
    Empty,
    InvalidPrefix,
    ParentSegment,
    NullByte,
    ControlChar(u32),
    SegmentTooLong(usize),
    PathTooLong(usize),
    EmptySegment,
}

impl View for MemoryPath {
    type V = Seq<char>;

    closed spec fn view(&self) -> Seq<char> {
        self.0@
    }
}

impl Clone for MemoryPath {
    fn clone(&self) -> (r: Self)
        ensures
            r@ == self@,
    {
        proof {
            use_type_invariant(self);
        }
        MemoryPath(self.0.clone())
    }
}

impl Named for MemoryPath {
    open spec fn text(&self) -> Seq<char> {
        self@
    }

    fn duplicate(&self) -> (r: Self) {
        self.clone()
    }

    fn as_text(&self) -> (r: &str) {
        self.0.as_str()
    }
}

/// The canonical memory paths: those that parse to themselves.
pub open spec fn is_canonical(s: Seq<char>) -> bool {
    parsed_memory_path(s) == Ok::<Seq<char>, MemoryPathError>(s)
}

impl MemoryPath {
    #[verifier::type_invariant]
    spec fn valid(self) -> bool {
        is_canonical(self.0@)
    }

    /// Parse and validate. Returns the canonical form (no trailing slashes,
    /// no consecutive slashes, no `.` segments).
    pub fn parse(s: &str) -> (r: Result<Self, MemoryPathError>)
        ensures
            match r {
                Ok(path) => parsed_memory_path(s@) == Ok::<Seq<char>, MemoryPathError>(path@),
                Err(e) => parsed_memory_path(s@) == Err::<Seq<char>, MemoryPathError>(e),
            },
    {
        if s.is_empty() {
            return Err(MemoryPathError::Empty);
        }
        let len: usize = byte_len(s);
        if len > 1024 {
            return Err(MemoryPathError::PathTooLong(len));
        }
        if has_char(s, '\0') {
            return Err(MemoryPathError::NullByte);
        }
        let chars = chars_of(s);
        let mut i: usize = 0;
        while i < chars.len()
            invariant
                i <= chars@.len(),
                chars@ == s@,
                s@.len() > 0,
                utf8_len(s@) <= 1024,
                !s@.contains('\0'),
                first_control(s@.take(i as int)) is None,
            decreases chars@.len() - i,
        {
            let c = chars[i];
            assert(s@.take(i + 1).drop_last() =~= s@.take(i as int));
            if c < '\u{20}' || c == '\u{7f}' {
                proof {
                    lemma_first_control_prefix(s@, i + 1);
                }
                return Err(MemoryPathError::ControlChar(c as u32));
            }
            i = i + 1;
        }
        assert(s@.take(i as int) =~= s@);
        if !MemoryPath::is_memory_path_str(s) {
            return Err(MemoryPathError::InvalidPrefix);
        }
        let trimmed = without_trailing_slashes(s);
        let segments = split(trimmed.as_str(), '/');
        let ghost all = split_at_char(trim_slashes(s@), '/').skip(1);
        let mut canonical = String::new();
        canonical.push('/');
        let mut first = true;
        let mut k: usize = 1;
        let ghost mut names: Seq<Seq<char>> = Seq::empty();
        assert(all.take(0) =~= Seq::<Seq<char>>::empty());
        assert(canonical@ =~= rooted(names));
        while k < segments.len()
            invariant
                1 <= k <= segments@.len(),
                s@.len() > 0,
                utf8_len(s@) <= 1024,
                !s@.contains('\0'),
                first_control(s@) is None,
                is_memory_path(s@),
                texts(segments@) == split_at_char(trim_slashes(s@), '/'),
                all == texts(segments@).skip(1),
                memory_names(all.take(k - 1)) == Ok::<Seq<Seq<char>>, MemoryPathError>(names),
                canonical@ == rooted(names),
                first == (names.len() == 0),
            decreases segments@.len() - k,
        {
            let segment: &str = segments[k].as_str();
            proof {
                reveal_strlit(".");
                reveal_strlit("..");
                assert("."@ =~= dot());
                assert(".."@ =~= dot_dot());
                assert(all.take(k as int).drop_last() =~= all.take(k - 1));
                assert(all.take(k as int).last() == segment@);
                if segment_error(segment@) is Some {
                    lemma_memory_names_prefix(all, k as int);
                }
            }
            if segment.is_empty() {
                return Err(MemoryPathError::EmptySegment);
            }
            if *segment == *".." {
                return Err(MemoryPathError::ParentSegment);
            }
            if *segment != *"." {
                let segment_len: usize = byte_len(segment);
                if segment_len > 255 {
                    return Err(MemoryPathError::SegmentTooLong(segment_len));
                }
                let ghost was = canonical@;
                if !first {
                    canonical.push('/');
                }
                canonical.append(segment);
                first = false;
                proof {
                    let more = names.push(segment@);
                    assert(more.drop_last() =~= names);
                    assert(canonical@ =~= rooted(more));
                    names = more;
                }
            }
            k = k + 1;
        }
        assert(all.take(k - 1) =~= all);
        proof {
            parse_is_idempotent(s@);
        }
        Ok(MemoryPath(canonical))
    }

    /// The canonical path string.
    pub fn as_str(&self) -> (r: &str)
        ensures
            r@ == self@,
            is_canonical(r@),
    {
        proof {
            use_type_invariant(self);
        }
        self.0.as_str()
    }

    /// Returns true if `self` is at or under the given prefix, with
    /// segment-boundary matching. `/var/memory/selfish` is NOT under
    /// `/var/memory/self`.
    pub fn starts_with_prefix(&self, prefix: &MemoryPath) -> (r: bool)
        ensures
            r == under(self@, prefix@),
    {
        is_under(self.0.as_str(), prefix.0.as_str())
    }

    /// True if the path is at or under `/var/memory/dedup` (which is not indexed).
    pub fn is_dedup(&self) -> (r: bool)
        ensures
            r == under(self@, "/var/memory/dedup"@),
    {
        is_under(self.0.as_str(), "/var/memory/dedup")
    }

    /// True if the path is at or under `/mnt` (admin-ingested).
    pub fn is_mnt(&self) -> (r: bool)
        ensures
            r == under(self@, "/mnt"@),
    {
        is_under(self.0.as_str(), "/mnt")
    }

    /// The canonical path as text.
    pub fn to_string(&self) -> (r: String)
        ensures
            r@ == self@,
    {
        self.0.clone()
    }

    /// True if the raw path string is under `/var/memory/**` or `/mnt/**`.
    ///
    /// The one definition of a memory path, for the capability layer and the
    /// filesystem layer alike. Matching is by whole segments: `/var/memory.bak/foo`
    /// and `/mntfoo/bar` are not memory paths.
    pub fn is_memory_path_str(path: &str) -> (r: bool)
        ensures
            r == is_memory_path(path@),
    {
        is_under(path, "/var/memory") || is_under(path, "/mnt")
    }
}

impl MemoryPathError {
    /// What the error says.
    pub open spec fn message(self) -> Seq<char> {
        match self {
            MemoryPathError::Empty => "memory path is empty"@,
            MemoryPathError::InvalidPrefix => "memory path must start with /var/memory/ or /mnt/"@,
            MemoryPathError::ParentSegment => "memory path contains '..' segment (parent traversal not allowed)"@,
            MemoryPathError::NullByte => "memory path contains null byte"@,
            MemoryPathError::ControlChar(c) => "memory path contains control character: U+"@ + hex(c as nat, 4),
            MemoryPathError::SegmentTooLong(n) => "path segment too long: max 255 bytes, got "@ + decimal(n as nat),
            MemoryPathError::PathTooLong(n) => "memory path too long: max 1024 bytes, got "@ + decimal(n as nat),
            MemoryPathError::EmptySegment => "memory path contains empty segment (consecutive slashes)"@,
        }
    }

    /// What the error says.
    pub fn to_string(&self) -> (r: String)
        ensures
            r@ == self.message(),
    {
        match self {
            MemoryPathError::Empty => copy("memory path is empty"),
            MemoryPathError::InvalidPrefix => copy("memory path must start with /var/memory/ or /mnt/"),
            MemoryPathError::ParentSegment => copy(
                "memory path contains '..' segment (parent traversal not allowed)",
            ),
            MemoryPathError::NullByte => copy("memory path contains null byte"),
            MemoryPathError::ControlChar(c) => concat(
                "memory path contains control character: U+",
                hex_number(*c, 4).as_str(),
            ),
            MemoryPathError::SegmentTooLong(n) => concat(
                "path segment too long: max 255 bytes, got ",
                number(*n as u64).as_str(),
            ),
            MemoryPathError::PathTooLong(n) => concat(
                "memory path too long: max 1024 bytes, got ",
                number(*n as u64).as_str(),
            ),
            MemoryPathError::EmptySegment => copy(
                "memory path contains empty segment (consecutive slashes)",
            ),
        }
    }
}

/// Monotonic per-path version. Bumped on every put and delete (tombstone).
#[derive(Debug, Clone, Copy, PartialEq, Eq, PartialOrd, Ord, Hash)]
pub struct MemoryVersion(pub u64);

impl View for MemoryVersion {
    type V = u64;

    open spec fn view(&self) -> u64 {
        self.0
    }
}

impl MemoryVersion {
    /// The version of a path that was never written.
    pub fn zero() -> (r: MemoryVersion)
        ensures
            r.0 == 0,
    {
        MemoryVersion(0)
    }

    /// The number of the version.
    pub fn to_string(&self) -> (r: String)
        ensures
            r@ == decimal(self.0 as nat),
    {
        number(self.0)
    }
}

/// Opaque, unguessable token of a search hit.
#[derive(Debug, Clone, PartialEq, Eq, Hash)]
pub struct HitId(pub String);

impl View for HitId {
    type V = Seq<char>;

    open spec fn view(&self) -> Seq<char> {
        self.0@
    }
}

impl HitId {
    /// The token.
    pub fn to_string(&self) -> (r: String)
        ensures
            r@ == self.0@,
    {
        self.0.clone()
    }
}

/// Source-type-aware coordinates of a chunk. Different source types need
/// different addressing: raw byte ranges are wrong for PDF (binary), HTML
/// (stripped before chunking), or JSONL (lines, not bytes).
#[derive(Debug, Clone, PartialEq, Eq)]
pub enum Locator {
    /// Plain text or Markdown: a byte range of the source file.
    Text { byte_start: usize, byte_end: usize },
    /// PDF: page number (from 1) and paragraph within the page.
    PdfPage { page: u32, paragraph: u32 },
    /// HTML: DOM path (CSS selector) and byte range within the extracted text.
    HtmlSelector { selector: String, text_start: usize, text_end: usize },
    /// JSONL or NDJSON: line number (from 0).
    JsonlLine { line: u64 },
    /// A locator that only the source format understands.
    Opaque { format: String, payload: String },
}

/// Memory capability of a token. Default: disabled. Memory access is opt-in per
/// agent type.
#[derive(Debug, PartialEq, Eq)]
pub struct MemoryCapability {
    /// If false, no memory path can be read or written.
    pub enabled: bool,
    /// Prefixes the agent can search.
    pub search_scopes: Vec<MemoryPath>,
    /// Prefixes the agent can write to.
    pub write_scopes: Vec<MemoryPath>,
}

/// What a memory capability grants.
#[verifier::ext_equal]
pub struct MemoryCapabilityView {
    pub enabled: bool,
    pub search_scopes: Seq<Seq<char>>,
    pub write_scopes: Seq<Seq<char>>,
}

impl View for MemoryCapability {
    type V = MemoryCapabilityView;

    open spec fn view(&self) -> MemoryCapabilityView {
        MemoryCapabilityView {
            enabled: self.enabled,
            search_scopes: texts(self.search_scopes@),
            write_scopes: texts(self.write_scopes@),
        }
    }
}

/// `path` is at or under one of the scopes.
pub open spec fn in_scope(path: Seq<char>, scopes: Seq<Seq<char>>) -> bool {
    exists|i: int| 0 <= i < scopes.len() && under(path, #[trigger] scopes[i])
}

/// Whether the path is at or under one of the scopes.
pub fn within_scopes(path: &MemoryPath, scopes: &Vec<MemoryPath>) -> (r: bool)
    ensures
        r == in_scope(path@, texts(scopes@)),
{
    let mut i: usize = 0;
    while i < scopes.len()
        invariant
            i <= scopes@.len(),
            forall|j: int| 0 <= j < i ==> !under(path@, #[trigger] texts(scopes@)[j]),
        decreases scopes@.len() - i,
    {
        if path.starts_with_prefix(&scopes[i]) {
            assert(under(path@, texts(scopes@)[i as int]));
            return true;
        }
        i = i + 1;
    }
    false
}

impl MemoryCapability {
    /// True if the given path is inside any `search_scopes` entry.
    pub fn can_read(&self, path: &MemoryPath) -> (r: bool)
        ensures
            r == (self.enabled && in_scope(path@, self@.search_scopes)),
    {
        self.enabled && within_scopes(path, &self.search_scopes)
    }

    /// True if the given path is inside any `write_scopes` entry.
    pub fn can_write(&self, path: &MemoryPath) -> (r: bool)
        ensures
            r == (self.enabled && in_scope(path@, self@.write_scopes)),
    {
        self.enabled && within_scopes(path, &self.write_scopes)
    }
}

impl Clone for MemoryCapability {
    fn clone(&self) -> (r: Self)
        ensures
            r@ == self@,
    {
        MemoryCapability {
            enabled: self.enabled,
            search_scopes: copy_all(&self.search_scopes),
            write_scopes: copy_all(&self.write_scopes),
        }
    }
}

impl Default for MemoryCapability {
    fn default() -> (r: Self)
        ensures
            !r.enabled,
            r.search_scopes@.len() == 0,
            r.write_scopes@.len() == 0,
    {
        MemoryCapability { enabled: false, search_scopes: Vec::new(), write_scopes: Vec::new() }
    }
}

/// A control character early in a text is the first one of the whole text.
proof fn lemma_first_control_prefix(s: Seq<char>, n: int)
    requires
        0 <= n <= s.len(),
        first_control(s.take(n)) is Some,
    ensures
        first_control(s) == first_control(s.take(n)),
    decreases s.len() - n,
{
    if n == s.len() {
        assert(s.take(n) =~= s);
    } else {
        assert(s.take(n + 1).drop_last() =~= s.take(n));
        lemma_first_control_prefix(s, n + 1);
    }
}

/// The error of a segment is the error of the whole, where none came earlier.
proof fn lemma_memory_names_prefix(all: Seq<Seq<char>>, n: int)
    requires
        0 <= n <= all.len(),
        memory_names(all.take(n)) is Err,
    ensures
        memory_names(all) == memory_names(all.take(n)),
    decreases all.len() - n,
{
    if n == all.len() {
        assert(all.take(n) =~= all);
    } else {
        assert(all.take(n + 1).drop_last() =~= all.take(n));
        lemma_memory_names_prefix(all, n + 1);
    }
}

/// No control character anywhere.
pub open spec fn control_free(s: Seq<char>) -> bool {
    forall|i: int| 0 <= i < s.len() ==> !is_control(#[trigger] s[i])
}

proof fn lemma_control_free(s: Seq<char>)
    ensures
        control_free(s) == (first_control(s) is None),
    decreases s.len(),
{
    if s.len() > 0 {
        lemma_control_free(s.drop_last());
        if control_free(s.drop_last()) && !is_control(s.last()) {
            assert forall|i: int| 0 <= i < s.len() implies !is_control(#[trigger] s[i]) by {
                if i < s.len() - 1 {
                    assert(s.drop_last()[i] == s[i]);
                }
            }
        } else if control_free(s) {
            assert forall|i: int| 0 <= i < s.drop_last().len() implies !is_control(#[trigger] s.drop_last()[i]) by {
                assert(s[i] == s.drop_last()[i]);
            }
        }
    }
}

/// Every piece of a text without control characters is without them.
proof fn lemma_pieces_control_free(s: Seq<char>)
    requires
        control_free(s),
    ensures
        forall|i: int| 0 <= i < split_at_char(s, '/').len() ==> control_free(#[trigger] split_at_char(s, '/')[i]),
    decreases s.len(),
{
    if s.len() > 0 {
        let init = s.drop_last();
        assert forall|i: int| 0 <= i < init.len() implies !is_control(#[trigger] init[i]) by {
            assert(s[i] == init[i]);
        }
        lemma_pieces_control_free(init);
        lemma_split_pieces(init, '/');
        let b = split_at_char(init, '/');
        assert(control_free(b.last()));
        assert(!is_control(s.last()));
    }
}

/// A path of names without control characters is without them.
proof fn lemma_join_control_free(names: Seq<Seq<char>>)
    requires
        forall|i: int| 0 <= i < names.len() ==> control_free(#[trigger] names[i]),
    ensures
        control_free(join_with(names, '/')),
    decreases names.len(),
{
    if names.len() > 1 {
        let init = names.drop_last();
        assert forall|i: int| 0 <= i < init.len() implies control_free(#[trigger] init[i]) by {
            assert(names[i] == init[i]);
        }
        lemma_join_control_free(init);
        assert(control_free(names.last()));
    }
}

/// The bytes of the segments, with one byte for a slash before each.
pub open spec fn segment_bytes(segments: Seq<Seq<char>>) -> nat
    decreases segments.len(),
{
    if segments.len() == 0 {
        0
    } else {
        segment_bytes(segments.drop_last()) + utf8_len(segments.last()) + 1
    }
}

proof fn lemma_utf8_len_push(s: Seq<char>, c: char)
    ensures
        utf8_len(s.push(c)) == utf8_len(s) + utf8_len(seq![c]),
        utf8_len(seq![c]) >= 1,
        c == '/' ==> utf8_len(seq![c]) == 1,
{
    lemma_utf8_len_concat(s, seq![c]);
    assert(s + seq![c] =~= s.push(c));
    reveal_with_fuel(vstd::utf8::encode_utf8, 2);
    assert(seq![c].drop_first() =~= Seq::<char>::empty());
}

/// The bytes of a text are those of its pieces and the slashes between them.
proof fn lemma_split_bytes(s: Seq<char>)
    ensures
        segment_bytes(split_at_char(s, '/')) == utf8_len(s) + 1,
    decreases s.len(),
{
    let p = split_at_char(s, '/');
    if s.len() == 0 {
        reveal_with_fuel(segment_bytes, 2);
        assert(p.drop_last() =~= Seq::<Seq<char>>::empty());
    } else {
        let init = s.drop_last();
        lemma_split_bytes(init);
        lemma_split_pieces(init, '/');
        let b = split_at_char(init, '/');
        assert(init.push(s.last()) =~= s);
        lemma_utf8_len_push(init, s.last());
        if s.last() == '/' {
            assert(p.drop_last() =~= b);
        } else {
            assert(p.drop_last() =~= b.drop_last());
            lemma_utf8_len_push(b.last(), s.last());
        }
    }
}

/// What the names of accepted segments are.
proof fn lemma_memory_names(segments: Seq<Seq<char>>)
    requires
        memory_names(segments) is Ok,
        forall|i: int| 0 <= i < segments.len() ==> !(#[trigger] segments[i]).contains('/'),
        forall|i: int| 0 <= i < segments.len() ==> control_free(#[trigger] segments[i]),
    ensures
        ({
            let names = memory_names(segments)->Ok_0;
            &&& all_names(names)
            &&& forall|i: int| 0 <= i < names.len() ==> control_free(#[trigger] names[i])
            &&& segment_bytes(names) <= segment_bytes(segments)
            &&& memory_names(names) == Ok::<Seq<Seq<char>>, MemoryPathError>(names)
            &&& forall|k: int|
                0 <= k <= segments.len() && all_names(#[trigger] segments.take(k)) ==> names.len() >= k
                    && names.take(k) == segments.take(k)
        }),
    decreases segments.len(),
{
    let names = memory_names(segments)->Ok_0;
    if segments.len() > 0 {
        let init = segments.drop_last();
        assert forall|i: int| 0 <= i < init.len() implies !(#[trigger] init[i]).contains('/') && control_free(init[i]) by {
            assert(segments[i] == init[i]);
        }
        lemma_memory_names(init);
        let before = memory_names(init)->Ok_0;
        assert(!segments.last().contains('/') && control_free(segments.last()));
        if segments.last() != dot() {
            assert(names.drop_last() =~= before);
            assert(names.last() == segments.last());
        }
        assert forall|k: int| 0 <= k <= segments.len() && all_names(#[trigger] segments.take(k)) implies names.len() >= k
            && names.take(k) == segments.take(k) by {
            let k0 = if k == segments.len() { k - 1 } else { k };
            assert(init.take(k0) =~= segments.take(k0));
            assert forall|i: int| 0 <= i < k0 implies is_name(#[trigger] segments.take(k0)[i]) by {
                assert(segments.take(k)[i] == segments.take(k0)[i]);
            }
            assert(before.len() >= k0 && before.take(k0) == init.take(k0));
            if k == segments.len() {
                assert(is_name(segments.take(k)[k - 1]));
                assert(segments.take(k)[k - 1] == segments.last());
                assert(before.len() >= k - 1);
                assert(names.len() == before.len() + 1);
                lemma_names_not_more(init);
                assert(names.take(k) =~= segments.take(k));
            } else {
                assert(names.take(k) =~= before.take(k));
            }
        }
    } else {
        assert forall|k: int| 0 <= k <= segments.len() && all_names(#[trigger] segments.take(k)) implies names.len() >= k
            && names.take(k) == segments.take(k) by {
            assert(names.take(k) =~= segments.take(k));
        }
    }
}

proof fn lemma_names_not_more(segments: Seq<Seq<char>>)
    requires
        memory_names(segments) is Ok,
    ensures
        memory_names(segments)->Ok_0.len() <= segments.len(),
    decreases segments.len(),
{
    if segments.len() > 0 {
        lemma_names_not_more(segments.drop_last());
    }
}

/// Trimming keeps a path under a prefix that does not end in a slash, and does
/// not make it longer.
proof fn lemma_trim_under(s: Seq<char>, prefix: Seq<char>)
    requires
        under(s, prefix),
        prefix.len() > 0,
        prefix.last() != '/',
    ensures
        under(trim_slashes(s), prefix),
        utf8_len(trim_slashes(s)) <= utf8_len(s),
        control_free(s) ==> control_free(trim_slashes(s)),
    decreases s.len(),
{
    if s.last() == '/' {
        let init = s.drop_last();
        assert(init.push('/') =~= s);
        lemma_utf8_len_push(init, '/');
        if s.len() == prefix.len() + 1 {
            assert(s =~= prefix.push('/'));
            assert(init =~= prefix);
        } else {
            assert(prefix.push('/').is_prefix_of(init));
        }
        lemma_trim_under(init, prefix);
        if control_free(s) {
            assert forall|i: int| 0 <= i < init.len() implies !is_control(#[trigger] init[i]) by {
                assert(s[i] == init[i]);
            }
        }
    }
}

/// The canonical form of a path under `/mnt` lies under `/mnt`.
pub proof fn lemma_parsed_under_mnt(s: Seq<char>)
    requires
        parsed_memory_path(s) is Ok,
        under(s, "/mnt"@),
    ensures
        under(parsed_memory_path(s)->Ok_0, "/mnt"@),
{
    lemma_control_free(s);
    lemma_memory_segments(s);
    let all = split_at_char(trim_slashes(s), '/').skip(1);
    let names = memory_names(all)->Ok_0;
    let roots = root_names(s);
    lemma_root_names(s);
    lemma_memory_names(all);
    assert(all_names(all.take(roots.len() as int)));
    assert(names.take(roots.len() as int) == roots);
    lemma_rooted_under(names, roots.len() as int);
    reveal_strlit("/mnt");
    reveal_strlit("/var/memory");
    assert("/mnt"@.len() == 4 && "/var/memory"@.len() == 11);
    assert(rooted(roots).len() == 4) by {
        reveal_strlit("mnt");
        reveal_with_fuel(join_with, 2);
    }
}

/// The names of the root that a memory path lies under.
spec fn root_names(s: Seq<char>) -> Seq<Seq<char>> {
    if under(s, "/mnt"@) {
        seq!["mnt"@]
    } else {
        seq!["var"@, "memory"@]
    }
}

proof fn lemma_root_names(s: Seq<char>)
    requires
        is_memory_path(s),
    ensures
        all_names(root_names(s)),
        under(s, rooted(root_names(s))),
        rooted(root_names(s)).len() > 0,
        rooted(root_names(s)).last() != '/',
        rooted(root_names(s)) == "/mnt"@ || rooted(root_names(s)) == "/var/memory"@,
{
    reveal_strlit("/mnt");
    reveal_strlit("/var/memory");
    reveal_strlit("mnt");
    reveal_strlit("var");
    reveal_strlit("memory");
    let roots = root_names(s);
    assert(rooted(roots) =~= if under(s, "/mnt"@) {
        "/mnt"@
    } else {
        "/var/memory"@
    }) by {
        reveal_with_fuel(join_with, 3);
        assert(seq!["var"@, "memory"@].drop_last() =~= seq!["var"@]);
    }
    assert(!("mnt"@).contains('/'));
    assert(!("var"@).contains('/'));
    assert(!("memory"@).contains('/'));
    assert forall|i: int| 0 <= i < roots.len() implies is_name(#[trigger] roots[i]) by {}
}

/// The segments of an accepted path: an empty one, the names of its root, and the
/// rest, without slashes and control characters.
proof fn lemma_memory_segments(s: Seq<char>)
    requires
        is_memory_path(s),
        control_free(s),
    ensures
        ({
            let pieces = split_at_char(trim_slashes(s), '/');
            let all = pieces.skip(1);
            &&& pieces == seq![Seq::<char>::empty()] + all
            &&& root_names(s).len() <= all.len()
            &&& all.take(root_names(s).len() as int) == root_names(s)
            &&& forall|i: int| 0 <= i < all.len() ==> !(#[trigger] all[i]).contains('/')
            &&& forall|i: int| 0 <= i < all.len() ==> control_free(#[trigger] all[i])
            &&& segment_bytes(all) <= utf8_len(s)
        }),
{
    let t = trim_slashes(s);
    let pieces = split_at_char(t, '/');
    let all = pieces.skip(1);
    let roots = root_names(s);
    let root = rooted(roots);
    lemma_root_names(s);
    lemma_trim_under(s, root);
    lemma_split_under(t, root);
    lemma_split_rooted(roots);
    let lead = seq![Seq::<char>::empty()] + roots;
    assert(lead == pieces.subrange(0, lead.len() as int));
    assert(pieces[0] == lead[0]);
    assert forall|i: int| 0 <= i < roots.len() implies all.take(roots.len() as int)[i] == roots[i] by {
        assert(lead[i + 1] == pieces[i + 1]);
    }
    assert(all.take(roots.len() as int) =~= roots);
    assert(pieces =~= seq![Seq::<char>::empty()] + all);
    lemma_split_pieces(t, '/');
    lemma_pieces_control_free(t);
    assert forall|i: int| 0 <= i < all.len() implies !(#[trigger] all[i]).contains('/') && control_free(all[i]) by {
        assert(all[i] == pieces[i + 1]);
    }
    lemma_split_bytes(t);
    lemma_segment_bytes_first(all);
}

/// A path of accepted names keeps every rule, and parses to itself.
proof fn lemma_names_parse(names: Seq<Seq<char>>)
    requires
        names.len() > 0,
        all_names(names),
        forall|i: int| 0 <= i < names.len() ==> control_free(#[trigger] names[i]),
        segment_bytes(names) <= 1024,
        memory_names(names) == Ok::<Seq<Seq<char>>, MemoryPathError>(names),
        is_memory_path(rooted(names)),
    ensures
        is_canonical(rooted(names)),
{
    let c = rooted(names);
    lemma_split_rooted(names);
    assert(split_at_char(c, '/').skip(1) =~= names);
    lemma_rooted_last(names);
    lemma_join_control_free(names);
    assert(control_free(c));
    lemma_control_free(c);
    assert forall|i: int| 0 <= i < c.len() implies c[i] != '\0' by {
        assert(!is_control(c[i]));
    }
    lemma_split_bytes(c);
    lemma_segment_bytes_first(names);
}

/// A parsed memory path parses to itself.
pub proof fn parse_is_idempotent(s: Seq<char>)
    requires
        parsed_memory_path(s) is Ok,
    ensures
        parsed_memory_path(parsed_memory_path(s)->Ok_0) == parsed_memory_path(s),
{
    lemma_control_free(s);
    lemma_memory_segments(s);
    let all = split_at_char(trim_slashes(s), '/').skip(1);
    let names = memory_names(all)->Ok_0;
    let roots = root_names(s);
    lemma_root_names(s);
    lemma_memory_names(all);
    assert(all_names(all.take(roots.len() as int)));
    assert(names.take(roots.len() as int) == roots);
    lemma_rooted_under(names, roots.len() as int);
    lemma_names_parse(names);
}

/// A parsed memory path lies in the memory, and its spelling leads nowhere else: it is its
/// own normal form.
pub proof fn memory_paths_stay_inside(s: Seq<char>)
    requires
        parsed_memory_path(s) is Ok,
    ensures
        is_memory_path(parsed_memory_path(s)->Ok_0),
        normalized(parsed_memory_path(s)->Ok_0) == parsed_memory_path(s)->Ok_0,
{
    parse_is_idempotent(s);
    lemma_control_free(s);
    lemma_memory_segments(s);
    let all = split_at_char(trim_slashes(s), '/').skip(1);
    lemma_memory_names(all);
    lemma_components_of_rooted(memory_names(all)->Ok_0);
}

/// A tenant id is one segment of a path, and names neither the directory it stands in nor
/// the one above.
pub proof fn tenant_ids_are_segments(s: Seq<char>)
    requires
        is_tenant_id(s),
    ensures
        is_name(s),
{
    if s.contains('/') {
        let i = choose|i: int| 0 <= i < s.len() && s[i] == '/';
        if i > 0 {
            assert(is_tenant_char(s[i]));
        }
    }
}

proof fn lemma_rooted_last(names: Seq<Seq<char>>)
    requires
        all_names(names),
        names.len() > 0,
    ensures
        trim_slashes(rooted(names)) == rooted(names),
{
    let c = rooted(names);
    let l = names.last();
    assert(is_name(l));
    assert(c.last() == l.last()) by {
        if names.len() == 1 {
            assert(c =~= seq!['/'] + l);
        } else {
            assert(c =~= (seq!['/'] + join_with(names.drop_last(), '/')).push('/') + l);
        }
    }
    assert(l.last() != '/') by {
        assert(l[l.len() - 1] == l.last());
    }
}

proof fn lemma_segment_bytes_first(segments: Seq<Seq<char>>)
    ensures
        segment_bytes(seq![Seq::<char>::empty()] + segments) == segment_bytes(segments) + 1,
    decreases segments.len(),
{
    let e = seq![Seq::<char>::empty()];
    if segments.len() == 0 {
        assert(e + segments =~= e);
        assert(e.drop_last() =~= Seq::<Seq<char>>::empty());
        reveal_with_fuel(segment_bytes, 2);
    } else {
        assert((e + segments).drop_last() =~= e + segments.drop_last());
        assert((e + segments).last() == segments.last());
        lemma_segment_bytes_first(segments.drop_last());
    }
}

} // verus!
