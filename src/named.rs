//! A resource served under conditional-request and byte-range rules.
use vstd::prelude::*;
use crate::http::{
    Body, BodyView, ContentEncoding, EntityTag, EntityTagView, HttpRequest, HttpResponse,
    HttpResponseView, Method, ResponseHeaders, ResponseHeadersView, TagCondition, empty_headers,
    strong_match, tags_view, weak_match,
};
use crate::range::{HttpRange, lemma_parsed_ranges_valid, parse_ranges, valid_range};
use crate::text::{decimal, hex, push_all, push_decimal, push_hex};
use crate::words::{
    allow_get_head, allow_get_head_bytes, attachment_word, attachment_word_bytes, bytes_unit,
    bytes_unit_bytes, filename_param, filename_param_bytes, image_word, image_word_bytes,
    inline_word, inline_word_bytes, method_not_allowed_text, method_not_allowed_text_bytes,
    text_plain, text_plain_bytes, text_word, text_word_bytes, unsatisfied_range_prefix,
    unsatisfied_range_prefix_bytes, video_word, video_word_bytes, colon_sep, colon_sep_bytes,
};

verus! {

/// Modification time: seconds since the Unix epoch and the sub-second nanoseconds.
#[derive(Clone, Copy, Debug, PartialEq, Eq, Structural)]
pub struct FileTime {
    pub secs: u64,
    pub nanos: u32,
}

/// What the file system reports of an opened file.
#[derive(Clone, Copy, Debug, PartialEq, Eq, Structural)]
pub struct FileMetadata {
    pub len: u64,
    /// Platform identity token (the inode number), 0 where there is none.
    pub ino: u64,
    pub modified: Option<FileTime>,
}

/// `inline` or `attachment`.
#[derive(Clone, Copy, Debug, PartialEq, Eq, Structural)]
pub enum DispositionType {
    Inline,
    Attachment,
}

/// How the disposition is chosen when the file is opened.
#[derive(Clone, Copy, Debug, PartialEq, Eq, Structural)]
pub enum DispositionPolicy {
    /// `inline` for text, image and video types, `attachment` otherwise.
    ByMediaType,
    AlwaysInline,
    AlwaysAttachment,
}

/// `Content-Disposition` value: a disposition and an optional file name.
#[derive(Clone, Debug)]
pub struct ContentDisposition {
    pub disposition: DispositionType,
    pub filename: Option<Vec<u8>>,
}

/// Responder configuration.
#[derive(Clone, Debug)]
pub struct FileConfig {
    pub use_etag: bool,
    pub use_last_modified: bool,
    pub allowed_methods: Vec<Method>,
    pub disposition: DispositionPolicy,
}

/// A resource with its name-derived headers and metadata.
pub struct NamedFile {
    path: Vec<u8>,
    md: FileMetadata,
    content_type: Vec<u8>,
    content_disposition: ContentDisposition,
    encoding: Option<ContentEncoding>,
    status_code: u16,
    config: FileConfig,
}

/// Model of a [`NamedFile`].
pub struct NamedFileView {
    pub path: Seq<u8>,
    pub md: FileMetadata,
    pub content_type: Seq<u8>,
    pub disposition: DispositionType,
    pub filename: Option<Seq<u8>>,
    pub encoding: Option<ContentEncoding>,
    pub status_code: u16,
    pub use_etag: bool,
    pub use_last_modified: bool,
    pub allowed_methods: Seq<Method>,
    pub policy: DispositionPolicy,
}

impl View for NamedFile {
    type V = NamedFileView;

    closed spec fn view(&self) -> NamedFileView {
        NamedFileView {
            path: self.path@,
            md: self.md,
            content_type: self.content_type@,
            disposition: self.content_disposition.disposition,
            filename: match self.content_disposition.filename {
                Some(f) => Some(f@),
                None => None,
            },
            encoding: self.encoding,
            status_code: self.status_code,
            use_etag: self.config.use_etag,
            use_last_modified: self.config.use_last_modified,
            allowed_methods: self.config.allowed_methods@,
            policy: self.config.disposition,
        }
    }
}

/// Errors of opening a resource.
#[derive(Clone, Copy, Debug, PartialEq, Eq, Structural)]
pub enum FileError {
    /// The path names no file ("Provided path has no filename").
    NoFileName,
}

/// Name for what `mime_guess` guesses from a path: a media type such as `text/plain`.
pub uninterp spec fn mime_for_path(path: Seq<u8>) -> Seq<u8>;

/// Relies on `mime_guess::guess_mime_type`: the media type registered for the path's
/// extension, `application/octet-stream` when none is; it reads no file.
#[verifier::external_body]
#[allow(deprecated)]
fn guess_mime(path: &[u8]) -> (r: Vec<u8>)
    ensures
        r@ == mime_for_path(path@),
{
    let p = String::from_utf8_lossy(path);
    mime_guess::guess_mime_type(p.as_ref()).to_string().into_bytes()
}

/// Index just past the last component of `s[0..j)`, skipping trailing slashes.
pub open spec fn trim_slashes(s: Seq<u8>, j: int) -> int
    decreases j,
{
    if j <= 0 {
        0
    } else if s[j - 1] == 47 {
        trim_slashes(s, j - 1)
    } else {
        j
    }
}

/// Start of the component that ends at `j`.
pub open spec fn component_start(s: Seq<u8>, j: int) -> int
    decreases j,
{
    if j <= 0 {
        0
    } else if s[j - 1] == 47 {
        j
    } else {
        component_start(s, j - 1)
    }
}

pub proof fn lemma_component_bounds(s: Seq<u8>, j: int)
    ensures
        0 <= j ==> 0 <= component_start(s, j) <= j,
        0 <= j ==> 0 <= trim_slashes(s, j) <= j,
    decreases j,
{
    if j > 0 {
        lemma_component_bounds(s, j - 1);
    }
}

/// Last name of the path in `s[0..j)`: `.` components are skipped; none when the
/// path is empty, a root, or ends in `..`.
pub open spec fn file_name_before(s: Seq<u8>, j: int) -> Option<Seq<u8>>
    decreases j,
    via file_name_decreases
{
    let e = trim_slashes(s, j);
    let b = component_start(s, e);
    let c = s.subrange(b, e);
    if j <= 0 || j > s.len() || e <= 0 || e > j || b < 0 || b > e {
        None
    } else if c == seq![46u8] {
        file_name_before(s, b)
    } else if c == seq![46u8, 46u8] {
        None
    } else {
        Some(c)
    }
}

#[via_fn]
proof fn file_name_decreases(s: Seq<u8>, j: int) {
    lemma_component_bounds(s, j);
    lemma_component_bounds(s, trim_slashes(s, j));
    let e = trim_slashes(s, j);
    let b = component_start(s, e);
    if 0 < j <= s.len() && 0 < e <= j && 0 <= b <= e && s.subrange(b, e) == seq![46u8] {
        assert(s.subrange(b, e).len() == 1);
    }
}

/// File name of a path.
pub open spec fn file_name(path: Seq<u8>) -> Option<Seq<u8>> {
    file_name_before(path, path.len() as int)
}

/// Media type up to the `/`.
pub open spec fn top_level_type(ct: Seq<u8>) -> Seq<u8> {
    ct.subrange(0, crate::range::find_from(ct, 0, 47, ct.len() as int))
}

pub open spec fn is_inline_type(t: Seq<u8>) -> bool {
    t == text_word() || t == image_word() || t == video_word()
}

pub open spec fn disposition_for(policy: DispositionPolicy, ct: Seq<u8>) -> DispositionType {
    match policy {
        DispositionPolicy::AlwaysInline => DispositionType::Inline,
        DispositionPolicy::AlwaysAttachment => DispositionType::Attachment,
        DispositionPolicy::ByMediaType => if is_inline_type(top_level_type(ct)) {
            DispositionType::Inline
        } else {
            DispositionType::Attachment
        },
    }
}

/// `inline` or `attachment`.
pub open spec fn disposition_word(d: DispositionType) -> Seq<u8> {
    match d {
        DispositionType::Inline => inline_word(),
        DispositionType::Attachment => attachment_word(),
    }
}

/// Quoted-string body: `"` and `\` are escaped with a backslash.
pub open spec fn escape_quoted(s: Seq<u8>) -> Seq<u8>
    decreases s.len(),
{
    if s.len() == 0 {
        Seq::empty()
    } else {
        let c = s.last();
        escape_quoted(s.drop_last()) + if c == 34 || c == 92 {
            seq![92u8, c]
        } else {
            seq![c]
        }
    }
}

/// `Content-Disposition` header text, e.g. `inline; filename="a.txt"`.
pub open spec fn disposition_text(d: DispositionType, filename: Option<Seq<u8>>) -> Seq<u8> {
    match filename {
        Some(f) => disposition_word(d) + filename_param() + escape_quoted(f) + seq![34u8],
        None => disposition_word(d),
    }
}

fn push_escaped(out: &mut Vec<u8>, s: &[u8])
    ensures
        final(out)@ == old(out)@ + escape_quoted(s@),
{
    let mut i: usize = 0;
    while i < s.len()
        invariant
            i <= s@.len(),
            out@ == old(out)@ + escape_quoted(s@.subrange(0, i as int)),
        decreases s@.len() - i,
    {
        let c = s[i];
        proof {
            let t = s@.subrange(0, i + 1);
            assert(t.drop_last() =~= s@.subrange(0, i as int));
            assert(t.last() == c);
        }
        if c == 34 || c == 92 {
            out.push(92);
        }
        out.push(c);
        i = i + 1;
        proof {
            let t = s@.subrange(0, i as int);
            if c == 34 || c == 92 {
                assert(out@ =~= old(out)@ + escape_quoted(t.drop_last()) + seq![92u8, c]);
            } else {
                assert(out@ =~= old(out)@ + escape_quoted(t.drop_last()) + seq![c]);
            }
        }
    }
    proof {
        assert(s@.subrange(0, s@.len() as int) =~= s@);
    }
}

impl ContentDisposition {
    /// Header text of this disposition.
    pub fn render(&self) -> (r: Vec<u8>)
        ensures
            r@ == disposition_text(
                self.disposition,
                match self.filename {
                    Some(f) => Some(f@),
                    None => None,
                },
            ),
    {
        let mut out = match self.disposition {
            DispositionType::Inline => inline_word_bytes(),
            DispositionType::Attachment => attachment_word_bytes(),
        };
        match &self.filename {
            Some(f) => {
                let p = filename_param_bytes();
                push_all(&mut out, p.as_slice());
                push_escaped(&mut out, f.as_slice());
                out.push(34);
            },
            None => {},
        }
        out
    }
}

fn trim_slashes_exec(s: &[u8], j: usize) -> (r: usize)
    requires
        j <= s@.len(),
    ensures
        r == trim_slashes(s@, j as int),
{
    let mut k = j;
    while k > 0
        invariant
            k <= j <= s@.len(),
            trim_slashes(s@, j as int) == trim_slashes(s@, k as int),
        decreases k,
    {
        if s[k - 1] != 47 {
            return k;
        }
        k = k - 1;
    }
    k
}

fn component_start_exec(s: &[u8], j: usize) -> (r: usize)
    requires
        j <= s@.len(),
    ensures
        r == component_start(s@, j as int),
{
    let mut k = j;
    while k > 0
        invariant
            k <= j <= s@.len(),
            component_start(s@, j as int) == component_start(s@, k as int),
        decreases k,
    {
        if s[k - 1] == 47 {
            return k;
        }
        k = k - 1;
    }
    k
}

fn copy_range(s: &[u8], b: usize, e: usize) -> (r: Vec<u8>)
    requires
        b <= e <= s@.len(),
    ensures
        r@ == s@.subrange(b as int, e as int),
{
    let mut r: Vec<u8> = Vec::new();
    let mut i = b;
    while i < e
        invariant
            b <= i <= e <= s@.len(),
            r@ == s@.subrange(b as int, i as int),
        decreases e - i,
    {
        r.push(s[i]);
        i = i + 1;
        proof {
            assert(r@ =~= s@.subrange(b as int, i as int));
        }
    }
    r
}

/// Last name of a path, as [`file_name`] states it.
pub fn path_file_name(path: &[u8]) -> (r: Option<Vec<u8>>)
    ensures
        match file_name(path@) {
            Some(n) => r matches Some(v) && v@ == n,
            None => r is None,
        },
{
    let mut j = path.len();
    loop
        invariant
            j <= path@.len(),
            file_name(path@) == file_name_before(path@, j as int),
        decreases j,
    {
        proof {
            lemma_component_bounds(path@, j as int);
            lemma_component_bounds(path@, trim_slashes(path@, j as int));
        }
        let e = trim_slashes_exec(path, j);
        let b = component_start_exec(path, e);
        if j == 0 || e == 0 {
            return None;
        }
        if e - b == 1 && path[b] == 46 {
            proof {
                assert(path@.subrange(b as int, e as int) =~= seq![46u8]);
            }
            j = b;
        } else if e - b == 2 && path[b] == 46 && path[b + 1] == 46 {
            proof {
                assert(path@.subrange(b as int, e as int) =~= seq![46u8, 46u8]);
            }
            return None;
        } else {
            proof {
                let c = path@.subrange(b as int, e as int);
                if c == seq![46u8] {
                    assert(c.len() == 1 && c[0] == 46);
                }
                if c == seq![46u8, 46u8] {
                    assert(c.len() == 2 && c[0] == 46 && c[1] == 46);
                }
            }
            return Some(copy_range(path, b, e));
        }
    }
}

fn is_inline_type_exec(ct: &[u8]) -> (r: bool)
    ensures
        r == is_inline_type(top_level_type(ct@)),
{
    let slash = find_slash(ct);
    let t = copy_range(ct, 0, slash);
    let a = text_word_bytes();
    let b = image_word_bytes();
    let c = video_word_bytes();
    crate::text::bytes_eq(t.as_slice(), a.as_slice()) || crate::text::bytes_eq(
        t.as_slice(),
        b.as_slice(),
    ) || crate::text::bytes_eq(t.as_slice(), c.as_slice())
}

fn find_slash(ct: &[u8]) -> (r: usize)
    ensures
        r == crate::range::find_from(ct@, 0, 47, ct@.len() as int),
        r <= ct@.len(),
{
    let mut j: usize = 0;
    while j < ct.len()
        invariant
            j <= ct@.len(),
            crate::range::find_from(ct@, 0, 47, ct@.len() as int) == crate::range::find_from(
                ct@,
                j as int,
                47,
                ct@.len() as int,
            ),
        decreases ct@.len() - j,
    {
        if ct[j] == 47 {
            return j;
        }
        j = j + 1;
    }
    j
}

impl FileConfig {
    /// ETag and Last-Modified validators on, GET and HEAD allowed, disposition by
    /// media type.
    pub fn new() -> (r: FileConfig)
        ensures
            r.use_etag,
            r.use_last_modified,
            r.allowed_methods@ == seq![Method::Get, Method::Head],
            r.disposition == DispositionPolicy::ByMediaType,
    {
        let allowed_methods = vec![Method::Get, Method::Head];
        proof {
            assert(allowed_methods@ =~= seq![Method::Get, Method::Head]);
        }
        FileConfig {
            use_etag: true,
            use_last_modified: true,
            allowed_methods,
            disposition: DispositionPolicy::ByMediaType,
        }
    }

    /// Whether requests with `m` are served.
    pub fn is_method_allowed(&self, m: Method) -> (r: bool)
        ensures
            r == self.allowed_methods@.contains(m),
    {
        let mut i: usize = 0;
        while i < self.allowed_methods.len()
            invariant
                i <= self.allowed_methods@.len(),
                forall|k: int| 0 <= k < i ==> self.allowed_methods@[k] != m,
            decreases self.allowed_methods@.len() - i,
        {
            if self.allowed_methods[i] == m {
                return true;
            }
            i = i + 1;
        }
        false
    }
}

/// Model of a freshly opened resource at `path`, or `None` when the path names no file.
pub open spec fn opened(path: Seq<u8>, md: FileMetadata, config: FileConfig) -> Option<NamedFileView> {
    match file_name(path) {
        None => None,
        Some(name) => Some(
            NamedFileView {
                path,
                md,
                content_type: mime_for_path(path),
                disposition: disposition_for(config.disposition, mime_for_path(path)),
                filename: Some(name),
                encoding: None,
                status_code: 200,
                use_etag: config.use_etag,
                use_last_modified: config.use_last_modified,
                allowed_methods: config.allowed_methods@,
                policy: config.disposition,
            },
        ),
    }
}

/// Strong validator of a file: `ino:len:secs:nanos` in lower-case hexadecimal.
pub open spec fn file_etag(md: FileMetadata) -> Option<EntityTagView> {
    match md.modified {
        None => None,
        Some(t) => Some(
            EntityTagView {
                weak: false,
                tag: hex(md.ino as nat) + colon_sep() + hex(md.len as nat) + colon_sep() + hex(
                    t.secs as nat,
                ) + colon_sep() + hex(t.nanos as nat),
            },
        ),
    }
}

/// Last-Modified of a file, truncated to seconds.
pub open spec fn file_last_modified(md: FileMetadata) -> Option<nat> {
    match md.modified {
        None => None,
        Some(t) => Some(t.secs as nat),
    }
}

impl NamedFile {
    /// Builds the resource from its path and metadata with the given
    /// configuration; the path supplies the content type and the file name.
    pub fn from_file_with_config(path: Vec<u8>, md: FileMetadata, config: FileConfig) -> (r: Result<
        NamedFile,
        FileError,
    >)
        ensures
            match opened(path@, md, config) {
                Some(v) => r matches Ok(f) && f@ == v,
                None => r == Err::<NamedFile, FileError>(FileError::NoFileName),
            },
    {
        let filename = match path_file_name(path.as_slice()) {
            Some(n) => n,
            None => {
                return Err(FileError::NoFileName);
            },
        };
        let content_type = guess_mime(path.as_slice());
        let disposition = match config.disposition {
            DispositionPolicy::AlwaysInline => DispositionType::Inline,
            DispositionPolicy::AlwaysAttachment => DispositionType::Attachment,
            DispositionPolicy::ByMediaType => if is_inline_type_exec(content_type.as_slice()) {
                DispositionType::Inline
            } else {
                DispositionType::Attachment
            },
        };
        Ok(
            NamedFile {
                path,
                md,
                content_type,
                content_disposition: ContentDisposition { disposition, filename: Some(filename) },
                encoding: None,
                status_code: 200,
                config,
            },
        )
    }

    /// [`NamedFile::from_file_with_config`] with [`FileConfig::new`].
    pub fn from_file(path: Vec<u8>, md: FileMetadata) -> (r: Result<NamedFile, FileError>)
        ensures
            match file_name(path@) {
                Some(name) => r matches Ok(f) && f@ == (NamedFileView {
                    path: path@,
                    md,
                    content_type: mime_for_path(path@),
                    disposition: disposition_for(DispositionPolicy::ByMediaType, mime_for_path(path@)),
                    filename: Some(name),
                    encoding: None,
                    status_code: 200,
                    use_etag: true,
                    use_last_modified: true,
                    allowed_methods: seq![Method::Get, Method::Head],
                    policy: DispositionPolicy::ByMediaType,
                }),
                None => r == Err::<NamedFile, FileError>(FileError::NoFileName),
            },
    {
        NamedFile::from_file_with_config(path, md, FileConfig::new())
    }

    /// The path the resource was opened with.
    pub fn path(&self) -> (r: &[u8])
        ensures
            r@ == self@.path,
    {
        self.path.as_slice()
    }

    /// The file metadata.
    pub fn metadata(&self) -> (r: FileMetadata)
        ensures
            r == self@.md,
    {
        self.md
    }

    /// Sets the response status; anything but 200 is served as-is, without
    /// conditional or range handling.
    pub fn set_status_code(self, status: u16) -> (r: NamedFile)
        ensures
            r@ == (NamedFileView { status_code: status, ..self@ }),
    {
        let mut f = self;
        f.status_code = status;
        f
    }

    /// Sets the media type sent as `Content-Type`.
    pub fn set_content_type(self, mime_type: Vec<u8>) -> (r: NamedFile)
        ensures
            r@ == (NamedFileView { content_type: mime_type@, ..self@ }),
    {
        let mut f = self;
        f.content_type = mime_type;
        f
    }

    /// Sets the `Content-Disposition`.
    pub fn set_content_disposition(self, cd: ContentDisposition) -> (r: NamedFile)
        ensures
            r@ == (NamedFileView {
                disposition: cd.disposition,
                filename: match cd.filename {
                    Some(f) => Some(f@),
                    None => None,
                },
                ..self@
            }),
    {
        let mut f = self;
        f.content_disposition = cd;
        f
    }

    /// Sets the `Content-Encoding` announced with the body.
    pub fn set_content_encoding(self, enc: ContentEncoding) -> (r: NamedFile)
        ensures
            r@ == (NamedFileView { encoding: Some(enc), ..self@ }),
    {
        let mut f = self;
        f.encoding = Some(enc);
        f
    }

    /// Strong validator derived from the identity token, length and modification time.
    pub fn etag(&self) -> (r: Option<EntityTag>)
        ensures
            match file_etag(self@.md) {
                Some(e) => r matches Some(t) && t@ == e,
                None => r is None,
            },
    {
        match self.md.modified {
            None => None,
            Some(t) => {
                let mut tag: Vec<u8> = Vec::new();
                push_hex(&mut tag, self.md.ino);
                let c = colon_sep_bytes();
                push_all(&mut tag, c.as_slice());
                push_hex(&mut tag, self.md.len);
                push_all(&mut tag, c.as_slice());
                push_hex(&mut tag, t.secs);
                push_all(&mut tag, c.as_slice());
                push_hex(&mut tag, t.nanos as u64);
                proof {
                    assert(tag@ =~= hex(self.md.ino as nat) + colon_sep() + hex(self.md.len as nat)
                        + colon_sep() + hex(t.secs as nat) + colon_sep() + hex(t.nanos as nat));
                }
                Some(EntityTag::strong(tag))
            },
        }
    }

    /// Modification time truncated to whole seconds.
    pub fn last_modified(&self) -> (r: Option<u64>)
        ensures
            match file_last_modified(self@.md) {
                Some(t) => r == Some(t as u64),
                None => r is None,
            },
    {
        match self.md.modified {
            None => None,
            Some(t) => Some(t.secs),
        }
    }
}

/// Some tag of the list matches `e` strongly.
pub open spec fn lists_strong_match(items: Seq<EntityTagView>, e: EntityTagView) -> bool {
    exists|i: int| 0 <= i < items.len() && strong_match(#[trigger] items[i], e)
}

/// Some tag of the list matches `e` weakly.
pub open spec fn lists_weak_match(items: Seq<EntityTagView>, e: EntityTagView) -> bool {
    exists|i: int| 0 <= i < items.len() && weak_match(#[trigger] items[i], e)
}

/// `If-Match` is absent, `*`, or lists a tag that strongly matches `etag`.
pub open spec fn any_match_spec(etag: Option<EntityTagView>, cond: Option<TagCondition>) -> bool {
    match cond {
        None => true,
        Some(TagCondition::Any) => true,
        Some(TagCondition::Items(items)) => match etag {
            None => false,
            Some(e) => lists_strong_match(tags_view(items@), e),
        },
    }
}

/// `If-None-Match` is absent, or lists no tag that weakly matches `etag`.
pub open spec fn none_match_spec(etag: Option<EntityTagView>, cond: Option<TagCondition>) -> bool {
    match cond {
        None => true,
        Some(TagCondition::Any) => false,
        Some(TagCondition::Items(items)) => match etag {
            None => true,
            Some(e) => !lists_weak_match(tags_view(items@), e),
        },
    }
}

/// True if `cond` is absent or one of its tags matches `etag` under strong comparison.
pub fn any_match(etag: Option<&EntityTag>, cond: &Option<TagCondition>) -> (r: bool)
    ensures
        r == any_match_spec(
            match etag {
                Some(e) => Some(e@),
                None => None,
            },
            *cond,
        ),
{
    match cond {
        None => true,
        Some(TagCondition::Any) => true,
        Some(TagCondition::Items(items)) => {
            if let Some(e) = etag {
                let mut i: usize = 0;
                while i < items.len()
                    invariant
                        i <= items@.len(),
                        *cond == Some(TagCondition::Items(*items)),
                        etag == Some(e),
                        forall|k: int| 0 <= k < i ==> !strong_match(#[trigger] tags_view(items@)[k], e@),
                    decreases items@.len() - i,
                {
                    if items[i].strong_eq(e) {
                        assert(tags_view(items@)[i as int] == items@[i as int]@);
                        assert(strong_match(tags_view(items@)[i as int], e@));
                        assert(lists_strong_match(tags_view(items@), e@));
                        return true;
                    }
                    i = i + 1;
                }
            }
            false
        },
    }
}

/// True if `cond` is absent or none of its tags matches `etag` under weak comparison.
pub fn none_match(etag: Option<&EntityTag>, cond: &Option<TagCondition>) -> (r: bool)
    ensures
        r == none_match_spec(
            match etag {
                Some(e) => Some(e@),
                None => None,
            },
            *cond,
        ),
{
    match cond {
        None => true,
        Some(TagCondition::Any) => false,
        Some(TagCondition::Items(items)) => {
            if let Some(e) = etag {
                let mut i: usize = 0;
                while i < items.len()
                    invariant
                        i <= items@.len(),
                        *cond == Some(TagCondition::Items(*items)),
                        etag == Some(e),
                        forall|k: int| 0 <= k < i ==> !weak_match(#[trigger] tags_view(items@)[k], e@),
                    decreases items@.len() - i,
                {
                    if items[i].weak_eq(e) {
                        assert(tags_view(items@)[i as int] == items@[i as int]@);
                        assert(weak_match(tags_view(items@)[i as int], e@));
                        assert(lists_weak_match(tags_view(items@), e@));
                        return false;
                    }
                    i = i + 1;
                }
            }
            true
        },
    }
}

/// Validators the responder sends and compares against.
pub open spec fn validator_etag(f: NamedFileView) -> Option<EntityTagView> {
    if f.use_etag {
        file_etag(f.md)
    } else {
        None
    }
}

pub open spec fn validator_last_modified(f: NamedFileView) -> Option<nat> {
    if f.use_last_modified {
        file_last_modified(f.md)
    } else {
        None
    }
}

/// `412`: `If-Match` fails, or the resource changed after `If-Unmodified-Since`.
pub open spec fn precondition_failed(f: NamedFileView, req: HttpRequest) -> bool {
    !any_match_spec(validator_etag(f), req.if_match) || (match (
        validator_last_modified(f),
        req.if_unmodified_since,
    ) {
        (Some(m), Some(since)) => m > since,
        _ => false,
    })
}

/// `304`: `If-None-Match` matches, or, with no `If-None-Match`, the resource has
/// not changed since `If-Modified-Since`.
pub open spec fn not_modified(f: NamedFileView, req: HttpRequest) -> bool {
    !none_match_spec(validator_etag(f), req.if_none_match) || (req.if_none_match is None && match (
        validator_last_modified(f),
        req.if_modified_since,
    ) {
        (Some(m), Some(since)) => m <= since,
        _ => false,
    })
}

/// How the `Range` header bears on the response.
#[derive(Clone, Copy, Debug, PartialEq, Eq, Structural)]
pub enum RangeOutcome {
    /// No `Range` header: the whole resource.
    Whole,
    /// The first range of a satisfiable header.
    Part(HttpRange),
    /// Not text, unparsable, or selecting nothing: `416`.
    Unsatisfiable,
}

/// Header bytes that read as text: visible ASCII and tab.
pub open spec fn visible_ascii(h: Seq<u8>) -> bool {
    forall|k: int| 0 <= k < h.len() ==> (#[trigger] h[k] == 9 || (32 <= h[k] && h[k] <= 126))
}

pub open spec fn range_outcome(range: Option<Seq<u8>>, size: nat) -> RangeOutcome {
    match range {
        None => RangeOutcome::Whole,
        Some(h) => if !visible_ascii(h) {
            RangeOutcome::Unsatisfiable
        } else {
            match parse_ranges(h, size) {
                Err(_) => RangeOutcome::Unsatisfiable,
                Ok(rs) => if rs.len() == 0 {
                    RangeOutcome::Unsatisfiable
                } else {
                    RangeOutcome::Part(rs[0])
                },
            }
        },
    }
}

/// `bytes {start}-{last}/{size}`
pub open spec fn content_range_text(r: HttpRange, size: nat) -> Seq<u8> {
    bytes_unit() + seq![32u8] + decimal(r.start as nat) + seq![45u8] + decimal(
        (r.start + r.length - 1) as nat,
    ) + seq![47u8] + decimal(size)
}

/// `bytes */{size}`
pub open spec fn unsatisfied_range_text(size: nat) -> Seq<u8> {
    unsatisfied_range_prefix() + decimal(size)
}

/// Headers common to every conditional or range response.
pub open spec fn base_headers(f: NamedFileView) -> ResponseHeadersView {
    ResponseHeadersView {
        content_type: Some(f.content_type),
        content_disposition: Some(disposition_text(f.disposition, f.filename)),
        content_encoding: f.encoding,
        last_modified: validator_last_modified(f),
        etag: validator_etag(f),
        accept_ranges: Some(bytes_unit()),
        ..empty_headers()
    }
}

/// Body of a served region: nothing for HEAD.
pub open spec fn region_body(method: Method, offset: nat, length: nat) -> BodyView {
    if method == Method::Head {
        BodyView::Empty
    } else {
        BodyView::File { offset, length }
    }
}

/// The response to `req` for the resource `f`.
pub open spec fn file_response(f: NamedFileView, req: HttpRequest) -> HttpResponseView {
    if f.status_code != 200 {
        HttpResponseView {
            status: f.status_code,
            headers: ResponseHeadersView {
                content_type: Some(f.content_type),
                content_disposition: Some(disposition_text(f.disposition, f.filename)),
                content_encoding: f.encoding,
                ..empty_headers()
            },
            body: region_body(req.method, 0, f.md.len as nat),
        }
    } else if !f.allowed_methods.contains(req.method) {
        HttpResponseView {
            status: 405,
            headers: ResponseHeadersView {
                content_type: Some(text_plain()),
                allow: Some(allow_get_head()),
                ..empty_headers()
            },
            body: BodyView::Bytes(method_not_allowed_text()),
        }
    } else {
        let base = base_headers(f);
        match range_outcome(crate::http::bytes_opt(req.range), f.md.len as nat) {
            RangeOutcome::Unsatisfiable => HttpResponseView {
                status: 416,
                headers: ResponseHeadersView {
                    content_range: Some(unsatisfied_range_text(f.md.len as nat)),
                    ..base
                },
                body: BodyView::Empty,
            },
            outcome => {
                let (offset, length, range_text) = match outcome {
                    RangeOutcome::Part(r) => (
                        r.start as nat,
                        r.length as nat,
                        Some(content_range_text(r, f.md.len as nat)),
                    ),
                    _ => (0nat, f.md.len as nat, None),
                };
                let headers = ResponseHeadersView {
                    content_range: range_text,
                    content_length: Some(length),
                    ..base
                };
                if precondition_failed(f, req) {
                    HttpResponseView {
                        status: 412,
                        headers: ResponseHeadersView { content_length: Some(f.md.len as nat), ..base },
                        body: BodyView::Empty,
                    }
                } else if not_modified(f, req) {
                    HttpResponseView { status: 304, headers, body: BodyView::Empty }
                } else {
                    HttpResponseView {
                        status: if outcome is Part {
                            206
                        } else {
                            200
                        },
                        headers,
                        body: region_body(req.method, offset, length),
                    }
                }
            },
        }
    }
}

/// Whether header bytes read as text.
pub(crate) fn is_visible_ascii(h: &[u8]) -> (r: bool)
    ensures
        r == visible_ascii(h@),
{
    let mut i: usize = 0;
    while i < h.len()
        invariant
            i <= h@.len(),
            forall|k: int| 0 <= k < i ==> (#[trigger] h@[k] == 9 || (32 <= h@[k] && h@[k] <= 126)),
        decreases h@.len() - i,
    {
        let c = h[i];
        if !(c == 9 || (32 <= c && c <= 126)) {
            return false;
        }
        i = i + 1;
    }
    true
}

/// Resolves the `Range` header against a resource of `size` bytes.
pub fn resolve_range(range: &Option<Vec<u8>>, size: u64) -> (r: RangeOutcome)
    ensures
        r == range_outcome(crate::http::bytes_opt(*range), size as nat),
        r matches RangeOutcome::Part(p) ==> valid_range(p, size as nat),
{
    match range {
        None => RangeOutcome::Whole,
        Some(h) => {
            if !is_visible_ascii(h.as_slice()) {
                return RangeOutcome::Unsatisfiable;
            }
            proof {
                lemma_parsed_ranges_valid(h@, size as nat);
            }
            match HttpRange::parse(h.as_slice(), size) {
                Err(_) => RangeOutcome::Unsatisfiable,
                Ok(rs) => {
                    if rs.len() == 0 {
                        RangeOutcome::Unsatisfiable
                    } else {
                        RangeOutcome::Part(rs[0])
                    }
                },
            }
        },
    }
}

fn content_range_bytes(r: HttpRange, size: u64) -> (out: Vec<u8>)
    requires
        valid_range(r, size as nat),
    ensures
        out@ == content_range_text(r, size as nat),
{
    let mut out = bytes_unit_bytes();
    out.push(32);
    push_decimal(&mut out, r.start);
    out.push(45);
    push_decimal(&mut out, r.start + r.length - 1);
    out.push(47);
    push_decimal(&mut out, size);
    proof {
        assert(out@ =~= content_range_text(r, size as nat));
    }
    out
}

impl NamedFile {
    /// Computes the response to `req`: status, headers and the region of the
    /// resource to stream.
    pub fn respond_to(&self, req: &HttpRequest) -> (r: HttpResponse)
        ensures
            r@ == file_response(self@, *req),
    {
        let len = self.md.len;
        let body_all = if req.method == Method::Head {
            Body::Empty
        } else {
            Body::File { offset: 0, length: len }
        };
        let disposition = self.content_disposition.render();
        if self.status_code != 200 {
            let mut headers = ResponseHeaders::none();
            headers.content_type = Some(self.content_type.clone());
            headers.content_disposition = Some(disposition);
            headers.content_encoding = self.encoding;
            let r = HttpResponse { status: self.status_code, headers, body: body_all };
            proof {
                assert(r.headers@ == file_response(self@, *req).headers);
            }
            return r;
        }
        if !self.config.is_method_allowed(req.method) {
            let mut headers = ResponseHeaders::none();
            headers.content_type = Some(text_plain_bytes());
            headers.allow = Some(allow_get_head_bytes());
            let r = HttpResponse {
                status: 405,
                headers,
                body: Body::Bytes(method_not_allowed_text_bytes()),
            };
            proof {
                assert(r.headers@ == file_response(self@, *req).headers);
            }
            return r;
        }
        let etag = if self.config.use_etag {
            self.etag()
        } else {
            None
        };
        let last_modified = if self.config.use_last_modified {
            self.last_modified()
        } else {
            None
        };
        let precondition_failed = if !any_match(etag.as_ref(), &req.if_match) {
            true
        } else {
            match (last_modified, req.if_unmodified_since) {
                (Some(m), Some(since)) => m > since,
                _ => false,
            }
        };
        let not_modified = if !none_match(etag.as_ref(), &req.if_none_match) {
            true
        } else if req.if_none_match.is_some() {
            false
        } else {
            match (last_modified, req.if_modified_since) {
                (Some(m), Some(since)) => m <= since,
                _ => false,
            }
        };
        let mut headers = ResponseHeaders::none();
        headers.content_type = Some(self.content_type.clone());
        headers.content_disposition = Some(disposition);
        headers.content_encoding = self.encoding;
        headers.last_modified = last_modified;
        headers.etag = etag;
        headers.accept_ranges = Some(bytes_unit_bytes());
        let outcome = resolve_range(&req.range, len);
        if precondition_failed && !matches!(outcome, RangeOutcome::Unsatisfiable) {
            headers.content_length = Some(len);
            let r = HttpResponse { status: 412, headers, body: Body::Empty };
            proof {
                assert(r.headers@ == file_response(self@, *req).headers);
            }
            return r;
        }
        let (offset, length) = match outcome {
            RangeOutcome::Unsatisfiable => {
                let mut text = unsatisfied_range_prefix_bytes();
                push_decimal(&mut text, len);
                headers.content_range = Some(text);
                let r = HttpResponse { status: 416, headers, body: Body::Empty };
                proof {
                    assert(r.headers@ == file_response(self@, *req).headers);
                }
                return r;
            },
            RangeOutcome::Part(p) => {
                headers.content_range = Some(content_range_bytes(p, len));
                (p.start, p.length)
            },
            RangeOutcome::Whole => (0, len),
        };
        headers.content_length = Some(length);
        let status: u16 = if not_modified {
            304
        } else if matches!(outcome, RangeOutcome::Part(_)) {
            206
        } else {
            200
        };
        let body = if not_modified || req.method == Method::Head {
            Body::Empty
        } else {
            Body::File { offset, length }
        };
        let r = HttpResponse { status, headers, body };
        proof {
            assert(r.headers@ == file_response(self@, *req).headers);
        }
        r
    }
}

} // verus!
