//! Resolution of static files beneath a root directory.
//!
//! The file system is asked four things in turn: what the requested path
//! canonicalizes to, what the root canonicalizes to, whether the path is a
//! directory, and what the file holds. Whoever serves a request asks and
//! hands each answer in; the steps here decide after every answer whether
//! the request has ended and with which response. A path can only be read
//! through a [`Readable`], and a [`Readable`] only comes out of the steps,
//! for a path that lies within the root and is no directory.

use vstd::prelude::*;
use vstd::slice::slice_subrange;
use crate::server::address::DOT;
use crate::text::{after_last, bytes_equal, bytes_of, last_index_of};

verus! {

/// What the request handlers share: the directory files are served from.
#[derive(Clone, Debug)]
pub struct AppState {
    /// The directory beneath which files are served.
    pub static_dir: String,
}

impl AppState {
    /// The state for serving from `static_dir`.
    pub fn new(static_dir: &str) -> (state: AppState)
        ensures
            state.static_dir@ == static_dir@,
    {
        AppState { static_dir: static_dir.to_owned() }
    }
}

/// The file that an empty request path stands for.
pub open spec fn index_file() -> Seq<char> {
    "index.html"@
}

/// The path, relative to the root, that a request asks for: the index file
/// where the request names nothing.
pub fn requested_file(path: &str) -> (relative: String)
    ensures
        relative@ == if path@.len() == 0 {
            index_file()
        } else {
            path@
        },
{
    if path.is_empty() {
        "index.html".to_owned()
    } else {
        path.to_owned()
    }
}

/// A canonical path: absolute, with links resolved, as the list of its
/// components from the root of the file system down, each component as its
/// bytes.
#[derive(Clone, Debug)]
pub struct CanonicalPath {
    /// The components, outermost first.
    pub components: Vec<Vec<u8>>,
}

impl View for CanonicalPath {
    type V = Seq<Seq<u8>>;

    open spec fn view(&self) -> Seq<Seq<u8>> {
        Seq::new(self.components@.len(), |i: int| self.components@[i]@)
    }
}

/// `path` lies at or beneath `root`: the components of `root` are the first
/// components of `path`. Only whole components count.
pub open spec fn is_within(path: Seq<Seq<u8>>, root: Seq<Seq<u8>>) -> bool {
    root.len() <= path.len() && path.subrange(0, root.len() as int) == root
}

/// The last component of a path, or the empty name where it has none.
pub open spec fn file_name(path: Seq<Seq<u8>>) -> Seq<u8> {
    if path.len() == 0 {
        Seq::empty()
    } else {
        path.last()
    }
}

/// The extension of a file name: what follows its last dot, unless the
/// name has no dot, only begins with one, or is the name `..` of a parent
/// directory.
pub open spec fn extension(name: Seq<u8>) -> Option<Seq<u8>> {
    let d = last_index_of(name, DOT);
    if d <= 0 || name == seq![DOT, DOT] {
        None
    } else {
        Some(name.skip(d + 1))
    }
}

/// The content type served for an extension. Extensions are told apart by
/// their exact bytes; an unknown one, and none, give the generic type.
pub open spec fn mime_of(ext: Option<Seq<u8>>) -> Seq<char> {
    match ext {
        None => "application/octet-stream"@,
        Some(e) => if e == bytes_of("html"@) || e == bytes_of("htm"@) {
            "text/html"@
        } else if e == bytes_of("css"@) {
            "text/css"@
        } else if e == bytes_of("js"@) {
            "application/javascript"@
        } else if e == bytes_of("json"@) {
            "application/json"@
        } else if e == bytes_of("png"@) {
            "image/png"@
        } else if e == bytes_of("jpg"@) || e == bytes_of("jpeg"@) {
            "image/jpeg"@
        } else if e == bytes_of("gif"@) {
            "image/gif"@
        } else if e == bytes_of("svg"@) {
            "image/svg+xml"@
        } else if e == bytes_of("ico"@) {
            "image/x-icon"@
        } else if e == bytes_of("txt"@) {
            "text/plain"@
        } else if e == bytes_of("woff"@) {
            "font/woff"@
        } else if e == bytes_of("woff2"@) {
            "font/woff2"@
        } else {
            "application/octet-stream"@
        },
    }
}

/// Where the extension of a file name begins, if it has one.
pub fn extension_start(name: &[u8]) -> (start: Option<usize>)
    ensures
        match start {
            Some(at) => at <= name@.len() && extension(name@) == Some(name@.skip(at as int)),
            None => extension(name@).is_none(),
        },
{
    let i: usize = after_last(name, name.len(), DOT);
    proof {
        assert(name@.take(name@.len() as int) =~= name@);
    }
    if i <= 1 {
        None
    } else if name.len() == 2 && name[0] == DOT {
        assert(name@ =~= seq![DOT, DOT]);
        None
    } else {
        assert(name@ != seq![DOT, DOT]) by {
            if name@.len() == 2 {
                assert(seq![DOT, DOT][0] == DOT);
            }
        }
        Some(i)
    }
}

/// The content type served for a file of the given name.
pub fn content_type_for(name: &[u8]) -> (mime: &'static str)
    ensures
        mime@ == mime_of(extension(name@)),
{
    let ext = match extension_start(name) {
        Some(at) => slice_subrange(name, at, name.len()),
        None => {
            return "application/octet-stream";
        },
    };
    assert(ext@ == name@.skip(name@.len() - ext@.len()));
    if bytes_equal(ext, "html".as_bytes()) || bytes_equal(ext, "htm".as_bytes()) {
        "text/html"
    } else if bytes_equal(ext, "css".as_bytes()) {
        "text/css"
    } else if bytes_equal(ext, "js".as_bytes()) {
        "application/javascript"
    } else if bytes_equal(ext, "json".as_bytes()) {
        "application/json"
    } else if bytes_equal(ext, "png".as_bytes()) {
        "image/png"
    } else if bytes_equal(ext, "jpg".as_bytes()) || bytes_equal(ext, "jpeg".as_bytes()) {
        "image/jpeg"
    } else if bytes_equal(ext, "gif".as_bytes()) {
        "image/gif"
    } else if bytes_equal(ext, "svg".as_bytes()) {
        "image/svg+xml"
    } else if bytes_equal(ext, "ico".as_bytes()) {
        "image/x-icon"
    } else if bytes_equal(ext, "txt".as_bytes()) {
        "text/plain"
    } else if bytes_equal(ext, "woff".as_bytes()) {
        "font/woff"
    } else if bytes_equal(ext, "woff2".as_bytes()) {
        "font/woff2"
    } else {
        "application/octet-stream"
    }
}

impl CanonicalPath {
    /// Whether this path lies at or beneath `root`.
    pub fn starts_with(&self, root: &CanonicalPath) -> (within: bool)
        ensures
            within == is_within(self@, root@),
    {
        let n: usize = root.components.len();
        if n > self.components.len() {
            return false;
        }
        let mut i: usize = 0;
        while i < n
            invariant
                n == root.components@.len(),
                n <= self.components@.len(),
                i <= n,
                forall|j: int| 0 <= j < i ==> self@[j] == root@[j],
            decreases n - i,
        {
            if !bytes_equal(self.components[i].as_slice(), root.components[i].as_slice()) {
                assert(self@.subrange(0, n as int)[i as int] == self@[i as int]);
                assert(self@[i as int] != root@[i as int]);
                return false;
            }
            i = i + 1;
        }
        assert(self@.subrange(0, n as int) =~= root@);
        true
    }

    /// The content type served for the file at this path.
    pub fn content_type(&self) -> (mime: &'static str)
        ensures
            mime@ == mime_of(extension(file_name(self@))),
    {
        let n: usize = self.components.len();
        if n == 0 {
            let empty: Vec<u8> = Vec::new();
            content_type_for(empty.as_slice())
        } else {
            content_type_for(self.components[n - 1].as_slice())
        }
    }
}

/// How a request for a static file ends.
#[derive(Clone, Copy, Debug, PartialEq, Eq, Structural)]
pub enum FileStatus {
    /// The file is served.
    Served,
    /// The path leaves the root, or names a directory.
    Forbidden,
    /// The path names nothing that can be read.
    NotFound,
    /// The root itself cannot be resolved.
    InternalError,
}

impl FileStatus {
    /// The HTTP status code.
    pub fn code(self) -> (code: u16)
        ensures
            code == match self {
                FileStatus::Served => 200u16,
                FileStatus::Forbidden => 403u16,
                FileStatus::NotFound => 404u16,
                FileStatus::InternalError => 500u16,
            },
    {
        match self {
            FileStatus::Served => 200,
            FileStatus::Forbidden => 403,
            FileStatus::NotFound => 404,
            FileStatus::InternalError => 500,
        }
    }
}

/// One header of a response.
#[derive(Clone, Copy, Debug)]
pub struct Header {
    /// The name of the header.
    pub name: &'static str,
    /// Its value.
    pub value: &'static str,
}

/// The response to a request for a static file.
#[derive(Debug)]
pub struct StaticResponse {
    /// How the request ended.
    pub status: FileStatus,
    /// The headers, in the order they are sent.
    pub headers: Vec<Header>,
    /// The body.
    pub body: Vec<u8>,
}

/// A response as plain values.
pub struct StaticResponseView {
    pub status: FileStatus,
    pub headers: Seq<(Seq<char>, Seq<char>)>,
    pub body: Seq<u8>,
}

impl View for StaticResponse {
    type V = StaticResponseView;

    open spec fn view(&self) -> StaticResponseView {
        StaticResponseView {
            status: self.status,
            headers: Seq::new(
                self.headers@.len(),
                |i: int| (self.headers@[i].name@, self.headers@[i].value@),
            ),
            body: self.body@,
        }
    }
}

/// A response without headers and body.
pub open spec fn refused(status: FileStatus) -> StaticResponseView {
    StaticResponseView { status, headers: Seq::empty(), body: Seq::empty() }
}

/// The response that serves a file: its content type by the extension of
/// its name, the two headers that isolate it from other origins, and its
/// bytes.
pub open spec fn served(name: Seq<u8>, content: Seq<u8>) -> StaticResponseView {
    StaticResponseView {
        status: FileStatus::Served,
        headers: seq![
            ("content-type"@, mime_of(extension(name))),
            ("Cross-Origin-Opener-Policy"@, "same-origin"@),
            ("Cross-Origin-Embedder-Policy"@, "require-corp"@),
        ],
        body: content,
    }
}

/// The response to a request, given what the file system answers: what the
/// requested path and the root canonicalize to, whether the path is a
/// directory, and what the file holds. The answers are looked at in that
/// order, and the first that ends the request decides.
pub open spec fn resolution(
    resolved: Option<Seq<Seq<u8>>>,
    root: Option<Seq<Seq<u8>>>,
    is_dir: bool,
    content: Option<Seq<u8>>,
) -> StaticResponseView {
    if resolved is None {
        refused(FileStatus::NotFound)
    } else if root is None {
        refused(FileStatus::InternalError)
    } else if !is_within(resolved->0, root->0) {
        refused(FileStatus::Forbidden)
    } else if is_dir {
        refused(FileStatus::Forbidden)
    } else if content is None {
        refused(FileStatus::NotFound)
    } else {
        served(file_name(resolved->0), content->0)
    }
}

/// A path that leaves the root is refused as forbidden, whatever else the
/// file system answers: its content is never served.
pub proof fn lemma_traversal_is_forbidden(
    resolved: Seq<Seq<u8>>,
    root: Seq<Seq<u8>>,
    is_dir: bool,
    content: Option<Seq<u8>>,
)
    requires
        !is_within(resolved, root),
    ensures
        resolution(Some(resolved), Some(root), is_dir, content) == refused(FileStatus::Forbidden),
{
}

/// A path that resolves to a directory beneath the root is refused as
/// forbidden: directories are never listed.
pub proof fn lemma_directory_is_forbidden(
    resolved: Seq<Seq<u8>>,
    root: Seq<Seq<u8>>,
    content: Option<Seq<u8>>,
)
    ensures
        resolution(Some(resolved), Some(root), true, content) == refused(FileStatus::Forbidden),
{
}

/// Content is only ever served for a path within the root that is no
/// directory, and what is served is what the file holds.
pub proof fn lemma_served_only_within(
    resolved: Option<Seq<Seq<u8>>>,
    root: Option<Seq<Seq<u8>>>,
    is_dir: bool,
    content: Option<Seq<u8>>,
)
    requires
        resolution(resolved, root, is_dir, content).status == FileStatus::Served,
    ensures
        resolved is Some,
        root is Some,
        is_within(resolved->0, root->0),
        !is_dir,
        content is Some,
        resolution(resolved, root, is_dir, content).body == content->0,
{
}

/// A response without headers and body.
pub fn refuse(status: FileStatus) -> (response: StaticResponse)
    ensures
        response@ == refused(status),
{
    let response = StaticResponse { status, headers: Vec::new(), body: Vec::new() };
    assert(response@.headers =~= Seq::empty());
    response
}

/// A requested path that exists.
pub struct Located {
    path: CanonicalPath,
}

/// A requested path that lies within the root.
pub struct Contained {
    path: CanonicalPath,
    root: CanonicalPath,
}

/// A requested path that lies within the root and is no directory: the only
/// thing that is ever read.
pub struct Readable {
    path: CanonicalPath,
    root: CanonicalPath,
}

impl Located {
    /// The path.
    pub closed spec fn path(&self) -> Seq<Seq<u8>> {
        self.path@
    }
}

impl Contained {
    /// The path.
    pub closed spec fn path(&self) -> Seq<Seq<u8>> {
        self.path@
    }

    /// The root it lies within.
    pub closed spec fn root(&self) -> Seq<Seq<u8>> {
        self.root@
    }

    #[verifier::type_invariant]
    spec fn contained(&self) -> bool {
        is_within(self.path@, self.root@)
    }

    /// The path whose kind is to be asked for. It lies within the root.
    pub fn target(&self) -> (path: &CanonicalPath)
        ensures
            path@ == self.path(),
            is_within(path@, self.root()),
    {
        proof {
            use_type_invariant(self);
        }
        &self.path
    }
}

impl Readable {
    /// The path.
    pub closed spec fn path(&self) -> Seq<Seq<u8>> {
        self.path@
    }

    /// The root it lies within.
    pub closed spec fn root(&self) -> Seq<Seq<u8>> {
        self.root@
    }

    #[verifier::type_invariant]
    spec fn contained(&self) -> bool {
        is_within(self.path@, self.root@)
    }

    /// The path to read. It lies within the root.
    pub fn target(&self) -> (path: &CanonicalPath)
        ensures
            path@ == self.path(),
            is_within(path@, self.root()),
    {
        proof {
            use_type_invariant(self);
        }
        &self.path
    }
}

/// The first step: the requested path, joined onto the root, was
/// canonicalized. Where that failed the request ends as not found.
pub fn locate(resolved: Option<CanonicalPath>) -> (r: Result<Located, StaticResponse>)
    ensures
        match r {
            Ok(located) => resolved is Some && located.path() == resolved->0@,
            Err(response) => resolved is None && response@ == refused(FileStatus::NotFound),
        },
{
    match resolved {
        Some(path) => Ok(Located { path }),
        None => Err(refuse(FileStatus::NotFound)),
    }
}

/// The second step: the root was canonicalized. Where that failed the
/// request ends as an internal error; where the path does not lie within
/// the root it ends as forbidden.
pub fn contain(located: Located, root: Option<CanonicalPath>) -> (r: Result<
    Contained,
    StaticResponse,
>)
    ensures
        match r {
            Ok(contained) => {
                &&& root is Some
                &&& is_within(located.path(), root->0@)
                &&& contained.path() == located.path()
                &&& contained.root() == root->0@
            },
            Err(response) => if root is None {
                response@ == refused(FileStatus::InternalError)
            } else {
                !is_within(located.path(), root->0@) && response@ == refused(
                    FileStatus::Forbidden,
                )
            },
        },
{
    match root {
        None => Err(refuse(FileStatus::InternalError)),
        Some(root) => {
            if located.path.starts_with(&root) {
                Ok(Contained { path: located.path, root })
            } else {
                Err(refuse(FileStatus::Forbidden))
            }
        },
    }
}

/// The third step: the kind of the path is known. A directory is never
/// listed: the request ends as forbidden.
pub fn file_only(contained: Contained, is_dir: bool) -> (r: Result<Readable, StaticResponse>)
    ensures
        match r {
            Ok(readable) => {
                &&& !is_dir
                &&& readable.path() == contained.path()
                &&& readable.root() == contained.root()
            },
            Err(response) => is_dir && response@ == refused(FileStatus::Forbidden),
        },
{
    proof {
        use_type_invariant(&contained);
    }
    if is_dir {
        Err(refuse(FileStatus::Forbidden))
    } else {
        Ok(Readable { path: contained.path, root: contained.root })
    }
}

/// The last step: the file was read. Where that failed the request ends as
/// not found; otherwise the file is served.
pub fn respond(readable: Readable, content: Option<Vec<u8>>) -> (response: StaticResponse)
    ensures
        response@ == match content {
            Some(bytes) => served(file_name(readable.path()), bytes@),
            None => refused(FileStatus::NotFound),
        },
{
    match content {
        None => refuse(FileStatus::NotFound),
        Some(bytes) => {
            let mime = readable.path.content_type();
            let mut headers: Vec<Header> = Vec::new();
            headers.push(Header { name: "content-type", value: mime });
            headers.push(Header { name: "Cross-Origin-Opener-Policy", value: "same-origin" });
            headers.push(Header { name: "Cross-Origin-Embedder-Policy", value: "require-corp" });
            let response = StaticResponse { status: FileStatus::Served, headers, body: bytes };
            assert(response@.headers =~= served(file_name(readable.path()), bytes@).headers);
            response
        },
    }
}

/// What the file system answers about one request.
pub struct FileFacts {
    /// What the requested path, joined onto the root, canonicalizes to.
    pub resolved: Option<CanonicalPath>,
    /// What the root canonicalizes to.
    pub root: Option<CanonicalPath>,
    /// Whether the requested path is a directory.
    pub is_dir: bool,
    /// What the file holds, where it can be read.
    pub content: Option<Vec<u8>>,
}

/// The text of an optional path.
pub open spec fn parts_of(path: Option<CanonicalPath>) -> Option<Seq<Seq<u8>>> {
    match path {
        Some(p) => Some(p@),
        None => None,
    }
}

/// The bytes of an optional content.
pub open spec fn bytes_in(content: Option<Vec<u8>>) -> Option<Seq<u8>> {
    match content {
        Some(c) => Some(c@),
        None => None,
    }
}

/// Serves a static file from what the file system answers about it, by the
/// four steps in their order.
pub fn serve_static_file(facts: FileFacts) -> (response: StaticResponse)
    ensures
        response@ == resolution(
            parts_of(facts.resolved),
            parts_of(facts.root),
            facts.is_dir,
            bytes_in(facts.content),
        ),
{
    let located = match locate(facts.resolved) {
        Ok(located) => located,
        Err(response) => {
            return response;
        },
    };
    let contained = match contain(located, facts.root) {
        Ok(contained) => contained,
        Err(response) => {
            return response;
        },
    };
    let readable = match file_only(contained, facts.is_dir) {
        Ok(readable) => readable,
        Err(response) => {
            return response;
        },
    };
    respond(readable, facts.content)
}

/// The body of the health endpoint.
pub fn health_handler() -> (body: &'static str)
    ensures
        body@ == "OK"@,
{
    "OK"
}

} // verus!
