//! The per-request content pipeline: one host's fixed options turn a request
//! path and the bytes found (or not found) at the matching file into a full
//! HTTP response — optional Markdown rendering, optional gzip compression,
//! and the headers that describe the body.

use vstd::prelude::*;
use vstd::string::StrSliceExecFns;
use vstd::string::StringExecFns;
use vstd::utf8::encode_utf8;
use crate::compress::gunzip_of;
use crate::compress::gzip_compress;
use crate::config::MarkdownOptions;
use crate::render::render_page;
use crate::render::rendered_page;

verus! {

/// One host's serving options, fixed for the host's whole lifetime. Every
/// request to the host is answered by [`Tug::respond`] over these options.
pub struct Tug {
    /// Directory whose files are served.
    pub root: String,
    /// Whether response bodies are gzip-compressed.
    pub gzip: bool,
    /// Markdown rendering options; `None` serves `.md` files as plain bytes.
    pub markdown: Option<MarkdownOptions>,
}

/// An HTTP response as this crate produces it: a status line, the body, and
/// the headers that describe the body.
pub struct HttpResponse {
    /// Status code: 200 when the file was found, 404 otherwise.
    pub status: u16,
    /// The body bytes actually sent.
    pub body: Vec<u8>,
    /// Value of the content-length header: the body's exact byte length.
    pub content_length: u64,
    /// Whether a content-encoding header naming gzip is sent.
    pub content_encoding_gzip: bool,
    /// Value of the date header, as seconds of wall-clock time; the caller
    /// passes the current time in and it is echoed back untouched.
    pub date: u64,
}

/// The path has a `.md` extension in the sense of `std::path`: its last
/// component contains a dot that starts the suffix `md` and does not start
/// the component itself.
pub open spec fn has_md_extension(p: Seq<char>) -> bool {
    &&& p.len() >= 4
    &&& p[p.len() - 3] == '.'
    &&& p[p.len() - 2] == 'm'
    &&& p[p.len() - 1] == 'd'
    &&& p[p.len() - 4] != '/'
}

/// Decides [`has_md_extension`] for a path.
pub fn path_has_md_extension(p: &str) -> (r: bool)
    ensures
        r == has_md_extension(p@),
{
    let n = p.unicode_len();
    if n < 4 {
        return false;
    }
    p.get_char(n - 3) == '.' && p.get_char(n - 2) == 'm' && p.get_char(n - 1) == 'd' && p.get_char(
        n - 4,
    ) != '/'
}

/// The view of the file bytes handed to [`Tug::respond`].
pub open spec fn opt_bytes(file: Option<Vec<u8>>) -> Option<Seq<u8>> {
    match file {
        Some(v) => Some(v@),
        None => None,
    }
}

impl Tug {
    /// The filesystem path a request path is looked up at: the host's root
    /// with the request path appended, nothing more.
    pub open spec fn spec_candidate_path(self, request_path: Seq<char>) -> Seq<char> {
        self.root@ + request_path
    }

    /// Concatenates the host's root and the request path into the candidate
    /// filesystem path.
    pub fn candidate_path(&self, request_path: &str) -> (r: String)
        ensures
            r@ == self.spec_candidate_path(request_path@),
    {
        let mut s = self.root.clone();
        s.append(request_path);
        s
    }

    /// The request is answered with rendered Markdown: the host has Markdown
    /// options and the candidate path carries a `.md` extension.
    pub open spec fn spec_wants_markdown(self, request_path: Seq<char>) -> bool {
        self.markdown is Some && has_md_extension(self.spec_candidate_path(request_path))
    }

    /// Decides [`Tug::spec_wants_markdown`] for a request path.
    pub fn wants_markdown(&self, request_path: &str) -> (r: bool)
        ensures
            r == self.spec_wants_markdown(request_path@),
    {
        if self.markdown.is_some() {
            let full = self.candidate_path(request_path);
            path_has_md_extension(full.as_str())
        } else {
            false
        }
    }

    /// The body served before compression: the rendered HTML page, UTF-8
    /// encoded, when the request is answered with rendered Markdown; the file
    /// bytes untouched otherwise. Independent of the gzip switch.
    pub open spec fn plain_body(self, request_path: Seq<char>, content: Seq<u8>) -> Seq<u8> {
        if self.spec_wants_markdown(request_path) {
            encode_utf8(rendered_page(self.markdown.unwrap(), content))
        } else {
            content
        }
    }

    /// What [`Tug::respond`] promises of its result.
    ///
    /// A missing file gives status 404 with an empty body and no encoding
    /// header, whatever the method or options. A found file gives status 200;
    /// with gzip off the body is exactly [`Tug::plain_body`], with gzip on it
    /// is a gzip frame that decompresses to exactly that, and the encoding
    /// header says so. The content-length always equals the body's byte
    /// length, and the date header carries the caller's clock reading.
    pub open spec fn respond_spec(
        self,
        request_path: Seq<char>,
        file: Option<Seq<u8>>,
        now: u64,
        r: HttpResponse,
    ) -> bool {
        &&& r.date == now
        &&& r.content_length == r.body@.len()
        &&& (match file {
            None => {
                &&& r.status == 404
                &&& r.body@ == Seq::<u8>::empty()
                &&& !r.content_encoding_gzip
            },
            Some(content) => {
                &&& r.status == 200
                &&& r.content_encoding_gzip == self.gzip
                &&& if self.gzip {
                    gunzip_of(r.body@) == Some(self.plain_body(request_path, content))
                } else {
                    r.body@ == self.plain_body(request_path, content)
                }
            },
        })
    }

    /// Answers one request: `file` is what the caller found at the candidate
    /// path (`None` when no such file exists or it cannot be read), `now` is
    /// the caller's clock reading for the date header.
    pub fn respond(&self, request_path: &str, file: Option<Vec<u8>>, now: u64) -> (r: HttpResponse)
        ensures
            self.respond_spec(request_path@, opt_bytes(file), now, r),
    {
        match file {
            None => HttpResponse {
                status: 404,
                body: Vec::new(),
                content_length: 0,
                content_encoding_gzip: false,
                date: now,
            },
            Some(content) => {
                let plain: Vec<u8> = if self.wants_markdown(request_path) {
                    let md = match &self.markdown {
                        Some(m) => m,
                        None => {
                            proof {
                                assert(false);
                            }
                            return HttpResponse {
                                status: 404,
                                body: Vec::new(),
                                content_length: 0,
                                content_encoding_gzip: false,
                                date: now,
                            };
                        },
                    };
                    let page = render_page(md, &content);
                    page.as_str().as_bytes_vec()
                } else {
                    content
                };
                if self.gzip {
                    let body = gzip_compress(&plain);
                    let len = body.len() as u64;
                    HttpResponse {
                        status: 200,
                        body,
                        content_length: len,
                        content_encoding_gzip: true,
                        date: now,
                    }
                } else {
                    let len = plain.len() as u64;
                    HttpResponse {
                        status: 200,
                        body: plain,
                        content_length: len,
                        content_encoding_gzip: false,
                        date: now,
                    }
                }
            },
        }
    }
}

/// Appending the same request path to two different roots gives two different
/// candidate paths.
pub proof fn lemma_distinct_concat(a: Seq<char>, b: Seq<char>, p: Seq<char>)
    requires
        a != b,
    ensures
        a + p != b + p,
{
    if a + p == b + p {
        assert((a + p).len() == a.len() + p.len());
        assert((b + p).len() == b.len() + p.len());
        assert forall|i: int| 0 <= i < a.len() implies a[i] == b[i] by {
            assert((a + p)[i] == a[i]);
            assert((b + p)[i] == b[i]);
        }
        assert(a =~= b);
    }
}

/// Host separation: two hosts with different roots look the same request
/// path up at different filesystem paths, so a request to one host is never
/// answered from the other host's files.
pub proof fn lemma_hosts_look_up_separately(a: Tug, b: Tug, request_path: Seq<char>)
    requires
        a.root@ != b.root@,
    ensures
        a.spec_candidate_path(request_path) != b.spec_candidate_path(request_path),
{
    lemma_distinct_concat(a.root@, b.root@, request_path);
}

/// Gzip transparency: what a host serves before compression does not depend
/// on its gzip switch, so decompressing a gzip-enabled host's body yields
/// exactly the bytes the same host would have sent with gzip disabled.
pub proof fn lemma_plain_body_ignores_gzip(a: Tug, b: Tug, request_path: Seq<char>, content: Seq<u8>)
    requires
        a.root@ == b.root@,
        a.markdown == b.markdown,
    ensures
        a.plain_body(request_path, content) == b.plain_body(request_path, content),
{
    assert(a.spec_candidate_path(request_path) == b.spec_candidate_path(request_path));
}

} // verus!
