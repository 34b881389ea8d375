//! URLs of the GitLab API and the handling of its answers.
//!
//! The HTTP requests are made by the program around the library; it builds
//! every URL, request title and error with the functions here.

use vstd::prelude::*;
use vstd::string::StringSliceAdditionalSpecFns;

use crate::error::DevnpcError;
use crate::gitlab_api::CreateMrReq;
use crate::text::{chars_of, dec_spec, dec_string, matches_at, matches_at_exec, starts_with_spec, string_of, sub_chars};

verus! {

// ───────────────────────── percent-encoding ─────────────────────────

/// A byte that `encode_uri_component` keeps: ASCII letters, digits, `-_.~`.
pub open spec fn is_unreserved(b: u8) -> bool {
    (0x30 <= b <= 0x39) || (0x41 <= b <= 0x5a) || (0x61 <= b <= 0x7a) || b == 0x2d || b == 0x5f
        || b == 0x2e || b == 0x7e
}

/// An uppercase hexadecimal digit.
pub open spec fn hex_digit(d: int) -> char {
    if d < 10 {
        (('0' as int) + d) as char
    } else {
        (('A' as int) + d - 10) as char
    }
}

/// The encoding of one byte: itself when unreserved, `%XX` otherwise.
pub open spec fn encode_byte(b: u8) -> Seq<char> {
    if is_unreserved(b) {
        seq![b as char]
    } else {
        seq!['%', hex_digit(b as int / 16), hex_digit(b as int % 16)]
    }
}

/// Percent-encoding of a byte sequence (RFC 3986 unreserved characters kept).
pub open spec fn encode_bytes(bs: Seq<u8>) -> Seq<char>
    decreases bs.len(),
{
    if bs.len() == 0 {
        Seq::empty()
    } else {
        encode_bytes(bs.drop_last()) + encode_byte(bs.last())
    }
}

/// A character an encoded URL component may hold: an unreserved one or `%`.
pub open spec fn url_safe(c: char) -> bool {
    ('0' <= c <= '9') || ('A' <= c <= 'Z') || ('a' <= c <= 'z') || c == '-' || c == '_' || c == '.' || c == '~'
        || c == '%'
}

/// A percent-encoded component holds only unreserved characters and `%`, so
/// it cannot end a path segment or start a query.
pub proof fn law_encoding_is_url_safe(bs: Seq<u8>)
    ensures
        forall|i: int| 0 <= i < encode_bytes(bs).len() ==> url_safe(#[trigger] encode_bytes(bs)[i]),
    decreases bs.len(),
{
    if bs.len() > 0 {
        law_encoding_is_url_safe(bs.drop_last());
        let a = encode_bytes(bs.drop_last());
        let b = encode_byte(bs.last());
        let x = bs.last();
        assert(0 <= x as int / 16 < 16 && 0 <= x as int % 16 < 16);
        assert forall|i: int| 0 <= i < b.len() implies url_safe(#[trigger] b[i]) by {
            if !is_unreserved(x) && i > 0 {
                let d = if i == 1 { x as int / 16 } else { x as int % 16 };
                assert(b[i] == hex_digit(d));
            }
        }
        assert forall|i: int| 0 <= i < (a + b).len() implies url_safe(#[trigger] (a + b)[i]) by {
            if i < a.len() {
                assert((a + b)[i] == a[i]);
            } else {
                assert((a + b)[i] == b[i - a.len()]);
            }
        }
    }
}

fn hex_char(d: u8) -> (c: char)
    requires
        d < 16,
    ensures
        c == hex_digit(d as int),
{
    if d < 10 {
        ((0x30u8 + d) as char)
    } else {
        ((0x41u8 + d - 10) as char)
    }
}

/// Percent-encodes the UTF-8 bytes of `s`, keeping ASCII letters, digits and
/// `-_.~`, so that a path or ref cannot add query parameters.
pub fn encode_uri_component(s: &str) -> (r: String)
    ensures
        r@ == encode_bytes(s.spec_bytes()),
{
    let bytes = s.as_bytes();
    let mut out: Vec<char> = Vec::new();
    let mut i: usize = 0;
    while i < bytes.len()
        invariant
            i <= bytes.len(),
            bytes@ == s.spec_bytes(),
            out@ == encode_bytes(bytes@.take(i as int)),
        decreases bytes.len() - i,
    {
        let b = bytes[i];
        let unreserved = (0x30 <= b && b <= 0x39) || (0x41 <= b && b <= 0x5a) || (0x61 <= b && b <= 0x7a)
            || b == 0x2d || b == 0x5f || b == 0x2e || b == 0x7e;
        if unreserved {
            out.push(b as char);
        } else {
            out.push('%');
            out.push(hex_char(b / 16));
            out.push(hex_char(b % 16));
        }
        proof {
            let t = bytes@.take(i + 1);
            assert(t.drop_last() =~= bytes@.take(i as int));
            assert(t.last() == b);
            assert(out@ =~= encode_bytes(t));
        }
        i = i + 1;
    }
    assert(bytes@.take(bytes@.len() as int) =~= bytes@);
    string_of(out.as_slice())
}

// ───────────────────────── URLs ─────────────────────────

/// `s` without its trailing slashes.
pub open spec fn trim_slashes(s: Seq<char>) -> Seq<char>
    decreases s.len(),
{
    if s.len() > 0 && s.last() == '/' {
        trim_slashes(s.drop_last())
    } else {
        s
    }
}

/// `s` without its leading copies of `p`.
pub open spec fn strip_prefixes(s: Seq<char>, p: Seq<char>) -> Seq<char>
    decreases s.len(),
{
    if p.len() > 0 && starts_with_spec(s, p) {
        strip_prefixes(s.subrange(p.len() as int, s.len() as int), p)
    } else {
        s
    }
}

/// The URLs of one GitLab instance.
#[derive(Debug, Clone)]
pub struct GitlabUrls {
    /// The instance URL, without trailing slashes.
    pub base_url: String,
}

/// `<base>/api/v4/projects/<id>`.
pub open spec fn project_spec(base: Seq<char>, project_id: u64) -> Seq<char> {
    base + "/api/v4/projects/"@ + dec_spec(project_id as nat)
}

impl GitlabUrls {
    /// The URLs of the instance at `base_url`; trailing slashes are dropped.
    pub fn new(base_url: &str) -> (r: Self)
        ensures
            r.base_url@ == trim_slashes(base_url@),
    {
        let v = chars_of(base_url);
        let mut n: usize = v.len();
        assert(v@.subrange(0, n as int) =~= v@);
        while n > 0 && v[n - 1] == '/'
            invariant
                n <= v.len(),
                trim_slashes(v@.subrange(0, n as int)) == trim_slashes(v@),
            decreases n,
        {
            assert(v@.subrange(0, n as int).drop_last() =~= v@.subrange(0, n - 1));
            n = n - 1;
        }
        let t = sub_chars(v.as_slice(), 0, n);
        GitlabUrls { base_url: string_of(t.as_slice()) }
    }

    /// `<base>/api/v4/projects/<id>`.
    pub fn project(&self, project_id: u64) -> (r: String)
        ensures
            r@ == project_spec(self.base_url@, project_id),
    {
        let mut s = self.base_url.clone();
        s.append("/api/v4/projects/");
        let id = dec_string(project_id);
        s.append(id.as_str());
        s
    }

    fn project_path(&self, project_id: u64, tail: &str) -> (r: String)
        ensures
            r@ == project_spec(self.base_url@, project_id) + tail@,
    {
        let mut s = self.project(project_id);
        s.append(tail);
        s
    }

    fn project_path_id(&self, project_id: u64, mid: &str, id: u64, tail: &str) -> (r: String)
        ensures
            r@ == project_spec(self.base_url@, project_id) + mid@ + dec_spec(id as nat) + tail@,
    {
        let mut s = self.project(project_id);
        s.append(mid);
        let d = dec_string(id);
        s.append(d.as_str());
        s.append(tail);
        s
    }

    /// `…/issues/<iid>`.
    pub fn issue_url(&self, project_id: u64, iid: u64) -> (r: String)
        ensures
            r@ == project_spec(self.base_url@, project_id) + "/issues/"@ + dec_spec(iid as nat),
    {
        let r = self.project_path_id(project_id, "/issues/", iid, "");
        proof {
            reveal_strlit("");
        }
        assert(r@ =~= project_spec(self.base_url@, project_id) + "/issues/"@ + dec_spec(iid as nat));
        r
    }

    /// `…/merge_requests/<iid>`.
    pub fn mr_url(&self, project_id: u64, iid: u64) -> (r: String)
        ensures
            r@ == project_spec(self.base_url@, project_id) + "/merge_requests/"@ + dec_spec(iid as nat),
    {
        let r = self.project_path_id(project_id, "/merge_requests/", iid, "");
        proof {
            reveal_strlit("");
        }
        assert(r@ =~= project_spec(self.base_url@, project_id) + "/merge_requests/"@ + dec_spec(iid as nat));
        r
    }

    /// `…/merge_requests` (creation).
    pub fn mrs_url(&self, project_id: u64) -> (r: String)
        ensures
            r@ == project_spec(self.base_url@, project_id) + "/merge_requests"@,
    {
        self.project_path(project_id, "/merge_requests")
    }

    /// `…/merge_requests/<iid>/changes`.
    pub fn mr_changes_url(&self, project_id: u64, mr_iid: u64) -> (r: String)
        ensures
            r@ == project_spec(self.base_url@, project_id) + "/merge_requests/"@ + dec_spec(mr_iid as nat)
                + "/changes"@,
    {
        self.project_path_id(project_id, "/merge_requests/", mr_iid, "/changes")
    }

    /// `…/merge_requests/<iid>/notes`.
    pub fn mr_notes_url(&self, project_id: u64, mr_iid: u64) -> (r: String)
        ensures
            r@ == project_spec(self.base_url@, project_id) + "/merge_requests/"@ + dec_spec(mr_iid as nat)
                + "/notes"@,
    {
        self.project_path_id(project_id, "/merge_requests/", mr_iid, "/notes")
    }

    /// `…/issues/<iid>/notes`.
    pub fn issue_notes_url(&self, project_id: u64, iid: u64) -> (r: String)
        ensures
            r@ == project_spec(self.base_url@, project_id) + "/issues/"@ + dec_spec(iid as nat) + "/notes"@,
    {
        self.project_path_id(project_id, "/issues/", iid, "/notes")
    }

    /// `…/issues/<iid>/related_merge_requests`.
    pub fn related_mrs_url(&self, project_id: u64, issue_iid: u64) -> (r: String)
        ensures
            r@ == project_spec(self.base_url@, project_id) + "/issues/"@ + dec_spec(issue_iid as nat)
                + "/related_merge_requests"@,
    {
        self.project_path_id(project_id, "/issues/", issue_iid, "/related_merge_requests")
    }

    /// `…/pipelines`.
    pub fn pipelines_url(&self, project_id: u64) -> (r: String)
        ensures
            r@ == project_spec(self.base_url@, project_id) + "/pipelines"@,
    {
        self.project_path(project_id, "/pipelines")
    }

    /// `…/pipelines?per_page=<count>`.
    pub fn pipelines_url_with_limit(&self, project_id: u64, count: u64) -> (r: String)
        ensures
            r@ == project_spec(self.base_url@, project_id) + "/pipelines?per_page="@ + dec_spec(count as nat),
    {
        let mut s = self.project_path(project_id, "/pipelines?per_page=");
        let d = dec_string(count);
        s.append(d.as_str());
        s
    }

    /// `…/pipelines/<id>`.
    pub fn pipeline_url(&self, project_id: u64, pipeline_id: u64) -> (r: String)
        ensures
            r@ == project_spec(self.base_url@, project_id) + "/pipelines/"@ + dec_spec(pipeline_id as nat),
    {
        let r = self.project_path_id(project_id, "/pipelines/", pipeline_id, "");
        proof {
            reveal_strlit("");
        }
        assert(r@ =~= project_spec(self.base_url@, project_id) + "/pipelines/"@ + dec_spec(pipeline_id as nat));
        r
    }

    /// `…/pipelines/<id>/jobs`.
    pub fn pipeline_jobs_url(&self, project_id: u64, pipeline_id: u64) -> (r: String)
        ensures
            r@ == project_spec(self.base_url@, project_id) + "/pipelines/"@ + dec_spec(pipeline_id as nat)
                + "/jobs"@,
    {
        self.project_path_id(project_id, "/pipelines/", pipeline_id, "/jobs")
    }

    /// `…/jobs/<id>/trace`.
    pub fn job_log_url(&self, project_id: u64, job_id: u64) -> (r: String)
        ensures
            r@ == project_spec(self.base_url@, project_id) + "/jobs/"@ + dec_spec(job_id as nat) + "/trace"@,
    {
        self.project_path_id(project_id, "/jobs/", job_id, "/trace")
    }

    /// `…/repository/files/<path>?ref=<ref>&raw=1`, path and ref percent-encoded.
    pub fn file_url(&self, project_id: u64, file_path: &str, ref_: &str) -> (r: String)
        ensures
            r@ == project_spec(self.base_url@, project_id) + "/repository/files/"@ + encode_bytes(
                file_path.spec_bytes(),
            ) + "?ref="@ + encode_bytes(ref_.spec_bytes()) + "&raw=1"@,
    {
        let mut s = self.project_path(project_id, "/repository/files/");
        let p = encode_uri_component(file_path);
        s.append(p.as_str());
        s.append("?ref=");
        let r = encode_uri_component(ref_);
        s.append(r.as_str());
        s.append("&raw=1");
        s
    }

    /// `…/repository/tree?ref=<ref>` for the root (empty path), otherwise
    /// `…/repository/tree?path=<path>&ref=<ref>`, both percent-encoded.
    pub fn tree_url(&self, project_id: u64, path: &str, ref_: &str) -> (r: String)
        ensures
            r@ == if path@.len() == 0 {
                project_spec(self.base_url@, project_id) + "/repository/tree?ref="@ + encode_bytes(
                    ref_.spec_bytes(),
                )
            } else {
                project_spec(self.base_url@, project_id) + "/repository/tree?path="@ + encode_bytes(
                    path.spec_bytes(),
                ) + "&ref="@ + encode_bytes(ref_.spec_bytes())
            },
    {
        let re = encode_uri_component(ref_);
        if path.is_empty() {
            let mut s = self.project_path(project_id, "/repository/tree?ref=");
            s.append(re.as_str());
            s
        } else {
            let mut s = self.project_path(project_id, "/repository/tree?path=");
            let pe = encode_uri_component(path);
            s.append(pe.as_str());
            s.append("&ref=");
            s.append(re.as_str());
            s
        }
    }
}

// ───────────────────────── titles and answers ─────────────────────────

/// The title sent when creating a merge request: `Draft: ` before a draft's title.
pub fn create_mr_title(req: &CreateMrReq) -> (r: String)
    ensures
        r@ == if req.draft {
            "Draft: "@ + req.title@
        } else {
            req.title@
        },
{
    if req.draft {
        let mut s = String::from_str("Draft: ");
        s.append(req.title.as_str());
        s
    } else {
        req.title.clone()
    }
}

/// The title sent when updating a merge request: `Draft: ` before it for a
/// draft; otherwise the title without its leading `Draft: ` prefixes.
pub fn update_mr_title(title: &str, draft: bool) -> (r: String)
    ensures
        r@ == if draft {
            "Draft: "@ + title@
        } else {
            strip_prefixes(title@, "Draft: "@)
        },
{
    if draft {
        let mut s = String::from_str("Draft: ");
        s.append(title);
        return s;
    }
    let v = chars_of(title);
    let p = chars_of("Draft: ");
    let mut start: usize = 0;
    assert(v@.subrange(0, v@.len() as int) =~= v@);
    while p.len() > 0 && matches_at_exec(v.as_slice(), p.as_slice(), start)
        invariant
            start <= v.len(),
            p@ == "Draft: "@,
            strip_prefixes(v@.subrange(start as int, v@.len() as int), p@) == strip_prefixes(v@, p@),
        decreases v.len() - start,
    {
        proof {
            let rest = v@.subrange(start as int, v@.len() as int);
            assert(rest.subrange(0, p@.len() as int) =~= v@.subrange(start as int, start + p@.len()));
            assert(starts_with_spec(rest, p@));
            assert(rest.subrange(p@.len() as int, rest.len() as int) =~= v@.subrange(
                start + p@.len(),
                v@.len() as int,
            ));
        }
        start = start + p.len();
    }
    proof {
        let rest = v@.subrange(start as int, v@.len() as int);
        if p@.len() > 0 && starts_with_spec(rest, p@) {
            assert(rest.subrange(0, p@.len() as int) =~= v@.subrange(start as int, start + p@.len()));
            assert(matches_at(v@, p@, start as int));
        }
    }
    let t = sub_chars(v.as_slice(), start, v.len());
    string_of(t.as_slice())
}

/// The error for an HTTP status: 404 is a missing resource (with the body as
/// its description), any other status outside 200–299 an API error; a
/// success gives none.
pub fn status_error(status: u16, body: String) -> (r: Option<DevnpcError>)
    ensures
        status == 404 ==> (r matches Some(DevnpcError::GitlabNotFound { resource }) && resource@ == body@),
        status != 404 && !(200 <= status <= 299) ==> (r matches Some(DevnpcError::GitlabApi { status: s, body: b })
            && s == status && b@ == body@),
        200 <= status <= 299 ==> r is None,
{
    if status == 404 {
        Some(DevnpcError::GitlabNotFound { resource: body })
    } else if status < 200 || status > 299 {
        Some(DevnpcError::GitlabApi { status, body })
    } else {
        None
    }
}

} // verus!
