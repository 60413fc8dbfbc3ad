//! LFS negotiation for standalone transfers and native Xet downloads: the
//! decisions of the client, from the LFS URL it is configured with to the
//! check of a finished download. The requests themselves are made by the
//! caller, which hands each outcome back.
use vstd::prelude::*;

use crate::digest::{
    check_download_size, download_check, sha256_hex, sha256_of, DownloadVerifier,
};
use crate::errors::GitXetError;
use crate::git_url::{
    chars_eq, default_lfs_endpoint, derived_http_host_url, git_url_of, repo_info_of, GitUrl,
    GitUrlView, Scheme,
};
use crate::protocol::{
    headers_view, ActionView, BatchObject, BatchRequest, BatchResponse, CasJwtInfo,
    GitBatchApiResponseAction, HttpMethod, HttpRequest, Operation, TransferRequest,
};
use crate::text::{
    chars_of, concat_chars, eq_ignore_ascii_case, hex_lower, is_hex_digit, is_hex_digit_exec, starts_with, starts_with_exec,
    string_from_chars, strip_suffix, strip_suffix_exec, trim_end_char, trim_end_char_exec, views,
};
use crate::url::{parse_url, path_segments, path_segments_exec, url_parse};

verus! {

// ---------------------------------------------------------------------------
// The configured LFS URL
/// The remote named by an LFS URL: the URL without trailing `/` must end in
/// `/info/lfs`, and what precedes that must be an HTTP or HTTPS Git URL.
pub open spec fn remote_from_lfs_url_spec(url: Seq<char>) -> Result<GitUrlView, GitXetError> {
    match strip_suffix(trim_end_char(url, '/'), "/info/lfs"@) {
        None => Err(GitXetError::LfsUrlSuffix),
        Some(base) => match git_url_of(base) {
            None => Err(GitXetError::InvalidGitUrl),
            Some(remote) => http_remote(remote),
        },
    }
}

/// The Git remote behind an `--lfs-url`.
pub fn remote_from_lfs_url(url: &str) -> (r: Result<GitUrl, GitXetError>)
    ensures
        match r {
            Ok(remote) => remote_from_lfs_url_spec(url@) == Ok::<GitUrlView, GitXetError>(
                remote@,
            ),
            Err(e) => remote_from_lfs_url_spec(url@) == Err::<GitUrlView, GitXetError>(e),
        },
        r matches Ok(remote) ==> remote.scheme == Scheme::Http || remote.scheme == Scheme::Https,
{
    let trimmed = trim_end_char_exec(&chars_of(url), '/');
    let base = match strip_suffix_exec(&trimmed, &chars_of("/info/lfs")) {
        Some(b) => b,
        None => return Err(GitXetError::LfsUrlSuffix),
    };
    let base_str = string_from_chars(base.as_slice());
    let remote = match GitUrl::parse(base_str.as_str()) {
        Ok(u) => u,
        Err(e) => return Err(e),
    };
    remote_from_git_url(remote)
}

/// The remote behind an LFS URL must be reached over HTTP or HTTPS.
pub open spec fn http_remote(remote: GitUrlView) -> Result<GitUrlView, GitXetError> {
    if remote.scheme == Scheme::Http || remote.scheme == Scheme::Https {
        Ok(remote)
    } else {
        Err(GitXetError::LfsUrlScheme)
    }
}

/// The remote of an LFS URL, once parsed: kept where it is reached over HTTP
/// or HTTPS, refused otherwise.
pub fn remote_from_git_url(remote: GitUrl) -> (r: Result<GitUrl, GitXetError>)
    ensures
        match r {
            Ok(u) => http_remote(remote@) == Ok::<GitUrlView, GitXetError>(u@),
            Err(e) => http_remote(remote@) == Err::<GitUrlView, GitXetError>(e),
        },
{
    match remote.scheme() {
        Scheme::Http | Scheme::Https => Ok(remote),
        _ => Err(GitXetError::LfsUrlScheme),
    }
}

/// Trailing slashes of an LFS URL make no difference.
pub proof fn lemma_lfs_url_trailing_slash(url: Seq<char>)
    ensures
        remote_from_lfs_url_spec(url.push('/')) == remote_from_lfs_url_spec(url),
{
    assert(url.push('/').drop_last() =~= url);
}

/// The LFS endpoint that Git LFS derives from a remote passes the
/// `/info/lfs` check of an `--lfs-url`, and what precedes that suffix is the
/// remote's HTTP form with a `.git` path.
pub proof fn lemma_default_endpoint_is_an_lfs_url(remote: GitUrlView)
    requires
        default_lfs_endpoint(remote) is Ok,
    ensures
        ({
            let endpoint = default_lfs_endpoint(remote)->Ok_0;
            let base = strip_suffix(trim_end_char(endpoint, '/'), "/info/lfs"@);
            &&& base is Some
            &&& base->0 == derived_http_host_url(remote)->Ok_0 + {
                let path = trim_end_char(remote.path, '/');
                if crate::text::ends_with(path, ".git"@) {
                    path
                } else {
                    path + ".git"@
                }
            }
        }),
{
    reveal_strlit("/info/lfs");
    reveal_strlit(".git/info/lfs");
    reveal_strlit(".git");
    let host = derived_http_host_url(remote)->Ok_0;
    let path = trim_end_char(remote.path, '/');
    let endpoint = default_lfs_endpoint(remote)->Ok_0;
    let suffix = "/info/lfs"@;
    let head = if crate::text::ends_with(path, ".git"@) {
        path
    } else {
        path + ".git"@
    };
    assert(".git/info/lfs"@ =~= ".git"@ + suffix);
    assert(endpoint =~= host + head + suffix);
    assert(endpoint.last() == 's');
    assert(trim_end_char(endpoint, '/') == endpoint);
    assert(endpoint.skip(endpoint.len() - suffix.len()) =~= suffix);
    assert(endpoint.take(endpoint.len() - suffix.len()) =~= host + head);
}

// ---------------------------------------------------------------------------
// Bridge URLs
/// A path segment that opens the bridge part of a URL.
pub open spec fn is_bridge_segment(p: Seq<char>) -> bool {
    starts_with(p, "xet-bridge-"@)
}

/// The first bridge segment at or after position `k`.
pub open spec fn first_bridge_from(parts: Seq<Seq<char>>, k: int) -> Option<int>
    decreases parts.len() - k,
{
    if k < 0 || k >= parts.len() {
        None
    } else if is_bridge_segment(parts[k]) {
        Some(k)
    } else {
        first_bridge_from(parts, k + 1)
    }
}

/// A Xet hash: 64 ASCII hexadecimal digits.
pub open spec fn is_xet_hash(h: Seq<char>) -> bool {
    h.len() == 64 && forall|i: int| 0 <= i < h.len() ==> is_hex_digit(#[trigger] h[i])
}

/// The Xet hash in a bridge URL's path segments: the second segment after
/// the first bridge segment, if it is a Xet hash.
pub open spec fn bridge_hash_in(parts: Seq<Seq<char>>) -> Option<Seq<char>> {
    match first_bridge_from(parts, 0) {
        Some(i) => if i + 2 < parts.len() && is_xet_hash(parts[i + 2]) {
            Some(parts[i + 2])
        } else {
            None
        },
        None => None,
    }
}

/// The Xet hash in a URL path.
pub open spec fn bridge_hash_of_path(path: Seq<char>) -> Option<Seq<char>> {
    match path_segments(path) {
        Some(parts) => bridge_hash_in(parts),
        None => None,
    }
}

/// The Xet hash in an action URL.
pub open spec fn bridge_hash_spec(href: Seq<char>) -> Option<Seq<char>> {
    match url_parse(href) {
        Some(parts) => bridge_hash_of_path(parts.3),
        None => None,
    }
}

/// The Xet hash of an action URL depends on the URL's parsed path alone,
/// not on its host, port or query.
pub proof fn lemma_bridge_hash_depends_only_on_path(href1: Seq<char>, href2: Seq<char>)
    requires
        url_parse(href1) is Some,
        url_parse(href2) is Some,
        (url_parse(href1)->0).3 == (url_parse(href2)->0).3,
    ensures
        bridge_hash_spec(href1) == bridge_hash_spec(href2),
        bridge_hash_spec(href1) == bridge_hash_of_path((url_parse(href1)->0).3),
{
}

fn first_bridge(parts: &Vec<Vec<char>>) -> (r: Option<usize>)
    ensures
        match r {
            Some(i) => first_bridge_from(views(parts@), 0) == Some(i as int),
            None => first_bridge_from(views(parts@), 0) is None,
        },
{
    let ghost v = views(parts@);
    let prefix = chars_of("xet-bridge-");
    let mut i: usize = 0;
    while i < parts.len()
        invariant
            i <= parts.len(),
            v == views(parts@),
            prefix@ == "xet-bridge-"@,
            first_bridge_from(v, 0) == first_bridge_from(v, i as int),
        decreases parts.len() - i,
    {
        if starts_with_exec(&parts[i], &prefix) {
            return Some(i);
        }
        i = i + 1;
    }
    None
}

fn is_xet_hash_exec(h: &Vec<char>) -> (b: bool)
    ensures
        b == is_xet_hash(h@),
{
    if h.len() != 64 {
        return false;
    }
    let mut i: usize = 0;
    while i < h.len()
        invariant
            i <= h.len(),
            forall|j: int| 0 <= j < i ==> is_hex_digit(#[trigger] h@[j]),
        decreases h.len() - i,
    {
        if !is_hex_digit_exec(h[i]) {
            return false;
        }
        i = i + 1;
    }
    true
}

/// The Xet hash in a URL path: the second path segment after the first one
/// that starts with `xet-bridge-`, where that is 64 hexadecimal digits.
pub fn bridge_hash_from_path(path: &str) -> (r: Option<String>)
    ensures
        r.deep_view() == bridge_hash_of_path(path@),
        r matches Some(h) ==> is_xet_hash(h@),
{
    let segs = match path_segments_exec(&chars_of(path)) {
        Some(s) => s,
        None => return None,
    };
    match first_bridge(&segs) {
        Some(i) => {
            if segs.len() >= 2 && i < segs.len() - 2 && is_xet_hash_exec(&segs[i + 2]) {
                Some(string_from_chars(segs[i + 2].as_slice()))
            } else {
                None
            }
        },
        None => None,
    }
}

/// The Xet hash carried by an LFS bridge URL, which names it even for
/// objects without a Hub commit.
pub fn bridge_hash(href: &str) -> (r: Option<String>)
    ensures
        r.deep_view() == bridge_hash_spec(href@),
        r matches Some(h) ==> is_xet_hash(h@),
{
    match parse_url(href) {
        Some((_scheme, _host, _port, path)) => bridge_hash_from_path(path.as_str()),
        None => None,
    }
}

// ---------------------------------------------------------------------------
// Batch responses
/// The first object at or after position `k` whose oid is `oid`.
pub open spec fn first_object_from(objs: Seq<BatchObject>, oid: Seq<char>, k: int) -> Option<int>
    decreases objs.len() - k,
{
    if k < 0 || k >= objs.len() {
        None
    } else if objs[k].oid@ == oid {
        Some(k)
    } else {
        first_object_from(objs, oid, k + 1)
    }
}

/// The first action at or after position `k` offered under `name`.
pub open spec fn action_index_from(
    actions: Seq<(String, GitBatchApiResponseAction)>,
    name: Seq<char>,
    k: int,
) -> Option<int>
    decreases actions.len() - k,
{
    if k < 0 || k >= actions.len() {
        None
    } else if actions[k].0@ == name {
        Some(k)
    } else {
        action_index_from(actions, name, k + 1)
    }
}

/// The object found is the first one listed with the oid.
pub proof fn lemma_first_object_from(objs: Seq<BatchObject>, oid: Seq<char>, k: int)
    requires
        0 <= k,
    ensures
        match first_object_from(objs, oid, k) {
            Some(i) => k <= i < objs.len() && objs[i].oid@ == oid && forall|j: int|
                k <= j < i ==> (#[trigger] objs[j]).oid@ != oid,
            None => forall|j: int| k <= j < objs.len() ==> (#[trigger] objs[j]).oid@ != oid,
        },
    decreases objs.len() - k,
{
    if k < objs.len() && objs[k].oid@ != oid {
        lemma_first_object_from(objs, oid, k + 1);
    }
}

/// The bridge segment found is the first one.
pub proof fn lemma_first_bridge_from(parts: Seq<Seq<char>>, k: int)
    requires
        0 <= k,
    ensures
        match first_bridge_from(parts, k) {
            Some(i) => k <= i < parts.len() && is_bridge_segment(parts[i]) && forall|j: int|
                k <= j < i ==> !is_bridge_segment(#[trigger] parts[j]),
            None => forall|j: int| k <= j < parts.len() ==> !is_bridge_segment(#[trigger] parts[j]),
        },
    decreases parts.len() - k,
{
    if k < parts.len() && !is_bridge_segment(parts[k]) {
        lemma_first_bridge_from(parts, k + 1);
    }
}

/// The response names the transfer adapter `name`.
pub open spec fn transfer_is(t: Option<String>, name: Seq<char>) -> bool {
    t matches Some(s) && s@ == name
}

/// What a batch response yields for a requested object: a download must not
/// have been given a transfer other than `basic`; the object must be listed,
/// free of errors and of the requested size; its action for the operation is
/// returned, where there is one, but an upload action only where the server
/// selected the `xet` transfer.
pub open spec fn batch_outcome(oid: Seq<char>, size: u64, op: Operation, resp: BatchResponse) -> Result<
    Option<ActionView>,
    GitXetError,
> {
    if op == Operation::Download && !(resp.transfer is None || transfer_is(resp.transfer, "basic"@)) {
        Err(GitXetError::UnexpectedDownloadTransfer)
    } else {
        match first_object_from(resp.objects@, oid, 0) {
            None => Err(GitXetError::ObjectOmitted),
            Some(i) => {
                let obj = resp.objects@[i];
                if obj.error || obj.size != size {
                    Err(GitXetError::ObjectUnavailable)
                } else {
                    let action = match action_index_from(obj.actions@, op.spec_name(), 0) {
                        Some(j) => Some(obj.actions@[j].1@),
                        None => None,
                    };
                    if action is Some && op == Operation::Upload && !transfer_is(
                        resp.transfer,
                        "xet"@,
                    ) {
                        Err(GitXetError::XetUploadNotSelected)
                    } else {
                        Ok(action)
                    }
                }
            },
        }
    }
}

fn transfer_is_exec(t: &Option<String>, name: &str) -> (b: bool)
    ensures
        b == transfer_is(*t, name@),
{
    match t {
        Some(s) => chars_eq(&chars_of(s.as_str()), &chars_of(name)),
        None => false,
    }
}

fn find_object(objs: &Vec<BatchObject>, oid: &String) -> (r: Option<usize>)
    ensures
        match r {
            Some(i) => first_object_from(objs@, oid@, 0) == Some(i as int) && i < objs.len(),
            None => first_object_from(objs@, oid@, 0) is None,
        },
{
    let mut i: usize = 0;
    while i < objs.len()
        invariant
            i <= objs.len(),
            first_object_from(objs@, oid@, 0) == first_object_from(objs@, oid@, i as int),
        decreases objs.len() - i,
    {
        if objs[i].oid == *oid {
            return Some(i);
        }
        i = i + 1;
    }
    None
}

fn find_action(actions: &Vec<(String, GitBatchApiResponseAction)>, name: &str) -> (r: Option<usize>)
    ensures
        match r {
            Some(j) => action_index_from(actions@, name@, 0) == Some(j as int) && j < actions.len(),
            None => action_index_from(actions@, name@, 0) is None,
        },
{
    let want = chars_of(name);
    let mut i: usize = 0;
    while i < actions.len()
        invariant
            i <= actions.len(),
            want@ == name@,
            action_index_from(actions@, name@, 0) == action_index_from(actions@, name@, i as int),
        decreases actions.len() - i,
    {
        if chars_eq(&chars_of(actions[i].0.as_str()), &want) {
            return Some(i);
        }
        i = i + 1;
    }
    None
}

// ---------------------------------------------------------------------------
// Retries after an authentication challenge
/// What to do with the status of a response.
#[derive(Clone, Copy, Debug, PartialEq, Eq, Structural)]
pub enum RequestStep {
    /// Obtain credentials from Git and send the request again.
    RetryWithCredential,
    /// Report the status as an error.
    HttpError,
    /// Read the response.
    Accept,
}

/// A client or server error status.
pub open spec fn is_error_status(status: u16) -> bool {
    400 <= status <= 599
}

/// The step for a response to the request's `attempt`-th sending (from 0):
/// an authentication challenge to the first sending is retried with
/// credentials; any other error status is an error.
pub open spec fn request_step(attempt: u32, status: u16) -> RequestStep {
    if attempt == 0 && status == 401 {
        RequestStep::RetryWithCredential
    } else if is_error_status(status) {
        RequestStep::HttpError
    } else {
        RequestStep::Accept
    }
}

/// The step for a response to the request's `attempt`-th sending (from 0).
pub fn on_response_status(attempt: u32, status: u16) -> (s: RequestStep)
    ensures
        s == request_step(attempt, status),
{
    if attempt == 0 && status == 401 {
        RequestStep::RetryWithCredential
    } else if 400 <= status && status <= 599 {
        RequestStep::HttpError
    } else {
        RequestStep::Accept
    }
}

/// Credentials are asked for only after an authentication challenge to the
/// first sending, so a request is sent at most twice, and a public request
/// never asks for credentials.
pub proof fn lemma_credentials_only_after_challenge(attempt: u32, status: u16)
    ensures
        request_step(attempt, status) == RequestStep::RetryWithCredential ==> attempt == 0 && status
            == 401,
        attempt >= 1 ==> request_step(attempt, status) != RequestStep::RetryWithCredential,
        !is_error_status(status) ==> request_step(attempt, status) == RequestStep::Accept,
{
}

/// The outcome of a request for a CAS read token.
pub enum TokenResult {
    Granted(CasJwtInfo),
    /// The server asked for authentication.
    Unauthorized,
    /// Any other failure.
    Failed,
}

/// What to do after a token request.
#[derive(Clone, Copy, Debug, PartialEq, Eq, Structural)]
pub enum TokenStep {
    /// The token is held; use it.
    Done,
    /// Obtain credentials from Git and ask again.
    RetryWithCredential,
    /// Report the failure.
    Fail,
}

// ---------------------------------------------------------------------------
// Downloads
/// Where a download goes.
pub enum DownloadRoute {
    /// Native Xet reconstruction of the object with this hash.
    Xet { hash: String },
    /// An ordinary HTTP download of the action's URL with its headers.
    Basic { action: GitBatchApiResponseAction },
}

/// `route` is where the action `a` leads: native Xet where its URL is a
/// bridge URL, else an ordinary download of the action itself.
pub open spec fn route_matches(route: DownloadRoute, a: ActionView) -> bool {
    match route {
        DownloadRoute::Xet { hash } => bridge_hash_spec(a.href) == Some(hash@),
        DownloadRoute::Basic { action } => action@ == a && bridge_hash_spec(a.href) is None,
    }
}

/// The bytes received so far after a chunk of `len` more, where that stays
/// within the object's size.
pub open spec fn chunk_step(written: int, len: int, size: int) -> Option<int> {
    if written + len > size {
        None
    } else {
        Some(written + len)
    }
}

/// Bytes received after a whole stream of chunks, starting from `written`.
pub open spec fn stream_outcome(written: int, lens: Seq<int>, size: int) -> Option<int>
    decreases lens.len(),
{
    if lens.len() == 0 {
        Some(written)
    } else {
        match chunk_step(written, lens[0], size) {
            Some(w) => stream_outcome(w, lens.drop_first(), size),
            None => None,
        }
    }
}

/// The sum of the chunk lengths.
pub open spec fn total(lens: Seq<int>) -> int
    decreases lens.len(),
{
    if lens.len() == 0 {
        0
    } else {
        lens[0] + total(lens.drop_first())
    }
}

/// A stream of chunks is accepted exactly when all of it fits in the
/// object's size, and then the count is the total received.
pub proof fn lemma_stream_accepted_iff_fits(written: int, lens: Seq<int>, size: int)
    requires
        written <= size,
        forall|i: int| 0 <= i < lens.len() ==> lens[i] >= 0,
    ensures
        stream_outcome(written, lens, size) == if written + total(lens) <= size {
            Some(written + total(lens))
        } else {
            None::<int>
        },
    decreases lens.len(),
{
    if lens.len() > 0 {
        let rest = lens.drop_first();
        assert forall|i: int| 0 <= i < rest.len() implies rest[i] >= 0 by {
            assert(rest[i] == lens[i + 1]);
        }
        lemma_total_nonneg(rest);
        assert(total(lens) == lens[0] + total(rest));
        if written + lens[0] > size {
            assert(stream_outcome(written, lens, size) == None::<int>);
        } else {
            lemma_stream_accepted_iff_fits(written + lens[0], rest, size);
            assert(stream_outcome(written, lens, size) == stream_outcome(written + lens[0], rest, size));
        }
    }
}

/// The total of non-negative lengths is non-negative.
proof fn lemma_total_nonneg(lens: Seq<int>)
    requires
        forall|i: int| 0 <= i < lens.len() ==> lens[i] >= 0,
    ensures
        total(lens) >= 0,
    decreases lens.len(),
{
    if lens.len() > 0 {
        let rest = lens.drop_first();
        assert forall|i: int| 0 <= i < rest.len() implies rest[i] >= 0 by {
            assert(rest[i] == lens[i + 1]);
        }
        lemma_total_nonneg(rest);
    }
}

/// Counts a received chunk: the new count, or an error where the download
/// would exceed the object's size.
pub fn accept_chunk(written: u64, chunk_len: usize, size: u64) -> (r: Result<u64, GitXetError>)
    ensures
        match r {
            Ok(w) => chunk_step(written as int, chunk_len as int, size as int) == Some(w as int),
            Err(e) => chunk_step(written as int, chunk_len as int, size as int) is None && e
                == GitXetError::DownloadTooLarge,
        },
{
    let len = chunk_len as u64;
    if written > size || len > size - written {
        Err(GitXetError::DownloadTooLarge)
    } else {
        Ok(written + len)
    }
}

// ---------------------------------------------------------------------------
// The client
/// The state of an LFS client: the remote, the LFS endpoint, whether Git's
/// credentials are in use, and the CAS read token once one has been obtained.
pub struct LfsClient {
    remote: GitUrl,
    endpoint: String,
    credential: bool,
    token: Option<CasJwtInfo>,
}

/// The token route of a remote: the Hub's read-token route of the repository
/// on its `main` revision.
pub open spec fn token_route_spec(remote: GitUrlView) -> Result<Seq<char>, GitXetError> {
    match repo_info_of(remote.path) {
        Err(e) => Err(e),
        Ok(info) => match derived_http_host_url(remote) {
            Err(e) => Err(e),
            Ok(host) => Ok(
                host + "/api/"@ + info.0 + "s/"@ + info.1 + "/xet-read-token/main"@,
            ),
        },
    }
}

impl LfsClient {
    /// The remote.
    pub closed spec fn spec_remote(&self) -> GitUrlView {
        self.remote@
    }

    /// The LFS endpoint.
    pub closed spec fn spec_endpoint(&self) -> Seq<char> {
        self.endpoint@
    }

    /// The CAS read token, once obtained.
    pub closed spec fn spec_token(&self) -> Option<CasJwtInfo> {
        self.token
    }

    /// Whether requests are sent with Git's credentials.
    pub closed spec fn spec_credential(&self) -> bool {
        self.credential
    }

    /// A client for `remote`, using `endpoint` as the LFS endpoint, or else the
    /// one Git LFS derives from the remote. The derived endpoint is computed
    /// in either case, so a remote without one is refused even with an
    /// explicit endpoint.
    pub fn new(remote: GitUrl, endpoint: Option<String>) -> (r: Result<LfsClient, GitXetError>)
        ensures
            match r {
                Ok(c) => {
                    &&& default_lfs_endpoint(remote@) is Ok
                    &&& c.spec_remote() == remote@
                    &&& c.spec_endpoint() == match endpoint {
                        Some(e) => e@,
                        None => default_lfs_endpoint(remote@)->Ok_0,
                    }
                    &&& c.spec_token() is None
                    &&& !c.spec_credential()
                },
                Err(e) => default_lfs_endpoint(remote@) == Err::<Seq<char>, GitXetError>(e),
            },
    {
        let default = match remote.to_default_lfs_endpoint() {
            Ok(d) => d,
            Err(e) => return Err(e),
        };
        let endpoint = match endpoint {
            Some(e) => e,
            None => default,
        };
        Ok(LfsClient { remote, endpoint, credential: false, token: None })
    }

    /// The remote.
    pub fn remote(&self) -> (r: &GitUrl)
        ensures
            r@ == self.spec_remote(),
    {
        &self.remote
    }

    /// The LFS endpoint.
    pub fn endpoint(&self) -> (r: &String)
        ensures
            r@ == self.spec_endpoint(),
    {
        &self.endpoint
    }

    /// The URL of the batch API: the endpoint without trailing `/`, then
    /// `/objects/batch`.
    pub fn batch_url(&self) -> (r: String)
        ensures
            r@ == trim_end_char(self.spec_endpoint(), '/') + "/objects/batch"@,
    {
        let base = trim_end_char_exec(&chars_of(self.endpoint.as_str()), '/');
        let all = concat_chars(&base, &chars_of("/objects/batch"));
        string_from_chars(all.as_slice())
    }

    /// The CAS read token, once obtained.
    pub fn token(&self) -> (r: Option<&CasJwtInfo>)
        ensures
            match r {
                Some(t) => self.spec_token() == Some(*t),
                None => self.spec_token() is None,
            },
    {
        match &self.token {
            Some(t) => Some(t),
            None => None,
        }
    }

    /// Whether a CAS read token must still be obtained: once one is held, it
    /// is reused.
    pub fn needs_token(&self) -> (b: bool)
        ensures
            b == self.spec_token() is None,
    {
        self.token.is_none()
    }

    /// The route from which the CAS read token of the remote is refreshed.
    pub fn token_route(&self) -> (r: Result<String, GitXetError>)
        ensures
            match r {
                Ok(s) => token_route_spec(self.spec_remote()) == Ok::<Seq<char>, GitXetError>(
                    s@,
                ),
                Err(e) => token_route_spec(self.spec_remote()) == Err::<Seq<char>, GitXetError>(
                    e,
                ),
            },
    {
        let info = match self.remote.repo_info() {
            Ok(i) => i,
            Err(e) => return Err(e),
        };
        let host = match self.remote.to_derived_http_host_url() {
            Ok(h) => h,
            Err(e) => return Err(e),
        };
        let mut route = concat_chars(&chars_of(host.as_str()), &chars_of("/api/"));
        route = concat_chars(&route, &chars_of(info.repo_type.as_str()));
        route = concat_chars(&route, &chars_of("s/"));
        route = concat_chars(&route, &chars_of(info.full_name.as_str()));
        route = concat_chars(&route, &chars_of("/xet-read-token/main"));
        Ok(string_from_chars(route.as_slice()))
    }

    /// Takes the outcome of the `attempt`-th token request (from 0): a granted
    /// token is kept, an authentication challenge to the first request is
    /// answered with credentials, and anything else fails.
    pub fn on_token_result(&mut self, attempt: u32, result: TokenResult) -> (s: TokenStep)
        ensures
            final(self).spec_remote() == old(self).spec_remote(),
            final(self).spec_endpoint() == old(self).spec_endpoint(),
            final(self).spec_credential() == old(self).spec_credential(),
            match result {
                TokenResult::Granted(info) => s == TokenStep::Done && final(self).spec_token()
                    == Some(info),
                TokenResult::Unauthorized => final(self).spec_token() == old(self).spec_token() && s
                    == if attempt == 0 {
                    TokenStep::RetryWithCredential
                } else {
                    TokenStep::Fail
                },
                TokenResult::Failed => s == TokenStep::Fail && final(self).spec_token() == old(
                    self,
                ).spec_token(),
            },
    {
        match result {
            TokenResult::Granted(info) => {
                self.token = Some(info);
                TokenStep::Done
            },
            TokenResult::Unauthorized => {
                if attempt == 0 {
                    TokenStep::RetryWithCredential
                } else {
                    TokenStep::Fail
                }
            },
            TokenResult::Failed => TokenStep::Fail,
        }
    }

    /// Marks Git's credentials as obtained, after a token request was
    /// challenged: later requests are sent with them.
    pub fn credential_obtained(&mut self)
        ensures
            final(self).spec_credential(),
            final(self).spec_remote() == old(self).spec_remote(),
            final(self).spec_endpoint() == old(self).spec_endpoint(),
            final(self).spec_token() == old(self).spec_token(),
    {
        self.credential = true;
    }

    fn batch_http_request(&self, operation: Operation, oid: &String, size: u64, fill_credential: bool) -> (r: HttpRequest)
        ensures
            is_batch_http_request(r, self.spec_endpoint(), operation, oid@, size, fill_credential),
    {
        let mut transfers: Vec<String> = Vec::new();
        if operation == Operation::Upload {
            transfers.push("xet".to_owned());
        } else {
            transfers.push("basic".to_owned());
        }
        let body = BatchRequest {
            operation: operation.as_str().to_owned(),
            transfers,
            oid: oid.clone(),
            size,
        };
        let mut header: Vec<(String, String)> = Vec::new();
        header.push(("accept".to_owned(), "application/vnd.git-lfs+json".to_owned()));
        header.push(("content-type".to_owned(), "application/vnd.git-lfs+json".to_owned()));
        assert(headers_view(header@) =~= seq![("accept"@, lfs_media_type()), ("content-type"@, lfs_media_type())]);
        HttpRequest {
            method: HttpMethod::Post,
            url: self.batch_url(),
            header,
            body: Some(body),
            fill_credential,
        }
    }

    /// Begins a batch request for one object: the request to send first,
    /// with Git's credentials only where the client already uses them, and
    /// the session that takes the server's replies.
    pub fn batch(&self, req: &TransferRequest, operation: Operation) -> (r: (BatchSession, HttpRequest))
        ensures
            r.0.wf(),
            r.0.spec_phase() == BatchPhase::AwaitingStatus,
            r.0.spec_sent() == 1,
            r.0.spec_operation() == operation,
            r.0.spec_oid() == req.oid@,
            r.0.spec_size() == req.size,
            is_batch_http_request(r.1, self.spec_endpoint(), operation, req.oid@, req.size, self.spec_credential()),
    {
        let request = self.batch_http_request(operation, &req.oid, req.size, self.credential);
        let session = BatchSession {
            operation,
            oid: req.oid.clone(),
            size: req.size,
            sent: 1,
            phase: BatchPhase::AwaitingStatus,
        };
        (session, request)
    }

    /// After the first batch request was challenged and Git's credentials
    /// were obtained: the client uses them from now on, and the request is
    /// sent a second and last time, with them.
    pub fn batch_on_credential(&mut self, session: &mut BatchSession) -> (r: HttpRequest)
        requires
            old(session).wf(),
            old(session).spec_phase() == BatchPhase::AwaitingCredential,
        ensures
            final(self).spec_credential(),
            final(self).spec_remote() == old(self).spec_remote(),
            final(self).spec_endpoint() == old(self).spec_endpoint(),
            final(self).spec_token() == old(self).spec_token(),
            final(session).wf(),
            final(session).spec_phase() == BatchPhase::AwaitingStatus,
            final(session).spec_sent() == 2,
            final(session).spec_operation() == old(session).spec_operation(),
            final(session).spec_oid() == old(session).spec_oid(),
            final(session).spec_size() == old(session).spec_size(),
            is_batch_http_request(
                r,
                old(self).spec_endpoint(),
                old(session).spec_operation(),
                old(session).spec_oid(),
                old(session).spec_size(),
                true,
            ),
    {
        self.credential = true;
        session.sent = 2;
        session.phase = BatchPhase::AwaitingStatus;
        self.batch_http_request(session.operation, &session.oid, session.size, true)
    }

    /// Begins a download: a batch request comes first exactly when Git LFS
    /// negotiated no action; otherwise the negotiated action says where the
    /// object is fetched from.
    pub fn download(req: &TransferRequest) -> (r: (DownloadSession, DownloadStep))
        ensures
            r.0.wf(),
            r.0.spec_oid() == req.oid@,
            r.0.spec_size() == req.size,
            r.0.spec_received() == Seq::<u8>::empty(),
            req.action.href@.len() == 0 ==> r.1 is Batch && r.0.spec_phase() == DownloadPhase::AwaitingBatch,
            req.action.href@.len() != 0 ==> r.0.spec_phase() == DownloadPhase::Fetching,
            req.action.href@.len() != 0 ==> (r.1 matches DownloadStep::Fetch(route) && route_matches(
                route,
                req.action@,
            )),
    {
        let empty = req.action.href.as_str().is_empty();
        let phase = if empty {
            DownloadPhase::AwaitingBatch
        } else {
            DownloadPhase::Fetching
        };
        let session = DownloadSession {
            oid: req.oid.clone(),
            size: req.size,
            phase,
            written: 0,
            received: Ghost(Seq::<u8>::empty()),
            file_len: 0,
            verifier: DownloadVerifier::new(),
        };
        if empty {
            (session, DownloadStep::Batch)
        } else {
            (session, DownloadStep::Fetch(route_of(req.action.duplicate())))
        }
    }
}

/// Where an action leads.
fn route_of(action: GitBatchApiResponseAction) -> (r: DownloadRoute)
    ensures
        route_matches(r, action@),
{
    match bridge_hash(action.href.as_str()) {
        Some(hash) => DownloadRoute::Xet { hash },
        None => DownloadRoute::Basic { action },
    }
}

// ---------------------------------------------------------------------------
// Batch sessions
/// The media type of the batch API.
pub open spec fn lfs_media_type() -> Seq<char> {
    "application/vnd.git-lfs+json"@
}

/// The body of a batch request for one object: uploads offer only the `xet`
/// transfer, downloads only `basic`.
pub open spec fn is_batch_body(b: BatchRequest, op: Operation, oid: Seq<char>, size: u64) -> bool {
    &&& b.operation@ == op.spec_name()
    &&& b.transfers@.len() == 1
    &&& b.transfers@[0]@ == if op == Operation::Upload {
        "xet"@
    } else {
        "basic"@
    }
    &&& b.oid@ == oid
    &&& b.size == size
}

/// A batch request: a POST to `objects/batch` under the endpoint (without its
/// trailing `/`), accepting and sending the LFS media type, with the body for
/// the object, and with Git's credentials exactly when `credential`.
pub open spec fn is_batch_http_request(
    r: HttpRequest,
    endpoint: Seq<char>,
    op: Operation,
    oid: Seq<char>,
    size: u64,
    credential: bool,
) -> bool {
    &&& r.method == HttpMethod::Post
    &&& r.url@ == trim_end_char(endpoint, '/') + "/objects/batch"@
    &&& headers_view(r.header@) == seq![("accept"@, lfs_media_type()), ("content-type"@, lfs_media_type())]
    &&& r.body matches Some(b) && is_batch_body(b, op, oid, size)
    &&& r.fill_credential == credential
}

/// Where a batch exchange stands.
#[derive(Clone, Copy, Debug, PartialEq, Eq, Structural)]
pub enum BatchPhase {
    /// A request was sent; its status is awaited.
    AwaitingStatus,
    /// The first request was challenged; Git's credentials are awaited.
    AwaitingCredential,
    /// The reply was accepted; its parsed body is awaited.
    AwaitingBody,
    /// The exchange is over.
    Finished,
}

/// One batch exchange for one object.
pub struct BatchSession {
    operation: Operation,
    oid: String,
    size: u64,
    sent: u32,
    phase: BatchPhase,
}

impl BatchSession {
    pub closed spec fn spec_operation(&self) -> Operation {
        self.operation
    }

    pub closed spec fn spec_oid(&self) -> Seq<char> {
        self.oid@
    }

    pub closed spec fn spec_size(&self) -> u64 {
        self.size
    }

    /// How many times the request has been sent.
    pub closed spec fn spec_sent(&self) -> u32 {
        self.sent
    }

    pub closed spec fn spec_phase(&self) -> BatchPhase {
        self.phase
    }

    /// The request is sent once or twice, and credentials are awaited only
    /// after the first sending.
    pub closed spec fn wf(&self) -> bool {
        &&& 1 <= self.sent <= 2
        &&& self.phase == BatchPhase::AwaitingCredential ==> self.sent == 1
    }

    /// Where the exchange stands.
    pub fn phase(&self) -> (p: BatchPhase)
        ensures
            p == self.spec_phase(),
    {
        self.phase
    }

    /// How many times the request has been sent: once or twice.
    pub fn sent(&self) -> (n: u32)
        requires
            self.wf(),
        ensures
            n == self.spec_sent(),
            1 <= n <= 2,
    {
        self.sent
    }

    /// Takes the status of the reply to the last sending: a challenge to the
    /// first sending asks for Git's credentials; any other error status ends
    /// the exchange with an error; otherwise the body is read.
    pub fn on_status(&mut self, status: u16) -> (s: RequestStep)
        requires
            old(self).wf(),
            old(self).spec_phase() == BatchPhase::AwaitingStatus,
        ensures
            final(self).wf(),
            s == request_step((old(self).spec_sent() - 1) as u32, status),
            s == RequestStep::RetryWithCredential <==> old(self).spec_sent() == 1 && status == 401,
            final(self).spec_phase() == match s {
                RequestStep::RetryWithCredential => BatchPhase::AwaitingCredential,
                RequestStep::HttpError => BatchPhase::Finished,
                RequestStep::Accept => BatchPhase::AwaitingBody,
            },
            final(self).spec_sent() == old(self).spec_sent(),
            final(self).spec_operation() == old(self).spec_operation(),
            final(self).spec_oid() == old(self).spec_oid(),
            final(self).spec_size() == old(self).spec_size(),
    {
        let s = on_response_status(self.sent - 1, status);
        self.phase = match s {
            RequestStep::RetryWithCredential => BatchPhase::AwaitingCredential,
            RequestStep::HttpError => BatchPhase::Finished,
            RequestStep::Accept => BatchPhase::AwaitingBody,
        };
        s
    }

    /// Takes the parsed body of the accepted reply and ends the exchange with
    /// the action that the response offers for the object, or the reason the
    /// response is refused. Where the object lists several actions under the
    /// operation's name, the first is taken; the keys of a JSON object, from
    /// which the actions come, are distinct.
    pub fn on_body(&mut self, response: BatchResponse) -> (r: Result<Option<GitBatchApiResponseAction>, GitXetError>)
        requires
            old(self).wf(),
            old(self).spec_phase() == BatchPhase::AwaitingBody,
        ensures
            final(self).wf(),
            final(self).spec_phase() == BatchPhase::Finished,
            final(self).spec_sent() == old(self).spec_sent(),
            final(self).spec_operation() == old(self).spec_operation(),
            final(self).spec_oid() == old(self).spec_oid(),
            final(self).spec_size() == old(self).spec_size(),
            match r {
                Ok(Some(a)) => batch_outcome(old(self).spec_oid(), old(self).spec_size(), old(self).spec_operation(), response)
                    == Ok::<Option<ActionView>, GitXetError>(Some(a@)),
                Ok(None) => batch_outcome(old(self).spec_oid(), old(self).spec_size(), old(self).spec_operation(), response)
                    == Ok::<Option<ActionView>, GitXetError>(None),
                Err(e) => batch_outcome(old(self).spec_oid(), old(self).spec_size(), old(self).spec_operation(), response)
                    == Err::<Option<ActionView>, GitXetError>(e),
            },
            r is Ok ==> exists|i: int|
                0 <= i < response.objects@.len() && (#[trigger] response.objects@[i]).oid@
                    == old(self).spec_oid() && response.objects@[i].size == old(self).spec_size()
                    && !response.objects@[i].error,
            r is Ok && old(self).spec_operation() == Operation::Download ==> response.transfer is None
                || transfer_is(response.transfer, "basic"@),
            r matches Ok(Some(_)) && old(self).spec_operation() == Operation::Upload ==> transfer_is(
                response.transfer,
                "xet"@,
            ),
            r matches Ok(Some(a)) ==> ({
                let obj = response.objects@[first_object_from(response.objects@, old(self).spec_oid(), 0)->0];
                action_names_distinct(obj.actions@) ==> forall|k: int|
                    0 <= k < obj.actions@.len() && (#[trigger] obj.actions@[k]).0@
                        == old(self).spec_operation().spec_name() ==> obj.actions@[k].1@ == a@
            }),
    {
        self.phase = BatchPhase::Finished;
        let operation = self.operation;
        let ghost oid = self.oid@;
        let ghost resp = response;
        if operation == Operation::Download && !(response.transfer.is_none() || transfer_is_exec(
            &response.transfer,
            "basic",
        )) {
            return Err(GitXetError::UnexpectedDownloadTransfer);
        }
        let i = match find_object(&response.objects, &self.oid) {
            Some(i) => i,
            None => return Err(GitXetError::ObjectOmitted),
        };
        proof {
            lemma_first_object_from(resp.objects@, oid, 0);
        }
        let is_xet = transfer_is_exec(&response.transfer, "xet");
        let mut objects = response.objects;
        let mut object = objects.remove(i);
        assert(object == resp.objects@[i as int]);
        if object.error || object.size != self.size {
            return Err(GitXetError::ObjectUnavailable);
        }
        let ghost acts = object.actions@;
        let action = match find_action(&object.actions, operation.as_str()) {
            Some(j) => {
                proof {
                    if action_names_distinct(acts) {
                        lemma_action_unique(acts, operation.spec_name());
                    }
                }
                let (_name, a) = object.actions.remove(j);
                Some(a)
            },
            None => None,
        };
        if action.is_some() && operation == Operation::Upload && !is_xet {
            return Err(GitXetError::XetUploadNotSelected);
        }
        Ok(action)
    }
}

/// No two actions are offered under the same name, as in the JSON object
/// they come from.
pub open spec fn action_names_distinct(actions: Seq<(String, GitBatchApiResponseAction)>) -> bool {
    forall|j: int, k: int| 0 <= j < k < actions.len() ==> (#[trigger] actions[j]).0@ != (#[trigger] actions[k]).0@
}

/// Under distinct action names, the action found is the only one under its
/// name.
pub proof fn lemma_action_unique(actions: Seq<(String, GitBatchApiResponseAction)>, name: Seq<char>)
    requires
        action_names_distinct(actions),
    ensures
        action_index_from(actions, name, 0) matches Some(j) ==> forall|k: int|
            0 <= k < actions.len() && (#[trigger] actions[k]).0@ == name ==> k == j,
{
    lemma_action_index_from(actions, name, 0);
}

/// The action found is the first one listed under the name.
pub proof fn lemma_action_index_from(actions: Seq<(String, GitBatchApiResponseAction)>, name: Seq<char>, k: int)
    requires
        0 <= k,
    ensures
        match action_index_from(actions, name, k) {
            Some(j) => k <= j < actions.len() && actions[j].0@ == name && forall|i: int|
                k <= i < j ==> (#[trigger] actions[i]).0@ != name,
            None => forall|i: int| k <= i < actions.len() ==> (#[trigger] actions[i]).0@ != name,
        },
    decreases actions.len() - k,
{
    if k < actions.len() && actions[k].0@ != name {
        lemma_action_index_from(actions, name, k + 1);
    }
}

// ---------------------------------------------------------------------------
// Download sessions
/// What a download does first.
pub enum DownloadStep {
    /// Run a download batch for the object, then hand its outcome to
    /// `DownloadSession::on_batch`.
    Batch,
    /// Fetch the object along this route.
    Fetch(DownloadRoute),
}

/// Where a download stands.
#[derive(Clone, Copy, Debug, PartialEq, Eq, Structural)]
pub enum DownloadPhase {
    /// The outcome of the download batch is awaited.
    AwaitingBatch,
    /// The object is being fetched.
    Fetching,
    /// The stored file is being read back and checked.
    Verifying,
    /// The download is over.
    Finished,
}

/// One download of one object: the bytes received while fetching, and the
/// bytes of the stored file read back for the check.
pub struct DownloadSession {
    oid: String,
    size: u64,
    phase: DownloadPhase,
    written: u64,
    received: Ghost<Seq<u8>>,
    file_len: u64,
    verifier: DownloadVerifier,
}

impl DownloadSession {
    pub closed spec fn spec_oid(&self) -> Seq<char> {
        self.oid@
    }

    pub closed spec fn spec_size(&self) -> u64 {
        self.size
    }

    pub closed spec fn spec_phase(&self) -> DownloadPhase {
        self.phase
    }

    /// The bytes received while fetching, in order.
    pub closed spec fn spec_received(&self) -> Seq<u8> {
        self.received@
    }

    /// The length of the stored file.
    pub closed spec fn spec_file_len(&self) -> u64 {
        self.file_len
    }

    /// The bytes of the stored file read back so far, in order.
    pub closed spec fn spec_read(&self) -> Seq<u8> {
        self.verifier.absorbed()
    }

    /// No more bytes were received than the object has.
    pub closed spec fn wf(&self) -> bool {
        &&& self.written == self.received@.len()
        &&& self.written <= self.size
    }

    /// Where the download stands.
    pub fn phase(&self) -> (p: DownloadPhase)
        ensures
            p == self.spec_phase(),
    {
        self.phase
    }

    /// Takes the outcome of the download batch: its error is the download's
    /// error; a batch without a download action is refused; otherwise the
    /// action says where the object is fetched from.
    pub fn on_batch(&mut self, batched: Result<Option<GitBatchApiResponseAction>, GitXetError>) -> (r: Result<DownloadRoute, GitXetError>)
        requires
            old(self).wf(),
            old(self).spec_phase() == DownloadPhase::AwaitingBatch,
        ensures
            final(self).wf(),
            final(self).spec_oid() == old(self).spec_oid(),
            final(self).spec_size() == old(self).spec_size(),
            final(self).spec_received() == old(self).spec_received(),
            match batched {
                Err(e) => r == Err::<DownloadRoute, GitXetError>(e) && final(self).spec_phase() == DownloadPhase::Finished,
                Ok(None) => r == Err::<DownloadRoute, GitXetError>(GitXetError::DownloadActionOmitted)
                    && final(self).spec_phase() == DownloadPhase::Finished,
                Ok(Some(a)) => r matches Ok(route) && route_matches(route, a@) && final(self).spec_phase()
                    == DownloadPhase::Fetching,
            },
    {
        match batched {
            Err(e) => {
                self.phase = DownloadPhase::Finished;
                Err(e)
            },
            Ok(None) => {
                self.phase = DownloadPhase::Finished;
                Err(GitXetError::DownloadActionOmitted)
            },
            Ok(Some(a)) => {
                self.phase = DownloadPhase::Fetching;
                Ok(route_of(a))
            },
        }
    }

    /// Takes the status of the reply to an ordinary download request: an
    /// error status ends the download.
    pub fn on_status(&mut self, status: u16) -> (ok: bool)
        requires
            old(self).wf(),
            old(self).spec_phase() == DownloadPhase::Fetching,
        ensures
            final(self).wf(),
            ok == !is_error_status(status),
            final(self).spec_phase() == if ok {
                DownloadPhase::Fetching
            } else {
                DownloadPhase::Finished
            },
            final(self).spec_oid() == old(self).spec_oid(),
            final(self).spec_size() == old(self).spec_size(),
            final(self).spec_received() == old(self).spec_received(),
    {
        let ok = !(400 <= status && status <= 599);
        if !ok {
            self.phase = DownloadPhase::Finished;
        }
        ok
    }

    /// Takes the next chunk of an ordinary download: the total received so
    /// far, to be written and reported, or an error where the object would
    /// exceed its size.
    pub fn on_chunk(&mut self, chunk: &[u8]) -> (r: Result<u64, GitXetError>)
        requires
            old(self).wf(),
            old(self).spec_phase() == DownloadPhase::Fetching,
        ensures
            final(self).wf(),
            final(self).spec_oid() == old(self).spec_oid(),
            final(self).spec_size() == old(self).spec_size(),
            match r {
                Ok(w) => {
                    &&& chunk_step(old(self).spec_received().len() as int, chunk@.len() as int, old(self).spec_size() as int)
                        == Some(w as int)
                    &&& w <= old(self).spec_size()
                    &&& final(self).spec_received() == old(self).spec_received() + chunk@
                    &&& w == final(self).spec_received().len()
                    &&& final(self).spec_phase() == DownloadPhase::Fetching
                },
                Err(e) => {
                    &&& chunk_step(old(self).spec_received().len() as int, chunk@.len() as int, old(self).spec_size() as int)
                        is None
                    &&& e == GitXetError::DownloadTooLarge
                    &&& final(self).spec_received() == old(self).spec_received()
                    &&& final(self).spec_phase() == DownloadPhase::Finished
                },
            },
    {
        match accept_chunk(self.written, chunk.len(), self.size) {
            Ok(w) => {
                self.written = w;
                self.received = Ghost(self.received@ + chunk@);
                Ok(w)
            },
            Err(e) => {
                self.phase = DownloadPhase::Finished;
                Err(e)
            },
        }
    }

    /// The object is stored, with `file_len` bytes: a file of another size
    /// ends the download; otherwise the file is read back for the check.
    pub fn on_fetched(&mut self, file_len: u64) -> (r: Result<(), GitXetError>)
        requires
            old(self).wf(),
            old(self).spec_phase() == DownloadPhase::Fetching,
        ensures
            final(self).wf(),
            final(self).spec_oid() == old(self).spec_oid(),
            final(self).spec_size() == old(self).spec_size(),
            final(self).spec_received() == old(self).spec_received(),
            r is Ok <==> file_len == old(self).spec_size(),
            match r {
                Ok(_) => {
                    &&& final(self).spec_phase() == DownloadPhase::Verifying
                    &&& final(self).spec_file_len() == file_len
                    &&& final(self).spec_read() == Seq::<u8>::empty()
                },
                Err(e) => e == GitXetError::IncompleteDownload && final(self).spec_phase()
                    == DownloadPhase::Finished,
            },
    {
        match check_download_size(file_len, self.size) {
            Ok(()) => {
                self.phase = DownloadPhase::Verifying;
                self.file_len = file_len;
                self.verifier = DownloadVerifier::new();
                Ok(())
            },
            Err(e) => {
                self.phase = DownloadPhase::Finished;
                Err(e)
            },
        }
    }

    /// Takes the next bytes of the stored file.
    pub fn on_file_bytes(&mut self, bytes: &[u8])
        requires
            old(self).wf(),
            old(self).spec_phase() == DownloadPhase::Verifying,
        ensures
            final(self).wf(),
            final(self).spec_phase() == DownloadPhase::Verifying,
            final(self).spec_oid() == old(self).spec_oid(),
            final(self).spec_size() == old(self).spec_size(),
            final(self).spec_received() == old(self).spec_received(),
            final(self).spec_file_len() == old(self).spec_file_len(),
            final(self).spec_read() == old(self).spec_read() + bytes@,
    {
        self.verifier.update(bytes);
    }

    /// Ends the download: it succeeds exactly when the stored file has the
    /// object's size and its SHA-256 matches the oid, ignoring ASCII case.
    pub fn finish(self) -> (r: Result<(), GitXetError>)
        requires
            self.wf(),
            self.spec_phase() == DownloadPhase::Verifying,
        ensures
            r == download_check(self.spec_file_len(), self.spec_read(), self.spec_oid(), self.spec_size()),
            r is Ok ==> self.spec_file_len() == self.spec_size() && eq_ignore_ascii_case(
                hex_lower(sha256_of(self.spec_read())),
                self.spec_oid(),
            ),
    {
        if self.file_len != self.size {
            return Err(GitXetError::IncompleteDownload);
        }
        self.verifier.finish(self.oid.as_str())
    }
}


/// The content of the sample transfer request.
pub const TEST_CONTENT: &'static str = "native git-xet download test";

/// A transfer request for `TEST_CONTENT`: its SHA-256 and its size, with no
/// path and no negotiated action.
pub fn request() -> (r: TransferRequest)
    ensures
        r.oid@ == crate::text::hex_lower(
            crate::digest::sha256_of(vstd::string::StringSliceAdditionalSpecFns::spec_bytes(TEST_CONTENT)),
        ),
        r.size == vstd::string::StringSliceAdditionalSpecFns::spec_bytes(TEST_CONTENT).len(),
        r.oid@.len() == 64,
        r.path is None,
        r.action.href@.len() == 0,
        r.action.header@.len() == 0,
{
    let bytes = TEST_CONTENT.as_bytes();
    let oid = sha256_hex(bytes);
    TransferRequest {
        oid: string_from_chars(oid.as_slice()),
        size: bytes.len() as u64,
        path: None,
        action: GitBatchApiResponseAction::empty(),
    }
}

// ---------------------------------------------------------------------------
// Laws of the batch, status, route and token decisions
/// The first object listed with an oid is found.
proof fn lemma_first_object_is_found(objs: Seq<BatchObject>, oid: Seq<char>, m: int, i: int)
    requires
        0 <= m <= i < objs.len(),
        objs[i].oid@ == oid,
        forall|k: int| m <= k < i ==> (#[trigger] objs[k]).oid@ != oid,
    ensures
        first_object_from(objs, oid, m) == Some(i),
    decreases i - m,
{
    if m < i {
        lemma_first_object_is_found(objs, oid, m + 1, i);
    }
}

/// The first action listed under a name is found.
proof fn lemma_first_action_is_found(
    actions: Seq<(String, GitBatchApiResponseAction)>,
    name: Seq<char>,
    m: int,
    j: int,
)
    requires
        0 <= m <= j < actions.len(),
        actions[j].0@ == name,
        forall|k: int| m <= k < j ==> (#[trigger] actions[k]).0@ != name,
    ensures
        action_index_from(actions, name, m) == Some(j),
    decreases j - m,
{
    if m < j {
        lemma_first_action_is_found(actions, name, m + 1, j);
    }
}

/// A batch response that lists the object, without error and with its size,
/// under a transfer the operation allows, yields the action the object lists
/// under the operation's name: a download under `basic` (or no transfer)
/// yields its download action, an upload under `xet` its upload action.
pub proof fn lemma_batch_yields_listed_action(
    oid: Seq<char>,
    size: u64,
    op: Operation,
    resp: BatchResponse,
    i: int,
    j: int,
)
    requires
        0 <= i < resp.objects@.len(),
        resp.objects@[i].oid@ == oid,
        forall|k: int| 0 <= k < i ==> (#[trigger] resp.objects@[k]).oid@ != oid,
        !resp.objects@[i].error,
        resp.objects@[i].size == size,
        0 <= j < resp.objects@[i].actions@.len(),
        resp.objects@[i].actions@[j].0@ == (if op == Operation::Upload {
            "upload"@
        } else {
            "download"@
        }),
        forall|k: int|
            0 <= k < j ==> (#[trigger] resp.objects@[i].actions@[k]).0@ != (if op
                == Operation::Upload {
                "upload"@
            } else {
                "download"@
            }),
        op == Operation::Download ==> resp.transfer is None || (resp.transfer matches Some(t)
            && t@ == "basic"@),
        op == Operation::Upload ==> (resp.transfer matches Some(t) && t@ == "xet"@),
    ensures
        batch_outcome(oid, size, op, resp) == Ok::<Option<ActionView>, GitXetError>(
            Some(resp.objects@[i].actions@[j].1@),
        ),
{
    lemma_first_object_is_found(resp.objects@, oid, 0, i);
    lemma_first_action_is_found(resp.objects@[i].actions@, op.spec_name(), 0, j);
}

/// A batch yields no action only where the object it found lists none under
/// the operation's name.
pub proof fn lemma_batch_none_means_unlisted(oid: Seq<char>, size: u64, op: Operation, resp: BatchResponse)
    requires
        batch_outcome(oid, size, op, resp) == Ok::<Option<ActionView>, GitXetError>(None),
    ensures
        exists|i: int|
            0 <= i < resp.objects@.len() && (#[trigger] resp.objects@[i]).oid@ == oid && forall|k: int|
                0 <= k < resp.objects@[i].actions@.len() ==> (#[trigger] resp.objects@[i].actions@[k]).0@
                    != (if op == Operation::Upload {
                    "upload"@
                } else {
                    "download"@
                }),
{
    lemma_first_object_from(resp.objects@, oid, 0);
    let i = first_object_from(resp.objects@, oid, 0)->0;
    lemma_action_index_from(resp.objects@[i].actions@, op.spec_name(), 0);
    assert(resp.objects@[i].oid@ == oid);
}

/// Every error status other than a challenge to the first sending is an
/// error, on every sending; every other status is accepted, apart from that
/// challenge.
pub proof fn lemma_error_statuses_are_errors(attempt: u32, status: u16)
    ensures
        400 <= status <= 599 && !(attempt == 0 && status == 401) ==> request_step(attempt, status)
            == RequestStep::HttpError,
        !(400 <= status <= 599) ==> request_step(attempt, status) == RequestStep::Accept,
        attempt == 0 && status == 401 ==> request_step(attempt, status) == RequestStep::RetryWithCredential,
{
}

/// An action whose URL carries a Xet hash is routed to native Xet with that
/// hash; only an action without one is downloaded as it is.
pub proof fn lemma_route_follows_bridge_hash(route: DownloadRoute, a: ActionView)
    requires
        route_matches(route, a),
    ensures
        bridge_hash_spec(a.href) matches Some(h) ==> (route matches DownloadRoute::Xet { hash } && hash@
            == h),
        bridge_hash_spec(a.href) is None ==> (route matches DownloadRoute::Basic { action } && action@ == a),
{
}

/// The token route names the repository's type in the plural, whatever the
/// type: `/api/models/`, `/api/datasets/` or `/api/spaces/`, then the
/// repository's full name and the `main` revision.
pub proof fn lemma_token_route_is_plural(remote: GitUrlView)
    requires
        token_route_spec(remote) is Ok,
    ensures
        ({
            let route = token_route_spec(remote)->Ok_0;
            let host = derived_http_host_url(remote)->Ok_0;
            let info = repo_info_of(remote.path)->Ok_0;
            &&& derived_http_host_url(remote) is Ok
            &&& repo_info_of(remote.path) is Ok
            &&& info.0 == "model"@ || info.0 == "dataset"@ || info.0 == "space"@
            &&& route == host + "/api/"@ + info.0 + seq!['s', '/'] + info.1 + "/xet-read-token/main"@
        }),
{
    reveal_strlit("s/");
    let segs = crate::git_url::repo_segments(remote.path);
    if segs.len() == 3 && crate::git_url::repo_type_prefix(segs[0]) is Some {
        assert(crate::git_url::repo_type_prefix(segs[0])->0 == "dataset"@
            || crate::git_url::repo_type_prefix(segs[0])->0 == "space"@
            || crate::git_url::repo_type_prefix(segs[0])->0 == "model"@);
    }
    assert("s/"@ =~= seq!['s', '/']);
}

} // verus!
