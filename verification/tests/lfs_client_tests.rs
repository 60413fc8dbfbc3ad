use git_xet::digest::{check_download_size, DownloadVerifier};
use git_xet::lfs_client::remote_from_git_url;
use git_xet::lfs_client::{BatchPhase, DownloadPhase, DownloadSession, DownloadStep};
use git_xet::protocol::HttpMethod;
use git_xet::errors::{ErrorKind, GitXetError};
use git_xet::git_url::{GitUrl, Scheme};
use git_xet::lfs_client::{
    accept_chunk, bridge_hash, bridge_hash_from_path, on_response_status, remote_from_lfs_url,
    request, DownloadRoute, LfsClient, RequestStep, TokenResult, TokenStep, TEST_CONTENT,
};
use git_xet::protocol::{
    BatchObject, BatchResponse, CasJwtInfo, GitBatchApiResponseAction, Operation, TransferRequest,
};

const CONTENT_SHA256: &str = "8620e863b40c4fc3a7c6d6d0fed99d7094ad1502ec8192a71242f4aeeb71d196";

fn client(endpoint: &str) -> LfsClient {
    let remote: GitUrl = format!("{endpoint}/user/repo.git").parse().unwrap();
    LfsClient::new(remote, None).unwrap()
}

fn object(oid: &str, size: u64, actions: Vec<(String, GitBatchApiResponseAction)>) -> BatchObject {
    BatchObject { oid: oid.to_string(), size, error: false, actions }
}

fn action(href: &str) -> GitBatchApiResponseAction {
    GitBatchApiResponseAction { href: href.to_string(), header: Vec::new() }
}

/// Runs a batch exchange whose first reply is accepted.
fn respond(
    req: &TransferRequest,
    operation: Operation,
    resp: BatchResponse,
) -> Result<Option<GitBatchApiResponseAction>, GitXetError> {
    let c = client("http://127.0.0.1:9");
    let (mut session, _request) = c.batch(req, operation);
    assert_eq!(session.on_status(200), RequestStep::Accept);
    session.on_body(resp)
}

fn copy(req: &TransferRequest) -> TransferRequest {
    TransferRequest {
        oid: req.oid.clone(),
        size: req.size,
        path: req.path.clone(),
        action: req.action.duplicate(),
    }
}

#[test]
fn bridge_urls_and_endpoint_validation() {
    let hash = "ab".repeat(32);
    for host in ["cas-bridge.xethub.hf.co", "us.aws.cdn.hf.co"] {
        assert_eq!(bridge_hash(&format!("https://{host}/xet-bridge-us/repo/{hash}?signed=secret")), Some(hash.clone()));
    }
    assert_eq!(bridge_hash("https://example.com/objects/file"), None);
    assert_eq!(bridge_hash("https://example.com/xet-bridge-us/repo/not-a-hash"), None);
    assert!(remote_from_lfs_url("file:///tmp/repo/info/lfs").is_err());
    assert!(remote_from_lfs_url("https://huggingface.co/user/repo").is_err());
    let remote = remote_from_lfs_url("https://huggingface.co/datasets/user/repo.git/info/lfs/").unwrap();
    assert_eq!(remote.repo_info().unwrap().full_name, "user/repo");
}

#[test]
fn lfs_url_errors_name_the_cause() {
    assert_eq!(remote_from_lfs_url("file:///tmp/repo/info/lfs").err(), Some(GitXetError::LfsUrlScheme));
    assert_eq!(remote_from_lfs_url("https://huggingface.co/user/repo").err(), Some(GitXetError::LfsUrlSuffix));
    assert_eq!(remote_from_lfs_url("not a url/info/lfs").err(), Some(GitXetError::InvalidGitUrl));
    assert_eq!(GitXetError::LfsUrlSuffix.message(), "--lfs-url must end in /info/lfs");
    assert_eq!(GitXetError::LfsUrlScheme.kind(), ErrorKind::Config);
    assert_eq!(GitXetError::XetUploadNotSelected.kind(), ErrorKind::NotSupported);
    assert_eq!(GitXetError::ObjectOmitted.kind(), ErrorKind::Internal);
}

#[test]
fn lfs_url_trailing_slashes_are_ignored() {
    let a = remote_from_lfs_url("http://127.0.0.1:8080/user/repo.git/info/lfs").unwrap();
    let b = remote_from_lfs_url("http://127.0.0.1:8080/user/repo.git/info/lfs///").unwrap();
    assert_eq!(a.scheme(), Scheme::Http);
    assert_eq!(a.host, b.host);
    assert_eq!(a.port, Some(8080));
    assert_eq!(a.path, "/user/repo.git");
    assert_eq!(a.path, b.path);
}

#[test]
fn git_url_parts_and_derived_urls() {
    let u = GitUrl::parse("https://huggingface.co/datasets/user/repo.git").unwrap();
    assert_eq!(u.scheme(), Scheme::Https);
    assert_eq!(u.host, "huggingface.co");
    assert_eq!(u.port, None);
    assert_eq!(u.path, "/datasets/user/repo.git");
    assert_eq!(u.to_derived_http_host_url().unwrap(), "https://huggingface.co");
    assert_eq!(u.to_default_lfs_endpoint().unwrap(), "https://huggingface.co/datasets/user/repo.git/info/lfs");
    let info = u.repo_info().unwrap();
    assert_eq!(info.repo_type, "dataset");
    assert_eq!(info.full_name, "user/repo");

    let u = GitUrl::parse("http://127.0.0.1:4321/user/repo").unwrap();
    assert_eq!(u.to_derived_http_host_url().unwrap(), "http://127.0.0.1:4321");
    assert_eq!(u.to_default_lfs_endpoint().unwrap(), "http://127.0.0.1:4321/user/repo.git/info/lfs");
    assert_eq!(u.repo_info().unwrap().repo_type, "model");

    let u = GitUrl::parse("HTTPS://Example.COM:443/spaces/owner/app/").unwrap();
    assert_eq!(u.scheme(), Scheme::Https);
    assert_eq!(u.host, "example.com");
    assert_eq!(u.port, None);
    assert_eq!(u.to_default_lfs_endpoint().unwrap(), "https://example.com/spaces/owner/app.git/info/lfs");
    assert_eq!(u.repo_info().unwrap().repo_type, "space");
    assert_eq!(u.repo_info().unwrap().full_name, "owner/app");

    let u = GitUrl::parse("ssh://git@hf.co:2222/user/repo.git").unwrap();
    assert_eq!(u.scheme(), Scheme::Ssh);
    assert_eq!(u.to_derived_http_host_url().unwrap(), "https://hf.co");
    assert_eq!(u.to_default_lfs_endpoint().unwrap(), "https://hf.co/user/repo.git/info/lfs");

    let u = GitUrl::parse("file:///tmp/repo").unwrap();
    assert_eq!(u.scheme(), Scheme::File);
    assert_eq!(u.to_derived_http_host_url().err(), Some(GitXetError::NoHttpEndpoint));
    assert_eq!(u.to_default_lfs_endpoint().err(), Some(GitXetError::NoHttpEndpoint));

    assert_eq!(GitUrl::parse("mailto:someone@example.com").err(), Some(GitXetError::InvalidGitUrl));
    assert_eq!(GitUrl::parse("").err(), Some(GitXetError::InvalidGitUrl));
    let bare = GitUrl::parse("https://huggingface.co/").unwrap();
    assert_eq!(bare.repo_info().err(), Some(GitXetError::InvalidRepoPath));
    let deep = GitUrl::parse("https://huggingface.co/a/b/c/d").unwrap();
    assert_eq!(deep.repo_info().err(), Some(GitXetError::InvalidRepoPath));
}

#[test]
fn bridge_hash_takes_the_second_segment_after_the_bridge() {
    let hash = "0123456789abcdefABCDEF".repeat(3)[..64].to_string();
    assert_eq!(bridge_hash_from_path(&format!("/xet-bridge-eu/repo/{hash}")), Some(hash.clone()));
    assert_eq!(bridge_hash_from_path(&format!("/a/xet-bridge-eu/repo/{hash}/tail")), Some(hash.clone()));
    assert_eq!(bridge_hash_from_path(&format!("/xet-bridge-eu/{hash}")), None);
    assert_eq!(bridge_hash_from_path(&format!("/xet-bridge-eu/repo/{}", &hash[..63])), None);
    assert_eq!(bridge_hash_from_path(&format!("/xet-bridge-eu/repo/{hash}0")), None);
    assert_eq!(bridge_hash_from_path(&format!("/xet-bridge-eu/repo/{}g", &hash[..63])), None);
    // Only the first bridge segment counts.
    assert_eq!(bridge_hash_from_path(&format!("/xet-bridge-a/x/y/xet-bridge-b/repo/{hash}")), None);
    assert_eq!(bridge_hash_from_path(&format!("xet-bridge-eu/repo/{hash}")), None);
    assert_eq!(bridge_hash("not a url"), None);
}

#[test]
fn sample_request_is_the_content_digest() {
    let req = request();
    assert_eq!(req.oid, CONTENT_SHA256);
    assert_eq!(req.size, TEST_CONTENT.len() as u64);
    assert_eq!(req.size, 28);
    assert!(req.path.is_none());
    assert!(req.action.href.is_empty());
    assert!(req.action.header.is_empty());
}

#[test]
fn batch_checks_objects_and_skips_existing_uploads() {
    let req = request();
    // The server echoes the objects without actions: nothing to upload.
    let echo = || BatchResponse {
        transfer: Some("basic".to_string()),
        objects: vec![object(&req.oid, req.size, Vec::new())],
    };
    assert!(respond(&req, Operation::Upload, echo()).unwrap().is_none());
    // A download of the same object finds no action.
    let batched = respond(&req, Operation::Download, echo()).unwrap();
    assert!(batched.is_none());
    let (mut session, step) = LfsClient::download(&req);
    assert!(matches!(step, DownloadStep::Batch));
    assert_eq!(session.phase(), DownloadPhase::AwaitingBatch);
    let error = session.on_batch(Ok(batched)).err().unwrap();
    assert_eq!(session.phase(), DownloadPhase::Finished);
    assert_eq!(error, GitXetError::DownloadActionOmitted);
    assert!(error.message().contains("omitted"));
}

#[test]
fn batch_refusals() {
    let req = request();
    let with_download = || vec![("download".to_string(), action("https://example.com/file"))];
    // Download with a transfer other than basic.
    let resp = BatchResponse { transfer: Some("xet".to_string()), objects: vec![object(&req.oid, req.size, with_download())] };
    assert_eq!(respond(&req, Operation::Download, resp).err(), Some(GitXetError::UnexpectedDownloadTransfer));
    // Object missing.
    let resp = BatchResponse { transfer: None, objects: vec![object(&"00".repeat(32), req.size, with_download())] };
    assert_eq!(respond(&req, Operation::Download, resp).err(), Some(GitXetError::ObjectOmitted));
    // Size mismatch.
    let resp = BatchResponse { transfer: None, objects: vec![object(&req.oid, req.size + 1, with_download())] };
    assert_eq!(respond(&req, Operation::Download, resp).err(), Some(GitXetError::ObjectUnavailable));
    // Error reported for the object.
    let mut failed = object(&req.oid, req.size, with_download());
    failed.error = true;
    let resp = BatchResponse { transfer: None, objects: vec![failed] };
    assert_eq!(respond(&req, Operation::Download, resp).err(), Some(GitXetError::ObjectUnavailable));
    // Upload action without the xet transfer.
    let upload = vec![("upload".to_string(), action("https://example.com/up"))];
    let resp = BatchResponse { transfer: Some("basic".to_string()), objects: vec![object(&req.oid, req.size, upload)] };
    assert_eq!(respond(&req, Operation::Upload, resp).err(), Some(GitXetError::XetUploadNotSelected));
}

#[test]
fn batch_returns_the_action_of_the_operation() {
    let req = request();
    let actions = vec![
        ("upload".to_string(), action("https://example.com/up")),
        ("download".to_string(), action("https://example.com/down")),
    ];
    let resp = BatchResponse {
        transfer: None,
        objects: vec![object(&"11".repeat(32), 3, Vec::new()), object(&req.oid, req.size, actions)],
    };
    let a = respond(&req, Operation::Download, resp).unwrap().unwrap();
    assert_eq!(a.href, "https://example.com/down");
    let actions = vec![("upload".to_string(), action("http://127.0.0.1/unused-refresh"))];
    let resp = BatchResponse { transfer: Some("xet".to_string()), objects: vec![object(&req.oid, req.size, actions)] };
    let a = respond(&req, Operation::Upload, resp).unwrap().unwrap();
    assert_eq!(a.href, "http://127.0.0.1/unused-refresh");
}

#[test]
fn batch_request_and_url() {
    let req = request();
    let c = client("http://127.0.0.1:9");
    assert_eq!(c.endpoint(), "http://127.0.0.1:9/user/repo.git/info/lfs");
    assert_eq!(c.batch_url(), "http://127.0.0.1:9/user/repo.git/info/lfs/objects/batch");
    let remote = GitUrl::parse("http://127.0.0.1:9/user/repo.git").unwrap();
    let c = LfsClient::new(remote, Some("https://lfs.example.com/x/info/lfs//".to_string())).unwrap();
    assert_eq!(c.batch_url(), "https://lfs.example.com/x/info/lfs/objects/batch");
    let c = client("http://127.0.0.1:9");
    let (session, request) = c.batch(&req, Operation::Upload);
    assert_eq!(session.sent(), 1);
    assert_eq!(session.phase(), BatchPhase::AwaitingStatus);
    assert_eq!(request.method, HttpMethod::Post);
    assert_eq!(request.url, "http://127.0.0.1:9/user/repo.git/info/lfs/objects/batch");
    assert_eq!(
        request.header,
        vec![
            ("accept".to_string(), "application/vnd.git-lfs+json".to_string()),
            ("content-type".to_string(), "application/vnd.git-lfs+json".to_string()),
        ]
    );
    assert!(!request.fill_credential);
    let body = request.body.unwrap();
    assert_eq!(body.operation, "upload");
    assert_eq!(body.transfers, vec!["xet".to_string()]);
    assert_eq!(body.oid, req.oid);
    assert_eq!(body.size, req.size);
    let (_, request) = c.batch(&req, Operation::Download);
    let body = request.body.unwrap();
    assert_eq!(body.operation, "download");
    assert_eq!(body.transfers, vec!["basic".to_string()]);
    // A local remote has no derived endpoint, even when one is given.
    let local = GitUrl::parse("file:///tmp/repo").unwrap();
    assert_eq!(LfsClient::new(local, Some("https://x/info/lfs".to_string())).err(), Some(GitXetError::NoHttpEndpoint));
}

#[test]
fn authentication_challenges_are_retried_once() {
    assert_eq!(on_response_status(0, 401), RequestStep::RetryWithCredential);
    assert_eq!(on_response_status(1, 401), RequestStep::HttpError);
    assert_eq!(on_response_status(0, 200), RequestStep::Accept);
    assert_eq!(on_response_status(1, 200), RequestStep::Accept);
    assert_eq!(on_response_status(0, 404), RequestStep::HttpError);
    assert_eq!(on_response_status(0, 503), RequestStep::HttpError);
    assert_eq!(on_response_status(0, 302), RequestStep::Accept);
}

#[test]
fn read_token_retries_once_then_caches() {
    let mut c = client("http://127.0.0.1:9");
    assert_eq!(c.token_route().unwrap(), "http://127.0.0.1:9/api/models/user/repo/xet-read-token/main");
    assert!(c.token().is_none());
    assert_eq!(c.on_token_result(0, TokenResult::Unauthorized), TokenStep::RetryWithCredential);
    assert!(c.token().is_none());
    let info = CasJwtInfo { cas_url: "http://cas".to_string(), access_token: "test".to_string(), exp: 4102444800 };
    assert_eq!(c.on_token_result(1, TokenResult::Granted(info)), TokenStep::Done);
    assert_eq!(c.token().unwrap().access_token, "test");
    assert_eq!(c.token().unwrap().exp, 4102444800);
    let mut d = client("http://127.0.0.1:9");
    assert_eq!(d.on_token_result(1, TokenResult::Unauthorized), TokenStep::Fail);
    assert_eq!(d.on_token_result(0, TokenResult::Failed), TokenStep::Fail);
    assert!(d.token().is_none());
    let dataset = LfsClient::new(GitUrl::parse("https://huggingface.co/datasets/user/repo.git").unwrap(), None).unwrap();
    assert_eq!(dataset.token_route().unwrap(), "https://huggingface.co/api/datasets/user/repo/xet-read-token/main");
}

#[test]
fn download_routes() {
    let hash = "ab".repeat(32);
    let mut req = request();
    req.action = GitBatchApiResponseAction {
        href: "http://127.0.0.1:9/file?signature=secret".to_string(),
        header: vec![("authorization".to_string(), "Bearer action-token".to_string())],
    };
    // A negotiated action is used as it is, with no batch.
    let (session, step) = LfsClient::download(&req);
    assert_eq!(session.phase(), DownloadPhase::Fetching);
    match step {
        DownloadStep::Fetch(DownloadRoute::Basic { action }) => {
            assert_eq!(action.href, "http://127.0.0.1:9/file?signature=secret");
            assert_eq!(action.header, vec![("authorization".to_string(), "Bearer action-token".to_string())]);
        },
        _ => panic!("an ordinary download without a batch"),
    }
    // Without one, the batch comes first; a bridge URL goes to native Xet.
    let plain = request();
    let (mut session, step) = LfsClient::download(&plain);
    assert!(matches!(step, DownloadStep::Batch));
    let batched = action(&format!("https://unused.invalid/xet-bridge-us/repo/{hash}"));
    match session.on_batch(Ok(Some(batched))).unwrap() {
        DownloadRoute::Xet { hash: h } => assert_eq!(h, hash),
        DownloadRoute::Basic { .. } => panic!("a bridge URL"),
    }
    assert_eq!(session.phase(), DownloadPhase::Fetching);
    // The batch's own error is the download's error.
    let (mut session, _) = LfsClient::download(&plain);
    assert_eq!(session.on_batch(Err(GitXetError::ObjectOmitted)).err(), Some(GitXetError::ObjectOmitted));
    let copied = copy(&req);
    assert_eq!(copied.action.header.len(), 1);
}

/// Streams `chunks` through a basic download of `req`, stores them, and
/// checks the stored bytes.
fn run_basic(req: &TransferRequest, status: u16, chunks: &[&[u8]]) -> (Result<(), GitXetError>, Vec<u64>) {
    let (mut session, step) = LfsClient::download(req);
    assert!(matches!(step, DownloadStep::Fetch(DownloadRoute::Basic { .. })));
    let mut progress = Vec::new();
    if !session.on_status(status) {
        return (Err(GitXetError::ObjectUnavailable), progress);
    }
    let mut stored: Vec<u8> = Vec::new();
    for chunk in chunks {
        match session.on_chunk(chunk) {
            Ok(w) => {
                stored.extend_from_slice(chunk);
                progress.push(w);
            },
            Err(e) => return (Err(e), progress),
        }
    }
    (verify_stored(session, &stored), progress)
}

fn verify_stored(mut session: DownloadSession, stored: &[u8]) -> Result<(), GitXetError> {
    session.on_fetched(stored.len() as u64)?;
    for part in stored.chunks(7) {
        session.on_file_bytes(part);
    }
    session.finish()
}

#[test]
fn basic_download_preserves_action_headers_and_verifies_content() {
    let content = TEST_CONTENT.as_bytes();
    let mut base = request();
    base.action = GitBatchApiResponseAction {
        href: "http://127.0.0.1:9/file?signature=secret".to_string(),
        header: vec![("authorization".to_string(), "Bearer action-token".to_string())],
    };
    for (oid, size, ok) in [
        (base.oid.clone(), base.size, true),
        ("00".repeat(32), base.size, false),
        (base.oid.clone(), base.size + 1, false),
        (base.oid.clone(), base.size - 1, false),
    ] {
        let req = TransferRequest { oid, size, ..copy(&base) };
        let (result, progress) = run_basic(&req, 200, &[&content[..10], &content[10..]]);
        assert_eq!(result.is_ok(), ok, "{result:?}");
        assert!(progress.iter().all(|w| *w <= size));
        if let Err(error) = result {
            assert!(!error.message().contains("secret"));
        }
    }
    let (result, _) = run_basic(&base, 200, &[content]);
    assert_eq!(result, Ok(()));
    let upper = TransferRequest { oid: base.oid.to_uppercase(), ..copy(&base) };
    assert_eq!(run_basic(&upper, 200, &[content]).0, Ok(()));
    let wrong = TransferRequest { oid: "00".repeat(32), ..copy(&base) };
    assert_eq!(run_basic(&wrong, 200, &[content]).0, Err(GitXetError::ShaMismatch));
    let long = TransferRequest { size: base.size + 1, ..copy(&base) };
    assert_eq!(run_basic(&long, 200, &[content]).0, Err(GitXetError::IncompleteDownload));
    let short = TransferRequest { size: base.size - 1, ..copy(&base) };
    let (result, progress) = run_basic(&short, 200, &[&content[..10], &content[10..]]);
    assert_eq!(result, Err(GitXetError::DownloadTooLarge));
    assert_eq!(progress, vec![10]);
    let (result, _) = run_basic(&base, 401, &[content]);
    assert!(result.is_err());
}

#[test]
fn verifier_checks_read_content() {
    let content = TEST_CONTENT.as_bytes();
    let req = request();
    assert_eq!(check_download_size(28, req.size), Ok(()));
    assert_eq!(check_download_size(27, req.size), Err(GitXetError::IncompleteDownload));
    let mut v = DownloadVerifier::new();
    v.update(&content[..5]);
    v.update(&content[5..]);
    assert_eq!(v.finish(&req.oid), Ok(()));
}

#[test]
fn error_messages_hold_no_secret() {
    let all = [
        GitXetError::LfsUrlSuffix,
        GitXetError::LfsUrlScheme,
        GitXetError::InvalidGitUrl,
        GitXetError::NoHttpEndpoint,
        GitXetError::InvalidRepoPath,
        GitXetError::UnexpectedDownloadTransfer,
        GitXetError::ObjectOmitted,
        GitXetError::ObjectUnavailable,
        GitXetError::XetUploadNotSelected,
        GitXetError::DownloadActionOmitted,
        GitXetError::DownloadTooLarge,
        GitXetError::IncompleteDownload,
        GitXetError::ShaMismatch,
    ];
    for e in all {
        assert!(!e.message().contains("secret"));
        assert!(!e.message().is_empty());
    }
}

#[test]
fn batch_retries_once_with_credentials() {
    let req = request();
    let mut c = client("http://127.0.0.1:9");
    let (mut session, first) = c.batch(&req, Operation::Download);
    assert!(!first.fill_credential);
    assert_eq!(session.on_status(401), RequestStep::RetryWithCredential);
    assert_eq!(session.phase(), BatchPhase::AwaitingCredential);
    let second = c.batch_on_credential(&mut session);
    assert!(second.fill_credential);
    assert_eq!(second.url, first.url);
    assert_eq!(session.sent(), 2);
    // A challenge to the second sending is an error.
    assert_eq!(session.on_status(401), RequestStep::HttpError);
    assert_eq!(session.phase(), BatchPhase::Finished);
    // Later batches use the credentials from the start.
    let (mut session, again) = c.batch(&req, Operation::Download);
    assert!(again.fill_credential);
    assert_eq!(session.on_status(500), RequestStep::HttpError);
    // A client that obtained credentials for a token request sends them from the first batch request.
    let mut d = client("http://127.0.0.1:9");
    d.credential_obtained();
    let (_, r) = d.batch(&req, Operation::Upload);
    assert!(r.fill_credential);
}

#[test]
fn chunks_are_counted_against_the_size() {
    assert_eq!(accept_chunk(0, 10, 28), Ok(10));
    assert_eq!(accept_chunk(10, 18, 28), Ok(28));
    assert_eq!(accept_chunk(10, 19, 28), Err(GitXetError::DownloadTooLarge));
    assert_eq!(accept_chunk(28, 0, 28), Ok(28));
    assert_eq!(accept_chunk(29, 0, 28), Err(GitXetError::DownloadTooLarge));
    assert_eq!(accept_chunk(u64::MAX - 1, usize::MAX, u64::MAX), Err(GitXetError::DownloadTooLarge));
}

#[test]
fn remotes_from_parsed_parts() {
    let u = GitUrl::from_parts(&"https".to_string(), Some("hf.co".to_string()), Some(8443), "/user/repo.git".to_string()).unwrap();
    assert_eq!(u.scheme(), Scheme::Https);
    assert_eq!(u.host, "hf.co");
    assert_eq!(u.port, Some(8443));
    assert_eq!(u.path, "/user/repo.git");
    let f = GitUrl::from_parts(&"file".to_string(), None, None, "/tmp/repo".to_string()).unwrap();
    assert_eq!(f.scheme(), Scheme::File);
    assert_eq!(f.host, "");
    let s = GitUrl::from_parts(&"git+ssh".to_string(), Some("h".to_string()), None, "/r".to_string()).unwrap();
    assert_eq!(s.scheme(), Scheme::Ssh);
    assert_eq!(
        GitUrl::from_parts(&"mailto".to_string(), None, None, "x".to_string()).err(),
        Some(GitXetError::InvalidGitUrl)
    );
    assert_eq!(remote_from_git_url(f).err(), Some(GitXetError::LfsUrlScheme));
    assert_eq!(remote_from_git_url(s).err(), Some(GitXetError::LfsUrlScheme));
    let kept = remote_from_git_url(u).unwrap();
    assert_eq!(kept.host, "hf.co");
    assert_eq!(kept.port, Some(8443));
}

#[test]
fn token_is_fetched_once_then_reused() {
    let mut c = client("http://127.0.0.1:9");
    assert!(c.needs_token());
    let info = CasJwtInfo { cas_url: "http://cas".to_string(), access_token: "test".to_string(), exp: 1 };
    assert_eq!(c.on_token_result(0, TokenResult::Granted(info)), TokenStep::Done);
    assert!(!c.needs_token());
    assert!(!c.needs_token());
    assert_eq!(c.token().unwrap().access_token, "test");
}

#[test]
fn bridge_hash_ignores_host_and_query() {
    let hash = "cd".repeat(32);
    let a = bridge_hash(&format!("https://cas-bridge.xethub.hf.co/xet-bridge-us/repo/{hash}?signed=one"));
    let b = bridge_hash(&format!("http://example.org:8080/xet-bridge-us/repo/{hash}?x=2&y=3"));
    assert_eq!(a, Some(hash.clone()));
    assert_eq!(a, b);
}

#[test]
fn operation_names() {
    assert_eq!(Operation::Upload.as_str(), "upload");
    assert_eq!(Operation::Download.as_str(), "download");
}
