//! Git remotes: which URLs are accepted, the Hub repository they name, and
//! the HTTP endpoints derived from them.
use vstd::prelude::*;

use crate::errors::GitXetError;
use crate::text::{
    chars_of, concat_chars, decimal, decimal_exec, ends_with, ends_with_exec, split_char,
    split_char_exec, starts_with, string_from_chars, strip_suffix, strip_suffix_exec, suffix_from,
    trim_end_char, trim_end_char_exec, views,
};
use crate::url::{parse_url, url_parse, UrlPartsView};

verus! {

/// The transport of a Git remote.
#[derive(Clone, Copy, Debug, PartialEq, Eq, Structural)]
pub enum Scheme {
    File,
    Git,
    Ssh,
    Http,
    Https,
}

/// A Git remote given as an absolute URL.
pub struct GitUrl {
    pub scheme: Scheme,
    /// The host, empty where the URL has none.
    pub host: String,
    /// The explicit port, where it is not the scheme's default.
    pub port: Option<u16>,
    /// The percent-encoded path.
    pub path: String,
}

/// The abstract value of a [`GitUrl`].
pub struct GitUrlView {
    pub scheme: Scheme,
    pub host: Seq<char>,
    pub port: Option<u16>,
    pub path: Seq<char>,
}

impl View for GitUrl {
    type V = GitUrlView;

    open spec fn view(&self) -> GitUrlView {
        GitUrlView { scheme: self.scheme, host: self.host@, port: self.port, path: self.path@ }
    }
}

/// The Hub repository that a remote names.
pub struct RepoInfo {
    /// `model`, `dataset` or `space`.
    pub repo_type: String,
    /// `owner/name`.
    pub full_name: String,
}

/// The transport named by a URL scheme, if it is one of Git's.
pub open spec fn scheme_from(name: Seq<char>) -> Option<Scheme> {
    if name == "http"@ {
        Some(Scheme::Http)
    } else if name == "https"@ {
        Some(Scheme::Https)
    } else if name == "ssh"@ || name == "git+ssh"@ || name == "ssh+git"@ {
        Some(Scheme::Ssh)
    } else if name == "git"@ {
        Some(Scheme::Git)
    } else if name == "file"@ {
        Some(Scheme::File)
    } else {
        None
    }
}

/// The remote that a parsed URL names, where its scheme is one of Git's; a
/// URL without a host gets an empty host.
pub open spec fn git_url_from_parts(parts: UrlPartsView) -> Option<GitUrlView> {
    match scheme_from(parts.0) {
        Some(scheme) => Some(
            GitUrlView {
                scheme,
                host: match parts.1 {
                    Some(h) => h,
                    None => Seq::<char>::empty(),
                },
                port: parts.2,
                path: parts.3,
            },
        ),
        None => None,
    }
}

/// The remote that `s` names: an absolute URL whose scheme is one of Git's.
pub open spec fn git_url_of(s: Seq<char>) -> Option<GitUrlView> {
    match url_parse(s) {
        Some(parts) => git_url_from_parts(parts),
        None => None,
    }
}

/// The scheme written in an HTTP URL.
pub open spec fn http_scheme_name(scheme: Scheme) -> Seq<char> {
    if scheme == Scheme::Http {
        "http"@
    } else {
        "https"@
    }
}

/// The Hub host of a remote, as an HTTP URL without a path: the remote's own
/// scheme, host and port for HTTP remotes, `https` and the host for SSH and
/// Git remotes.
pub open spec fn derived_http_host_url(u: GitUrlView) -> Result<Seq<char>, GitXetError> {
    match u.scheme {
        Scheme::Http | Scheme::Https => Ok(
            http_scheme_name(u.scheme) + "://"@ + u.host + match u.port {
                Some(p) => seq![':'] + decimal(p as nat),
                None => Seq::<char>::empty(),
            },
        ),
        Scheme::Ssh | Scheme::Git => Ok("https://"@ + u.host),
        Scheme::File => Err(GitXetError::NoHttpEndpoint),
    }
}

/// The LFS endpoint that Git LFS uses for a remote by default: the HTTP form
/// of the remote's URL, with `.git/info/lfs` appended, or only `/info/lfs`
/// where the path already ends in `.git`.
pub open spec fn default_lfs_endpoint(u: GitUrlView) -> Result<Seq<char>, GitXetError> {
    match derived_http_host_url(u) {
        Ok(host) => {
            let path = trim_end_char(u.path, '/');
            Ok(
                host + path + if ends_with(path, ".git"@) {
                    "/info/lfs"@
                } else {
                    ".git/info/lfs"@
                },
            )
        },
        Err(e) => Err(e),
    }
}

/// The HTTP host of an HTTP remote keeps its scheme, host and port: it is
/// `SCHEME://HOST`, followed by `:` and digits that read back as the port
/// where the remote names one; the default LFS endpoint begins with it.
pub proof fn lemma_derived_host_keeps_port(u: GitUrlView)
    requires
        u.scheme == Scheme::Http || u.scheme == Scheme::Https,
    ensures
        derived_http_host_url(u) is Ok,
        default_lfs_endpoint(u) is Ok,
        ({
            let host = derived_http_host_url(u)->Ok_0;
            let head = http_scheme_name(u.scheme) + "://"@ + u.host;
            &&& u.port is None ==> host == head
            &&& u.port matches Some(p) ==> exists|d: Seq<char>|
                host == head + seq![':'] + d && crate::text::decimal_value(d) == p as int && d.len() > 0
                    && forall|i: int| 0 <= i < d.len() ==> '0' <= #[trigger] d[i] <= '9'
            &&& default_lfs_endpoint(u)->Ok_0.take(host.len() as int) == host
        }),
{
    let host = derived_http_host_url(u)->Ok_0;
    let head = http_scheme_name(u.scheme) + "://"@ + u.host;
    match u.port {
        Some(p) => {
            crate::text::lemma_decimal_reads_back(p as nat);
            let d = decimal(p as nat);
            assert(host == head + seq![':'] + d);
        },
        None => {
            assert(host =~= head);
        },
    }
    let path = trim_end_char(u.path, '/');
    let tail = if ends_with(path, ".git"@) {
        "/info/lfs"@
    } else {
        ".git/info/lfs"@
    };
    assert(default_lfs_endpoint(u)->Ok_0 == host + path + tail);
    assert((host + path + tail).take(host.len() as int) =~= host);
}

/// The segments of a repository path, without leading and trailing `/`.
pub open spec fn repo_segments(path: Seq<char>) -> Seq<Seq<char>> {
    let p = if starts_with(path, seq!['/']) {
        path.skip(1)
    } else {
        path
    };
    split_char(trim_end_char(p, '/'), '/')
}

/// A repository name without its `.git` suffix.
pub open spec fn strip_git(name: Seq<char>) -> Seq<char> {
    match strip_suffix(name, ".git"@) {
        Some(n) => n,
        None => name,
    }
}

/// The repository type named by a leading path segment, if any.
pub open spec fn repo_type_prefix(seg: Seq<char>) -> Option<Seq<char>> {
    if seg == "datasets"@ {
        Some("dataset"@)
    } else if seg == "spaces"@ {
        Some("space"@)
    } else if seg == "models"@ {
        Some("model"@)
    } else {
        None
    }
}

/// The Hub repository named by a remote path: `[TYPEs/]OWNER/NAME[.git]`,
/// as a type and `OWNER/NAME`; a path without a type prefix names a model.
pub open spec fn repo_info_of(path: Seq<char>) -> Result<(Seq<char>, Seq<char>), GitXetError> {
    let segs = repo_segments(path);
    let typed = segs.len() == 3 && repo_type_prefix(segs[0]) is Some;
    let rest = if typed {
        segs.skip(1)
    } else {
        segs
    };
    let repo_type = if typed {
        repo_type_prefix(segs[0])->0
    } else {
        "model"@
    };
    if rest.len() == 2 && rest[0].len() > 0 && strip_git(rest[1]).len() > 0 {
        Ok((repo_type, rest[0].push('/') + strip_git(rest[1])))
    } else {
        Err(GitXetError::InvalidRepoPath)
    }
}

/// Whether two character vectors are equal.
pub fn chars_eq(a: &Vec<char>, b: &Vec<char>) -> (r: bool)
    ensures
        r == (a@ == b@),
{
    if a.len() != b.len() {
        return false;
    }
    let mut i: usize = 0;
    while i < a.len()
        invariant
            a.len() == b.len(),
            i <= a.len(),
            forall|j: int| 0 <= j < i ==> a@[j] == b@[j],
        decreases a.len() - i,
    {
        if a[i] != b[i] {
            return false;
        }
        i = i + 1;
    }
    assert(a@ =~= b@);
    true
}

/// The transport named by a URL scheme.
pub fn scheme_from_exec(name: &String) -> (r: Option<Scheme>)
    ensures
        r == scheme_from(name@),
{
    let n = chars_of(name.as_str());
    if chars_eq(&n, &chars_of("http")) {
        Some(Scheme::Http)
    } else if chars_eq(&n, &chars_of("https")) {
        Some(Scheme::Https)
    } else if chars_eq(&n, &chars_of("ssh")) || chars_eq(&n, &chars_of("git+ssh")) || chars_eq(
        &n,
        &chars_of("ssh+git"),
    ) {
        Some(Scheme::Ssh)
    } else if chars_eq(&n, &chars_of("git")) {
        Some(Scheme::Git)
    } else if chars_eq(&n, &chars_of("file")) {
        Some(Scheme::File)
    } else {
        None
    }
}

/// The repository type named by a leading path segment.
fn repo_type_prefix_exec(seg: &Vec<char>) -> (r: Option<Vec<char>>)
    ensures
        match r {
            Some(t) => repo_type_prefix(seg@) == Some(t@),
            None => repo_type_prefix(seg@) is None,
        },
{
    if chars_eq(seg, &chars_of("datasets")) {
        Some(chars_of("dataset"))
    } else if chars_eq(seg, &chars_of("spaces")) {
        Some(chars_of("space"))
    } else if chars_eq(seg, &chars_of("models")) {
        Some(chars_of("model"))
    } else {
        None
    }
}

impl std::str::FromStr for GitUrl {
    type Err = GitXetError;

    /// The same as [`GitUrl::parse`].
    fn from_str(s: &str) -> (r: Result<GitUrl, GitXetError>)
        ensures
            match r {
                Ok(u) => git_url_of(s@) == Some(u@),
                Err(e) => git_url_of(s@) is None && e == GitXetError::InvalidGitUrl,
            },
    {
        GitUrl::parse(s)
    }
}

impl GitUrl {
    /// Parses a remote URL: an absolute URL whose scheme is `http`, `https`,
    /// `ssh` (or `git+ssh`, `ssh+git`), `git` or `file`.
    pub fn parse(s: &str) -> (r: Result<GitUrl, GitXetError>)
        ensures
            match r {
                Ok(u) => git_url_of(s@) == Some(u@),
                Err(e) => git_url_of(s@) is None && e == GitXetError::InvalidGitUrl,
            },
    {
        match parse_url(s) {
            Some((scheme_name, host, port, path)) => GitUrl::from_parts(&scheme_name, host, port, path),
            None => Err(GitXetError::InvalidGitUrl),
        }
    }

    /// The remote that a parsed URL (scheme, host, port, path) names: its
    /// scheme must be one of Git's.
    pub fn from_parts(scheme_name: &String, host: Option<String>, port: Option<u16>, path: String) -> (r: Result<
        GitUrl,
        GitXetError,
    >)
        ensures
            match r {
                Ok(u) => git_url_from_parts((scheme_name@, host.deep_view(), port, path@)) == Some(u@),
                Err(e) => git_url_from_parts((scheme_name@, host.deep_view(), port, path@)) is None && e
                    == GitXetError::InvalidGitUrl,
            },
    {
        match scheme_from_exec(scheme_name) {
            Some(scheme) => {
                let host = match host {
                    Some(h) => h,
                    None => String::new(),
                };
                Ok(GitUrl { scheme, host, port, path })
            },
            None => Err(GitXetError::InvalidGitUrl),
        }
    }

    /// The transport of this remote.
    pub fn scheme(&self) -> (s: Scheme)
        ensures
            s == self.scheme,
    {
        self.scheme
    }

    /// The Hub host of this remote as an HTTP URL without a path.
    pub fn to_derived_http_host_url(&self) -> (r: Result<String, GitXetError>)
        ensures
            match r {
                Ok(s) => derived_http_host_url(self@) == Ok::<Seq<char>, GitXetError>(s@),
                Err(e) => derived_http_host_url(self@) == Err::<Seq<char>, GitXetError>(e),
            },
    {
        let v = self.derived_http_host_chars();
        match v {
            Ok(c) => Ok(string_from_chars(c.as_slice())),
            Err(e) => Err(e),
        }
    }

    fn derived_http_host_chars(&self) -> (r: Result<Vec<char>, GitXetError>)
        ensures
            match r {
                Ok(s) => derived_http_host_url(self@) == Ok::<Seq<char>, GitXetError>(s@),
                Err(e) => derived_http_host_url(self@) == Err::<Seq<char>, GitXetError>(e),
            },
    {
        let host = chars_of(self.host.as_str());
        match self.scheme {
            Scheme::Http | Scheme::Https => {
                let name = if self.scheme == Scheme::Http {
                    chars_of("http")
                } else {
                    chars_of("https")
                };
                let head = concat_chars(&concat_chars(&name, &chars_of("://")), &host);
                match self.port {
                    Some(p) => {
                        let mut colon: Vec<char> = Vec::new();
                        colon.push(':');
                        let port = concat_chars(&colon, &decimal_exec(p as u64));
                        assert(colon@ =~= seq![':']);
                        Ok(concat_chars(&head, &port))
                    },
                    None => {
                        assert(head@ + Seq::<char>::empty() =~= head@);
                        Ok(head)
                    },
                }
            },
            Scheme::Ssh | Scheme::Git => Ok(concat_chars(&chars_of("https://"), &host)),
            Scheme::File => Err(GitXetError::NoHttpEndpoint),
        }
    }

    /// The LFS endpoint that Git LFS derives from this remote.
    pub fn to_default_lfs_endpoint(&self) -> (r: Result<String, GitXetError>)
        ensures
            match r {
                Ok(s) => default_lfs_endpoint(self@) == Ok::<Seq<char>, GitXetError>(s@),
                Err(e) => default_lfs_endpoint(self@) == Err::<Seq<char>, GitXetError>(e),
            },
    {
        match self.derived_http_host_chars() {
            Ok(host) => {
                let path = trim_end_char_exec(&chars_of(self.path.as_str()), '/');
                let tail = if ends_with_exec(&path, &chars_of(".git")) {
                    chars_of("/info/lfs")
                } else {
                    chars_of(".git/info/lfs")
                };
                let all = concat_chars(&concat_chars(&host, &path), &tail);
                Ok(string_from_chars(all.as_slice()))
            },
            Err(e) => Err(e),
        }
    }

    /// The Hub repository that this remote names.
    pub fn repo_info(&self) -> (r: Result<RepoInfo, GitXetError>)
        ensures
            match r {
                Ok(info) => repo_info_of(self.path@) == Ok::<(Seq<char>, Seq<char>), GitXetError>(
                    (info.repo_type@, info.full_name@),
                ),
                Err(e) => repo_info_of(self.path@) == Err::<(Seq<char>, Seq<char>), GitXetError>(e),
            },
    {
        let path = chars_of(self.path.as_str());
        let p = if path.len() > 0 && path[0] == '/' {
            assert(path@.take(1) =~= seq!['/']);
            suffix_from(&path, 1)
        } else {
            assert(path@.len() > 0 ==> path@.take(1)[0] != '/');
            path
        };
        let segs = split_char_exec(&trim_end_char_exec(&p, '/'), '/');
        let ghost sv = views(segs@);
        assert(sv == repo_segments(self.path@));
        let mut first: usize = 0;
        let mut repo_type = chars_of("model");
        if segs.len() == 3 {
            match repo_type_prefix_exec(&segs[0]) {
                Some(t) => {
                    first = 1;
                    repo_type = t;
                },
                None => {},
            }
        }
        if segs.len() - first != 2 {
            return Err(GitXetError::InvalidRepoPath);
        }
        let owner = &segs[first];
        let name = &segs[first + 1];
        let base = match strip_suffix_exec(name, &chars_of(".git")) {
            Some(b) => b,
            None => name.clone(),
        };
        assert(first == 1 ==> sv.skip(1)[0] == sv[1] && sv.skip(1)[1] == sv[2]);
        if owner.len() == 0 || base.len() == 0 {
            return Err(GitXetError::InvalidRepoPath);
        }
        let mut slash: Vec<char> = Vec::new();
        slash.push('/');
        let full = concat_chars(&concat_chars(owner, &slash), &base);
        assert(owner@ + slash@ =~= owner@.push('/'));
        Ok(RepoInfo {
            repo_type: string_from_chars(repo_type.as_slice()),
            full_name: string_from_chars(full.as_slice()),
        })
    }
}

} // verus!
