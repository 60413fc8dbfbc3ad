//! The messages of the Git LFS batch API and of the transfer-agent protocol,
//! held as plain values.
use vstd::prelude::*;

verus! {

/// The direction of a transfer.
#[derive(Clone, Copy, Debug, PartialEq, Eq, Structural)]
pub enum Operation {
    Upload,
    Download,
}

impl Operation {
    /// The name of the operation in the batch API.
    pub open spec fn spec_name(self) -> Seq<char> {
        match self {
            Operation::Upload => "upload"@,
            Operation::Download => "download"@,
        }
    }

    /// The name of the operation in the batch API.
    pub fn as_str(&self) -> (s: &'static str)
        ensures
            s@ == self.spec_name(),
    {
        match self {
            Operation::Upload => "upload",
            Operation::Download => "download",
        }
    }
}

/// An action of a batch response: where to send or fetch the object, and the
/// headers to send with the request.
pub struct GitBatchApiResponseAction {
    pub href: String,
    pub header: Vec<(String, String)>,
}

/// The abstract value of an action.
pub struct ActionView {
    pub href: Seq<char>,
    pub header: Seq<(Seq<char>, Seq<char>)>,
}

/// The abstract value of a list of headers.
pub open spec fn headers_view(h: Seq<(String, String)>) -> Seq<(Seq<char>, Seq<char>)> {
    h.map_values(|p: (String, String)| (p.0@, p.1@))
}

impl View for GitBatchApiResponseAction {
    type V = ActionView;

    open spec fn view(&self) -> ActionView {
        ActionView { href: self.href@, header: headers_view(self.header@) }
    }
}

impl GitBatchApiResponseAction {
    /// An action with no href and no headers.
    pub fn empty() -> (a: GitBatchApiResponseAction)
        ensures
            a.href@ == Seq::<char>::empty(),
            a.header@.len() == 0,
    {
        GitBatchApiResponseAction { href: String::new(), header: Vec::new() }
    }

    /// A copy of this action.
    pub fn duplicate(&self) -> (a: GitBatchApiResponseAction)
        ensures
            a@ == self@,
    {
        let mut header: Vec<(String, String)> = Vec::new();
        let mut i: usize = 0;
        while i < self.header.len()
            invariant
                i <= self.header.len(),
                headers_view(header@) == headers_view(self.header@.take(i as int)),
            decreases self.header.len() - i,
        {
            let ghost old_h = header@;
            let k = self.header[i].0.clone();
            let v = self.header[i].1.clone();
            header.push((k, v));
            assert(headers_view(header@) =~= headers_view(old_h).push(
                (self.header@[i as int].0@, self.header@[i as int].1@),
            ));
            assert(self.header@.take(i + 1) =~= self.header@.take(i as int).push(
                self.header@[i as int],
            ));
            assert(headers_view(self.header@.take(i + 1)) =~= headers_view(
                self.header@.take(i as int),
            ).push((self.header@[i as int].0@, self.header@[i as int].1@)));
            i = i + 1;
        }
        assert(self.header@.take(self.header.len() as int) =~= self.header@);
        GitBatchApiResponseAction { href: self.href.clone(), header }
    }
}

/// One object of a transfer request from Git LFS.
pub struct TransferRequest {
    /// The object's SHA-256, in hexadecimal.
    pub oid: String,
    /// The object's size in bytes.
    pub size: u64,
    /// Where the object is read from (uploads).
    pub path: Option<String>,
    /// The action that Git LFS already negotiated; its href is empty when
    /// there is none.
    pub action: GitBatchApiResponseAction,
}

/// One object of a batch response.
pub struct BatchObject {
    pub oid: String,
    pub size: u64,
    /// Whether the server reported an error for this object.
    pub error: bool,
    /// The actions offered for the object, by operation name.
    pub actions: Vec<(String, GitBatchApiResponseAction)>,
}

/// A batch response: the transfer adapter the server chose, if any, and the
/// objects.
pub struct BatchResponse {
    pub transfer: Option<String>,
    pub objects: Vec<BatchObject>,
}

/// The body of a batch request.
pub struct BatchRequest {
    pub operation: String,
    pub transfers: Vec<String>,
    pub oid: String,
    pub size: u64,
}

/// The method of an HTTP request.
#[derive(Clone, Copy, Debug, PartialEq, Eq, Structural)]
pub enum HttpMethod {
    Get,
    Post,
}

/// An HTTP request for the caller to send: method, URL, headers, the batch
/// body where there is one, and whether Git's credentials are applied.
pub struct HttpRequest {
    pub method: HttpMethod,
    pub url: String,
    pub header: Vec<(String, String)>,
    pub body: Option<BatchRequest>,
    pub fill_credential: bool,
}

/// A CAS read token: the CAS endpoint, the token, and its expiry time.
pub struct CasJwtInfo {
    pub cas_url: String,
    pub access_token: String,
    pub exp: u64,
}

} // verus!
