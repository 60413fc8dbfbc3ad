# git_xet

The verified core of a Git LFS transfer client for Xet storage, written in
Verus. The library takes the client's decisions; the requests, file I/O and
Xet reconstruction are done by its caller.

- `src/lfs_client.rs`: the `--lfs-url` check, bridge-URL hashes, the batch
  exchange (`LfsClient::batch` and `BatchSession`: request, retry with
  credentials, response), the read-token route, its fetch with retry and its
  reuse (`needs_token`), the download
  (`LfsClient::download` and `DownloadSession`: batch or route, streaming
  bound, size and SHA-256 check of the stored file), and the laws that relate
  them.
- `src/git_url.rs`: Git remotes, the Hub repository they name and the HTTP
  endpoints derived from them.
- `src/digest.rs`: SHA-256 through `sha2` and the content check of a download.
- `src/url.rs`: absolute URLs through `url` (re-exported by `reqwest`).
- `src/protocol.rs`, `src/errors.rs`, `src/text.rs`: messages, errors and
  character-sequence helpers.
- `app/lib.rs`: the HTTP client (reqwest), JSON, files, credentials and the
  Xet services, around the library.
