# figshare_rs

A client for the Figshare research-data repository API, split in two:

- `src/` is the verified library (Verus). It holds the data models, the
  metadata and query builders with the exact JSON payloads and query pairs
  they produce, DOI normalization, error-body decoding, the request policy
  (which hosts get credentials, the authorization header, download tokens,
  where a created resource lives), the tolerant readings of loosely typed wire
  values, the choice of articles, versions and files out of listings, and the
  workflows as state machines: file reconciliation, publishing with draft
  cleanup, hosted uploads, file pagination and polling.
- `app/` is the asynchronous HTTP client around it: it sends the requests,
  decodes JSON with serde, reads and writes files, sleeps between polls, and
  performs the calls that the library's state machines ask for.

Modules of the library:

| module | contents |
| --- | --- |
| `text` | character-level helpers: trimming, ASCII case, decimal rendering and parsing |
| `json` | a JSON value model, its compact text (strings quoted by `serde_json`), and object updates |
| `ids` | identifier newtypes and DOI normalization and validation |
| `error` | the error type and the decoding of error responses |
| `fieldmap` | custom metadata fields as a map ordered by name |
| `metadata` | defined types and the article metadata builder and payload |
| `query` | article list and search queries |
| `model` | article, file, version and upload-session models |
| `wire` | what loosely typed wire values mean |
| `access` | request policy and response locations |
| `urls` | endpoints, base URLs, locations, part URLs and download tokens |
| `resolve` | choosing articles, versions and files; file pagination |
| `upload` | upload sources and replacement policies |
| `checksum` | MD5 and size of an upload |
| `transfer` | hosted upload parts and the upload sequence |
| `workflow` | upload-name validation, file reconciliation, the publish sequence |
| `poll` | polling decisions and backoff |
| `repository` | the shared repository-client traits for the models |
| `drafts` | the draft view of an article for those traits |
