# files_sdk

A client library for the Files.com REST API, verified with Verus.

- `src/` is the verified library. It describes every API call as a value
  (`request::ApiCall`: method, path with its query, and payload), prepares
  requests (`client::FilesClient::prepare`), maps HTTP responses to results and
  errors (`client::handle_response`), encodes file paths
  (`utils::encode_path`), plans the stages of an upload
  (`files::files::FileHandler::plan_upload`), walks paginated folder listings
  (`files::folders::FolderWalk`), and formats what the interceptors log and
  record. Contracts state each result over spec functions; the proof functions
  (`lemma_*`) state the laws that relate several functions.
- `app/` is the asynchronous layer around it: it sends the described requests
  with `reqwest`, reads responses into the entities (with `serde`), moves file
  data, walks directories, and plugs the interceptors into
  `reqwest_middleware`.
- `tests/` runs the library on concrete values.
