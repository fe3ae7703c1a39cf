# image_host

An image hosting service whose decisions are verified with Verus.

- `src/` is the verified library:
  - `naming`: which file names count as images (last dot-separated piece
    is `jpg`, `jpeg`, `png`, `gif` or `webp`);
  - `paths`: storage locations `/root/image/<type>/<id>/<name>` and the
    decimal notation of ids;
  - `responses`: the JSON bodies and replies, and the failure messages;
  - `upload`: the upload protocol as a state machine (checks on each file,
    the four-file limit, the directory listing, the writes, the reply);
  - `download`: the directory download (ZIP archive) and preview protocol,
    single-file download and deletion replies;
  - `archive`: the ZIP archive assembly through `async_zip`;
  - `storage`: a model of the stored directories and files, how the
    sessions' actions act on it, and laws over successive requests
    (upload then download, preview or single-file download; deletion then
    download or a second deletion; a file deletion undoing an upload).
- `app/` is the HTTP server (poem / poem-openapi on tokio): it carries out
  the file system and network work that the library's sessions ask for.
- `tests/` runs the library on concrete inputs.
