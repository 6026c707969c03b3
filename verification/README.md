# maxima

The download logic of the Maxima game launcher, verified with Verus.

- `src/decimal.rs`: decimal rendering of integers into strings.
- `src/zip.rs`: the entries of a remote zip archive's central directory.
- `src/downloader.rs`: per-entry download decisions, byte-range headers, the downloader.
- `src/stream.rs`: the byte-counting response stream and the shared writer wrapper.
- `src/manager.rs`: the content manager and its download queue.
- `src/downloads_view.rs`: the names the downloads view lists for the install queue.
- `src/resources.rs`: the version properties of the Windows resource script.
- `app/`: HTTP, files, the queue file, the egui view and the Windows resources.
