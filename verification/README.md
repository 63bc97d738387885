# imgupload

The verified core of an image-upload web service. Clients send images as
multipart files, as Base64 data URLs inside a JSON request, or as addresses
to download; the service crops each to a 100x100 preview and answers with the
previews as data URLs in a JSON array.

- `src/` is the library, verified with Verus: what to do with each request
  entry (`upload`), data URLs and Base64 (`data_url`), the JSON request and
  answer (`json`), path names (`paths`), text helpers (`text`), answers and
  limits of the multipart endpoint (`messages`), the proxy configuration
  (`config`) and the constants and crop steps of the libvips bindings (`vips`).
- `app/` is the Rocket server around it: routes, files, downloads and the
  native libvips and OpenCV calls.
- `tests/` runs the library on concrete values.
