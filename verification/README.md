# sidex

The request handling, content negotiation and menu layout of the SideX
desktop shell, verified with Verus.

- `src/` is the verified library:
  - `percent`: percent-decoding of request paths;
  - `request`: the path part of a request URL, relative to the served directory;
  - `mime`: the content-type table and the caching policy;
  - `serve`: the decisions taken for one request, as a state machine that the
    caller drives with what it finds on disk;
  - `http`: the reply headers as `tiny_http` headers;
  - `server`: the server's loopback address and URL;
  - `menu`: the menu bar layout and the script that forwards a menu click.
- `app/` holds the parts that do I/O: the HTTP server loop and the Tauri
  application shell.
- `tests/` runs the library on concrete values.
