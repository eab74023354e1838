# archivr

A Tumblr backup tool. It fetches every post of a blog and writes each one as a
self-contained HTML page (or as raw JSON), optionally with its images saved
next to it, and can resume an interrupted backup.

## Layout

- `src/` is the verified library (Verus). It holds the logic of the tool with
  its contracts and laws:
  - `lib.rs`: the OAuth callback request parser and the error type;
  - `cmd.rs`, `config.rs`: command-line values and the resolution of a run's settings;
  - `job.rs`, `state.rs`: the resumable job record and the backup record;
  - `auth.rs`: token expiry and the steps of the authentication flow;
  - `post.rs`: the post model; `images.rs`: image URL collection, local file
    names, the URL map and the rewriting of posts;
  - `template.rs`: the default template and the default HTML of each block;
  - `value.rs`, `context.rs`: the values templates see, and the HTML a block
    value renders to;
  - `render.rs`: the post renderer, which runs a template with minijinja;
  - `backup.rs`: page linking, output locations and the messages of a run;
  - `text.rs`, `path.rs`: character and path helpers.
- `tests/` exercises the library.
- `app/` is the program around it: argument parsing, the Tumblr API, the
  browser and callback socket, downloads and file I/O.
