# ticktick-cli

A command-line client for the TickTick Open API, whose core is verified with
Verus.

- `src/` is the library, every function of it verified:
  - `args.rs`: the command-line grammar (groups, commands, options, required
    options, number options, help and version requests, error messages);
  - `cli.rs`: the parsed command line, its JSON input, and what each command
    does (an API request, or the OAuth authorize URL to print);
  - `api.rs`: one request builder per endpoint, and the URL of a request;
  - `config.rs`: the base URLs and the OAuth authorize URL;
  - `http.rs`: the headers and payload a request is sent with, and what an
    answer means;
  - `address.rs`, `text.rs`, `json.rs`, `output.rs`, `error.rs`: URL and query
    text, decimal text and integer reading, JSON values, pretty-printing, errors;
  - `decoding.rs`: reading a query string back, as `form_urlencoded::parse` does;
  - `laws.rs`, `roundtrip.rs`: properties of the library as a whole, such as
    reading back a written command line.
- `app/` is the program: environment, files, standard input, the HTTP exchange
  (reqwest and tokio), and clap's help and version texts.
- `tests/` holds the tests.

The calls into `serde_json`, `url` and `base64` stand in the library behind
small trusted wrappers whose contracts say what each call does. The command-line
grammar follows clap's reading of the same command line, messages included;
`tests/clap_agreement.rs` holds the two against each other.
