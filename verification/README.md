# torizon-cloud-cli

An unofficial command-line client for the Torizon Cloud (Torizon OTA v2) REST
API, whose decision-making core is verified with Verus.

- `src/` is the verified library. Every subcommand is planned there as the
  API request to make (method, path, query, body), the question to ask before
  a destructive call, and how the reply is presented; the library also holds
  profile selection, the token cache rules, the HTTP 420 retry policy, reply
  judgement, table and `key: value` rendering, update-history flattening and
  the `updates watch` decision step. Contracts are stated over mathematical
  models (`Seq`, `Map`, `JsonV`), and the laws that tie operations together
  (a login is found again by name, a recorded token is served while fresh,
  retries are bounded, JSON mode prints one document, ...) are proof
  functions named `law_*`.
- `app/` is the program around it: `clap` argument parsing, the credentials
  and token-cache files, HTTP with `reqwest`, terminal prompts and printing.
- `tests/` runs the library on concrete values.

Calls into outside crates that stay in the library (`serde_json` string
quoting, reply parsing and pretty printing, `dirs::config_dir`, the system clock, `String::push`) sit behind
small trusted wrappers whose contracts are documented where they are declared.
