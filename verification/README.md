# tofuya

Decides how OpenTofu/Terraform working directories are initialised against
state backends hosted on GitLab, which state a directory is using, and where
state-listing plugins come from.

- `src/` is the library, verified with Verus: the user and project
  configuration (`base::config`, `outbound::project_config`), the
  `init`/`status`/`clean` decisions (`domain::tofu::service`), the commands
  that are run (`outbound::tofu_cli`), the plugin artifact pull
  (`outbound::downloader`), and the tables and component building of the
  command-line interface (`inbound::cli`). Calls into `url`, `oci-client`,
  `sha2`, `hex` and `wit-component` stand behind the trusted items in
  `base::address`, `outbound::downloader`, `base::digest` and
  `base::component`.
- `app/` is the program: argument parsing, files, the SQLite metadata
  database, the registry client, the WebAssembly plugin runtime and its
  HTTP proxy. It performs what the library decides.
- `tests/` exercises the library.
