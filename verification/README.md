# codex_update

Verified logic behind a coding assistant's update prompt and account list:

- `src/update_action.rs` — which update fits an installation, the program
  and arguments that run it, and its shell-quoted command line.
- `src/distribution.rs` — repackaged-distribution settings, the GitHub
  `owner/repo` slug read from a repository URL, and the version and URLs
  derived from them.
- `src/account_list.rs` — title and usage lines of a stored account.
- `src/text.rs` — character-sequence helpers shared by the above.

`app/` reads the process environment and the local clock and passes the
values to the library.
