# ghelpr

A command-line helper for GitHub pull requests: it prints the review threads
of a pull request as JSON (full details, or a brief summary with `-s`), and the
Copilot premium-request quota of the signed-in account.

- `src/` is the verified library. `remote` finds the owner and repository from a
  git remote URL; `auth` chooses the API token and session cookie; `graphql`
  builds each page request and takes in each response; `threads` shapes the
  review threads into their summary or full form and selects the unresolved
  ones; `quota` reads the entitlement endpoint's status and writes the quota
  report; `text` holds the character-level string operations they share.
- `app/main.rs` is the program around it: arguments, environment, processes,
  HTTP, JSON.
- `tests/` exercises the library.
