# pemasak_infra

A self-hosted platform that builds and runs web projects from `git push`:
a git HTTP server, a build queue that turns a pushed repository into a
container (with its own Postgres database, network and volume), a reverse
proxy from each project's subdomain to its container, accounts, owner
groups and a web terminal.

## Layout

- `src/` is the library, verified with Verus. It holds the rules of the
  service: the git wire format and routes, naming of repositories and
  containers, validation, passwords and tokens, the settings, and the
  procedures (creating and deleting projects, building and deploying,
  registering, inviting, stopping, the terminal session) written as state
  machines from state and event to next state and action. Each public
  function states its result in its contract; the properties that span
  several functions are stated and proved as public proof functions.
- `app/` is the server around the library: the HTTP routes, the database
  queries, the Docker and git calls and the loops that drive the library's
  state machines by carrying out each action and handing back the event.
- `tests/` runs the library on concrete values.
