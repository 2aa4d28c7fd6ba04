# articles

The verified core of a small article platform: an HTTP endpoint where readers
submit GitHub repositories, and background workers that import article
metadata from GitHub and render articles. Endpoint and workers talk through
job queues kept in Redis.

- `src/` is the library, verified with Verus:
  - `config`: the Redis section of the configuration file, checked for
    designations served twice, and the lookup of a designation's instance.
  - `shared`: Redis designations and access descriptions, command-line
    arguments, environment variable names, and the job payload types.
  - `job_worker`: the Redis job queue and the worker pool's steps. Producers and workers get the exact
    commands to send; `protocol` models what Redis does with them and proves
    the queue's properties (deduplicated scheduling, oldest job first, a stored
    result is what polling returns, a finished job can be scheduled again).
  - `article_import`: what a submitted URL asks for, the GitHub requests that
    resolve it, and the metadata that results, as steps the caller drives.
  - `endpoint`: how a preview request and a request for an article's content are answered.
  - `site`, `service_core`: further shared types.
- `app/` runs the services: HTTP, Redis connections, GitHub requests, parsing
  of JSON and TOML, and command-line handling.
- `tests/` runs the library on concrete values.
