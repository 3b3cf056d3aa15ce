# awsem

A local emulator of a few AWS services (Cognito user pools, Secrets Manager,
EMR on Kubernetes and classic EMR, Lambda, S3 through a RustFS store) whose
decisions are verified with Verus.

## Layout

- `src/` — the verified library. Each module states its behaviour in
  `requires`/`ensures` over spec functions and proves it:
  - `text` — splitting, joining, searching, trimming and number parsing on
    character sequences, with the lemmas the parsers rely on;
  - `arn`, `aws` — ARNs: printing, parsing and the round trip between them;
  - `config` — settings: defaults, merging the command line with the settings
    file (the command line wins; merging again changes nothing);
  - `error` — the answer each service gives for each error;
  - `auth`, `targets`, `naming` — reading request headers and targets,
    function names;
  - `spark`, `emr`, `agent` — the `spark-submit` command line, the life of a
    job run as a state machine, and the agent's report;
  - `lambda` — new functions and one invocation as a state machine;
  - `s3`, `notification`, `events`, `logs` — listings, notifications and the
    `_SUCCESS` markers that fire them, the event bus, the log viewer;
  - `secrets`, `cognito` — the checks of Secrets Manager and which version a
    read gives; passwords and token claims;
  - `token` — signing the tokens of a sign-in and checking them.
- `tests/` — tests of the library on concrete values.
- `app/` — the code around it: HTTP handlers (actix-web), the SQLite store,
  Kubernetes calls, the S3 proxy and the Spark agent's process handling.

Calls into outside crates that only compute (base64, shlex, chrono, argon2, jsonwebtoken)
stand in `src/` behind small trusted wrappers whose contracts name their
results. The wrappers whose results are random (a fresh UUID, a fresh salt)
state only the shape of what they give.
