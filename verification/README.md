# system_calls

The verified core of an HTTP API that serves syscall reference data per
OS and architecture from a single DynamoDB table.

- `src/` is the library, verified with Verus:
  - `text` — decimal reading/writing of 32-bit numbers, white space and
    word splitting, and the case mappings of `str`;
  - `domain` — `Syscall`, `RegisterConvention`, the man7.org link
    (`man_url`, `enrich`);
  - `error` — `AppError` and how each error is answered (status, message);
  - `config` — `Config` from the `DDB_TABLE` / `DDB_ENDPOINT` settings;
  - `handlers` — reading the `{number}` path segment and answering a
    single-item lookup;
  - `repository` — the table's key layout and the paging of a listing;
  - `seed` — reading `syscall_64.tbl` into the items that seed the table.
- `app/` is the Lambda program around it: axum routes, the DynamoDB
  client, serde encodings, and `main gen-seed` to write the seed file.
- `tests/` runs the library on concrete values.
