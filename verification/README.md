# nft_ingester

A verified core for an NFT ingester and a candy-machine load generator.

- `src/` is the library, proved with Verus:
  - `error` — the ingester's errors and their messages;
  - `dao` — the schema of the `candy_guard_group` and `candy_machine_data` tables
    (column types, nullability, relations);
  - `program_transformers` — the decisions that turn account updates into database
    writes: the candy guard ingest (its own row, the candy machines it wraps, its guard
    groups), the freeze update of a candy machine, and the transactional ingest of
    token-metadata accounts. Each ingest hands out one database action at a time and takes
    back its outcome;
  - `load_generation` — funding decisions for the payer and the size of a candy machine
    account.
- `tests/` exercises the library on concrete values.
- `app/` holds the program and the I/O around the library: SeaORM entities and queries,
  Solana RPC calls, and the loops that run the library's ingests.
