# otc_sol

Verified core of an over-the-counter Solana trading service.

- `src/` (Verus): registration and login decisions over bcrypt, the bearer-token
  guard, trade records and their updates, balance-request parsing, and the
  failures with their HTTP status and body.
- `app/` (plain Rust): the actix-web server, the Postgres tables through diesel,
  the Solana RPC call, and the JSON/database copies of the library's types.
- `tests/`: tests of the library on concrete values.
