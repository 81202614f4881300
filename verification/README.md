# erp

Business rules of an ERP suite, written in Verus and proved against their
contracts: bill-of-material comparison, kanban boards, job scheduling, key
management and payload encoding, leases, master data quality and duplicate
detection, monitoring, manufacturing workflows, planning runs, loyalty,
learning, knowledge base, notes, notifications and several small HR modules.

## Layout

- `src/` — the verified library, one module per business area. `common.rs`
  holds the shared pieces: calendar dates, instants, identifiers and the
  trusted wrappers around `chrono`, `uuid` and `std` string functions.
  Each module states its data, the spec functions its contracts use, the
  operations with their contracts, and the laws (`law_*` proof functions)
  that relate several operations.
- `tests/` — tests that run the compiled library.
- `app/` — ordinary Rust around the library: the engines that compute in
  floating point (OEE, variances, backflush, landed cost, lease valuation,
  capacity load), leave balances and other fractional amounts, JSON
  conversions and serde copies of library types.

Storage (SQLite queries) and the async service layer are not part of this
crate; the library takes the values read from storage as arguments and
returns the records to store.
