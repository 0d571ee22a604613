# fourier_registry

A reputation registry for Soroban smart contracts, verified with Verus.

- `src/` is the verified library. `storage` models the registry's ledger
  storage key by key (administrator, contract count, records, and the two
  halves of the list index) and holds the storage operations; `contract`
  holds the registry's operations (`RegistryContract`) with contracts over
  that model; `access_control` and `validation` hold the checks those
  operations make; `laws` proves what holds across operations (consistency of
  the list index with the records, removal undoing registration, pagination
  as a slice of the list, reads after writes).
- `app/` is the Soroban contract: it converts ledger addresses and records to
  the library's plain values, keeps the library's storage on the ledger as one
  instance entry (read at the start of each call and written back after a
  change), demands the administrator's authorisation, reads the ledger time
  and publishes events.
- `tests/` runs the library on concrete values.
