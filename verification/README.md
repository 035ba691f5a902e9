# cpcsp

A safe wrapper for CryptoPro CSP 5.0 whose logic is verified with Verus.

- `src/` — the verified library: the CSP's data types and constants,
  blobs, handles and error codes, string conversions (UTF-8/UTF-16 C
  strings), the two-call buffer protocol of the CSP functions, calendar
  arithmetic for certificate validity, and the decisions each operation
  makes around its CSP calls (arguments, error codes, result values).
  The CSP calls themselves are passed in as closures, so every contract
  states what is handed to the CSP and what is made of its replies.
- `app/` — the bindings to `libcapi10`/`libcapi20`: the C declarations,
  handles released on drop, and the closures that make the calls.
- `tests/` — tests of the library, with the CSP calls simulated by
  closures.
