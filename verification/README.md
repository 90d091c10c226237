# rustls_cng (legacy CSP signing)

Signing with RSA keys held by legacy CryptoAPI cryptographic service
providers, split in two:

- `src/` is the verified library. It selects the hash algorithm for a digest
  (`algorithm`), encodes and wipes PINs (`pin`), describes a provider handle
  and decides PIN requests and key validation (`key`), and runs a signing
  operation as a session that asks for one CryptoAPI call at a time and turns
  the provider's little-endian signature into the big-endian one (`sign`).
  `ids` holds the CryptoAPI identifiers; the tests compare them with the
  `windows-sys` bindings.
- `app/` makes the CryptoAPI calls through `windows-sys`, owns the handles
  and releases them, and feeds each call's result back to the library.
