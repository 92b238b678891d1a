# coordinator

The disclosure coordinator of the symbolic execution stack, with its core
verified in Verus.

- `src/` is the verified library: EIP-712 hashing and secp256k1 signature
  checks (`eip712`), the registries of readers, consumed nonces and disclosure
  requests (`state`), the decision steps of each HTTP operation (`service`),
  error reporting (`error`), the wire encodings of byte strings (`codec`), and
  the backend-facing decisions (`backends`). Calls into `sha3`, `k256`, `hex`
  and `base64` sit behind small trusted wrappers whose contracts are stated
  where they are defined.
- `app/` is the HTTP server: routes, serde forms of the wire types, HTTP
  clients of the MPC service, the coprocessor and the chain, and the loop that
  runs each operation's steps around those calls.
- `tests/` exercises the library, including full operations against
  in-process stand-ins for the backends.

The steps of an operation hand evidence to one another: `check_put_reader`
returns a `CheckedRegistration`, which `authenticate_put_reader` turns into an
`AuthenticatedRegistration` once the signature holds, and only that is
accepted by `commit_put_reader`; a disclosure goes from `TimelyDisclosure`
through `AuthorizedDisclosure` to `SignedDisclosure`, which
`record_handle_resolution` and `complete_disclosure` require. The registries
are therefore written only after every check of the operation passed, and
each step that can fail leaves readers, consumed nonces and disclosures as
they were.
