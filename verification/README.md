# metw accounts center, verified core

The library in `src/` holds the logic of the accounts center, with contracts
that Verus proves:

- `ids`, `validation`, `dto`: identifiers, request bodies and their
  validation rules (username pattern, e-mail syntax, lengths, lower case).
- `repo`: the in-memory repositories — tokens and their revocation, e-mail
  rate limits, accounts, applications with their redirect URLs and consents,
  and authorization codes. Timed cleanups are returned to the caller instead
  of being spawned.
- `handlers`: the decisions of the transport-agnostic handlers. Handlers
  that wait on several services are written as flows: the library says which
  call to make next and what to do with its reply.
- `credentials`, `signin`: reading the `Authorization` header, and the
  client side of application sign-in.

`app/` holds the asynchronous plumbing: shared repositories behind locks,
the timers that run their cleanups, the remote address of a request, and
random authorization codes. `tests/` exercises the library.
