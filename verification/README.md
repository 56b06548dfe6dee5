# core-api

The rules of the BSR Hub marketplace API, verified with Verus: money in
integer cents, rental billing, versioned price recommendations, the order and
runner-task state machines, reservation slots, payment checks, Stripe webhook
signatures, configuration, and the answers the HTTP API gives to each failure.

- `src/` is the verified library. `domain/` holds the business rules,
  `ports/` what the stores are asked and the payment checks every store
  applies, `adapters/` the store- and provider-specific decisions (MongoDB,
  PostgreSQL, Stripe), `http/` how requests are read and failures answered,
  and `demo.rs` / `runner_demo.rs` the in-memory demo stores.
- `app/` is the server around it: axum routes, the MongoDB and PostgreSQL
  connections, the Stripe and Supabase clients, and the JSON forms of the
  library's types.
- `tests/` exercises the library on concrete values.
