# newsletter

The logic of a newsletter service, verified with Verus.

- `src/` is the library. Its functions carry contracts that Verus proves, except the
  few that call an outside crate (`secrecy`, `unicode-segmentation`, `rand`, `sqlx`),
  whose contracts are taken from those crates' sources and trusted:
  - `domain`: the password rules (`Password::parse`) and the subscriber types;
  - `text`: white space and grapheme-cluster counting used by the rules;
  - `secret`: text held in a `secrecy::SecretString`;
  - `issue_delivery_worker`: the delivery worker as a state machine (`start`, `step`),
    its exponential backoff with equal jitter, and its pauses, with proved laws on runs;
  - `expiry_requrests`: the expiry interval for idempotency keys and the sweep pause;
  - `routes`: the decisions of the HTTP handlers (login, logout, password change,
    newsletter form);
  - `exit_report`: what is logged when a long-running task stops.
- `app/` is the program around it: the HTTP handlers, the database queries, the
  worker loops and `main`. It relies on the service's configuration, startup,
  telemetry, e-mail client, authentication and session modules.
- `tests/` runs the library on concrete values.
