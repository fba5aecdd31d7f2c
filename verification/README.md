# educore-communication

The communication domain of the school engine — notices, complaints,
notifications, email and SMS logs and settings, chat, broadcasts,
contact messages, speech sliders and phone-call logs — as a Verus
library: Verus proves the contract of every function in `src/` but the
trusted wrappers named at the end; `Timestamp::now`, which reads the
clock, promises nothing of its result.

## Layout

- `src/foundation.rs` — engine-wide identifiers (`SchoolId`, `UserId`, ...),
  the tenant context, the audit values (`Timestamp`, `Version`, `Etag`),
  calendar dates, and the `Clock` / `IdGenerator` ports.
- `src/value_objects.rs` — typed ids, enums with their wire forms, the
  validated strings, the `Destination` bitflag and the audience model.
- `src/rendering.rs` — the `{{name}}` placeholder grammar and
  `TemplateService` (declared variables, substitution, rendering, lint).
- `src/aggregate.rs`, `src/entities.rs` — aggregate roots and child
  entities; each mutator states the whole state it leaves behind.
- `src/commands.rs`, `src/events.rs`, `src/query.rs` — commands, events
  (with the `DomainEvent` envelope) and query stubs.
- `src/services.rs` — the factory services (command → aggregate + event),
  each with a core `*_at` that takes the time and the event id,
  the headline services, service structs, policies and specifications.
- `src/template.rs` — the channel-bound `NotificationTemplate` with its
  sorted variable map.
- `app/` — the asynchronous repository ports and headline services, and
  the error type with `std::error::Error`.

`chrono` decides which calendar dates exist and reads the clock; `uuid`
renders identifiers and makes version 5 and version 7 UUIDs. Those calls
are the library's only trusted items.
