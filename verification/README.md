# kapi

A Kubernetes-apiserver-inspired API server whose core is verified with Verus.

Users register kinds by creating `Schema` objects (group, version, kind, a
JSON Schema for the spec, an optional one for the status, and a scope); the
server then stores, validates, lists, watches and deletes objects of those
kinds, cluster-scoped or in namespaces, with labels, annotations, finalizers,
resource versions and generations managed as Kubernetes does.

## Layout

- `src/` — the verified library, checked by Verus against the contracts of
  its functions; calls into outside crates (`dashmap`, `jsonschema`, `base64`,
  `chrono`) go through small trusted wrappers whose contracts are stated next
  to them.
  - `json`, `jsonbuild`, `jsontext`: the JSON model, document building and
    compact serialization.
  - `keys`, `types`, `strmap`, `error`: resource keys, objects, metadata and
    the error responses.
  - `selector`, `validation`, `finalizer`, `helpers`: field and label
    selectors, metadata rules, the finalizer state machine and write stamping.
  - `store`, `token`, `sqlquery`: the in-memory store with ordered, paged,
    filtered listing and continue tokens; the SQL of the database store.
  - `meta_schema`, `schema_data`, `registry`: the meta-schema, registration
    payloads and the validator cache.
  - `service`, `schema_service`, `bootstrap`, `handler`, `watch`: the object
    and schema services, startup, request reading and watch delivery.
  - `openapi`: the OpenAPI 3.0.3 description built from the registered kinds.
  - `laws`: properties that hold across operations.
- `app/` — the HTTP server around the library: routes, wire formats, the
  event bus for watch streams and SQLite persistence.
- `tests/` — tests of the library on concrete values.
