# qgl-types

Shared payload types of the QGL bus (nexox, minox, argox), with their
validation rules proved in Verus.

- `src/` is the verified library. Every payload type with integer, text,
  identifier or JSON fields lives here; its `is_valid` is proved equal to an
  open spec predicate `valid`. `Envelope<T>` states how correlation ids flow
  from parent to child along chains of any length, `display::base64_bytes`
  states the Base64 form of frame data (RFC 4648, proved injective, so that
  decoding inverts encoding), and `metrics::MetricBatch` is generic over its
  sample type. Identifiers are `uuid::Uuid`; instants are `clock::UtcTimestamp`
  (seconds and nanoseconds); free-form JSON is `json::JsonValue`.
- `app/` is the wire side: serde forms of all types (with the JSON attributes
  that fix the format), conversions to and from the library types, and the
  payload types whose checks compare floating-point numbers.
- `tests/` exercises the library on concrete values.
