# themql

theMQL's message, subject, query, cache, storage, artifact, telemetry and
sensor layers as a Verus-verified library.

- `src/` — the verified library. Each module states its types' meaning
  with views and spec functions and proves every executable function
  against its contract: subject and pattern grammar and matching
  (`subject`, `text`), the message/query model and canonical errors
  (`model`, `error`), cache keys and cache, storage, MQTT, SSE,
  transport, runtime, telemetry, inference, message and GraphQL errors
  with their mappings, storage query semantics (`storage`), the artifact
  validation pipeline and writer (`artifact`, `schema`), and the sensor
  layer: bounded payload formatting (`payload`), NMEA sentences
  (`nmea`), BME280 calibration and compensation (`bme280`) and IMU
  packing (`imu`), and the session-auth secret (`auth`). Calls into
  `blake3`, `uuid`, `serde_json`, `core::str::from_utf8` and the system
  clock stand behind trusted items whose contracts say
  what the outside code guarantees.
- `app/` — the parts that perform I/O or compute in floating point: sled
  storage, artifact files, query cache keys, wire encodings, floating-point sensor
  conversions, the state estimator and the controllers.
- `tests/` — tests of the library's public API.
