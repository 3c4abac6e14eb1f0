# ota_server

An over-the-air firmware update server for device fleets: devices register,
check for new firmware, download signed images over expiring HMAC links (with
HTTP byte ranges), and report the progress of each upgrade; operators upload
images, run gray (staged) rollouts, and a background monitor pauses rollouts
whose devices fail too often.

## Layout

- `src/` — the library, verified with Verus. Its decisions are stated as
  contracts and proved:
  - `upgrade_state` — the life cycle of one device's upgrade and the metric
    changes a status change causes;
  - `gray` — the bucket a device falls in and which devices a stage reaches;
  - `task` — stage percentages, stage advancement and the daily time window;
  - `status` — the version check, as a step function from phase and lookup
    result to the next phase and action;
  - `hmac_service` — signed, expiring download links;
  - `range` — `Range` header parsing and how a download is served;
  - `crypto` — AES-256-GCM sealing of stored secrets, with the round trip proved;
  - `firmware` — RSA signatures of images, stored file names, upload checks;
  - `monitor` — which tasks the failure monitor pauses;
  - `config`, `sql`, `error`, `models`, `digest`, `text`, `ambient` — settings,
    migration splitting, errors and their HTTP form, records, digests,
    decimal text, and the clock and random values.
- `tests/` — tests of the library on concrete values.
- `app/` — the HTTP server around the library: routes (axum), the SQLite store
  (sqlx), files on disk, Prometheus metrics, and the monitor loop (tokio).
