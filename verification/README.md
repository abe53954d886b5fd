# FlowLapse

A local-first timelapse daemon: it samples frames from FFmpeg-readable
sources into short MP4 segments, keeps a rolling window of them, and exports
or previews them on demand.

- `src/` is the library, verified with Verus: resolving a timelapse
  configuration (which quantities are given, derived or defaulted, and which
  error a request gets), the FFmpeg command lines and concat lists, preview
  frame numbering, export file names and slugs, the registry of running
  capture jobs, the capture loop's state machine, and the API's request
  validation and error statuses.
- `app/` is the daemon around it: the axum HTTP API, the tokio workers that
  run FFmpeg and touch the file system, the floating-point arithmetic of the
  configuration, and the serde forms of the records.
- `tests/` exercises the library on concrete values.

The daemon listens on `127.0.0.1:4822` by default (`FLOWLAPSE_BIND`) and
keeps its state under `data` (`FLOWLAPSE_DATA_DIR`); the dashboard is served
from `web/dist` (`FLOWLAPSE_STATIC_DIR`).
