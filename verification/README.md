# uav_gcs

A ground control station for fixed-wing UAVs running ArduPilot, with its
logic verified by Verus.

- `src/` is the verified library: ArduPlane flight-mode and GPS fix codes,
  connection strings (`udpin:127.0.0.1:14550`, `serial:/dev/ttyUSB0:57600`)
  and their parsing, the telemetry state kept from MAVLink messages, heartbeat
  supervision, the MAVLink messages that carry each command, the events shown
  to the operator, the sending of a command (stopping at the first failed
  send), the operator console log and its buttons, the panel readings and the
  video test-pattern frames.
- `app/` is the program around it: the egui window, the tokio link task, the
  MAVLink transport, GStreamer video, gamepad input and the TOML
  configuration. Floating-point display conversions (degrees, meters, the
  great-circle distance to home) live there too.
- `tests/` exercises the library on concrete values.

Verify with `verus src/lib.rs --crate-type lib`; run the station with
`cargo run`, connecting to ArduPilot SITL on UDP 14550.

## Desktop dependencies left out of Cargo.toml

`app/` also uses three crates that `Cargo.toml` does not list, so `app/` does
not build as the manifest stands:

- `walkers` (the map view's OpenStreetMap tiles): with `eframe` beside it,
  its HTTP and image stack brings the dependency tree well past 400 packages,
  which is more than this manifest is kept to.
- `gstreamer` and `gstreamer-app` (live video): they link against the
  GStreamer system libraries, which must be installed first.

`gilrs` (gamepad input) is listed but links against `libudev`; without the
udev development files it does not build either. To build the whole station,
install those system libraries and add `walkers`, `gstreamer` and
`gstreamer-app` under `[dependencies]`. The library in `src/` and its tests
need none of them.
