# orange

Low-latency window streaming for friends: one process captures and encodes a
window, and every viewer gets a WebRTC stream of it. This repository holds the
logic of the streaming program as a library whose behaviour is stated in
contracts and proved with Verus, and the program around it.

- `src/` is the library. Every function states what it returns or changes.
  - `connection`: the stages a viewer goes through until the picture is there.
  - `cli`, `targets`, `auth`: capture settings, the windows on offer, sign-in.
  - `pipeline`, `pipeline_run`: what pipelines are made of, and how they run.
  - `webrtc`: receive branches, their attachment as one transaction, the
    registry of receive workers, and the loopback.
  - `peer`: host and viewer sessions as step functions, the branches of the
    host's viewers, startup keyframes and teardown.
  - `overlay`, `text`: the controls over the picture.
  - `media_diagnostics`, `network_diagnostics`, `addresses`: counters, reports,
    and what is told of network candidates.
  - `firewall`, `troubleshoot`: rule classification, the bounded script run, the
    repair, readiness checks and STUN messages.
  - `encoder_characterization`: the bitrate benchmark.
  - `json`, `text_ops`: text that other programs read, and text in general.
- `tests/` runs the library on concrete values.
- `app/` is the program: the command line, Win32, GStreamer pipelines, sockets,
  files and drawing. It performs the actions that the library's step functions
  name and hands the events back. The script that inspects and repairs the
  firewall is built in: its text is the value of `ORANGE_INSPECT_REPAIR_SCRIPT`
  when the program is compiled.

A step function takes a state and an event and gives the next state and the
actions. Laws about whole sessions are proved over sequences of events.
