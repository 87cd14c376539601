# p2p_camera

A peer-to-peer camera system: a camera and its viewers meet through a relay, connect
directly where their networks allow it, and exchange H.265 video, audio and control
requests.

- `src/` is the library, verified with Verus: wire formats, the relay's registry, NAT
  diagnosis, the viewer's player, the camera's control handler and links to relays, the
  gateway's sources, and the settings of the programs.
- `app/` holds the programs and the JNI bridge: network, files, hardware.
- `tests/` runs the library.

Logic that alternates with the network is written as steps: a function takes an event
and gives a new state and the actions to perform.
