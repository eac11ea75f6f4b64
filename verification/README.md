# rd-engine

The engine of a remote desktop: the side that watches a screen, the side that shows it,
VNC and RDP clients, and what frontends call. It is written in Verus: what each function
does is stated in its contract and proved.

- `src/` is the engine. It does no input or output. Sockets, threads, clocks and native
  calls belong to the program around it, which tells the engine what happened and does
  what the engine answers.
- `tests/` runs the engine.
- `app/` is the program around it: the host program for Windows, probes of VNC and RDP
  servers, and what the Flutter and HarmonyOS applications link to.

| Module | What it is about |
| --- | --- |
| `host` | names, passwords and permissions of a host; its login; its stream |
| `viewer` | login, input, clipboard, decoder and end of a viewer |
| `session_backend` | a session of either protocol |
| `vnc`, `rdp` | handshake, messages and picture of VNC; connection phase of RDP |
| `input`, `platform::windows_input` | what a peer's input becomes |
| `bitrate`, `platform::windows_bitrate` | the rate of bits and how it adapts |
| `platform::ohos_decoder`, `platform::ohos_worker` | the decoder of OpenHarmony |
| `flutter_*` | what the Flutter frontend calls |
| `har` | what the HarmonyOS application calls |
| `windows_host` | command line, identity file and console of the host program |
| `json`, `text`, `bytes`, `bits`, `entries`, `encoding`, `identity` | what these share |
