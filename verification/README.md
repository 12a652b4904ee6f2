# eos-stream

Turns a Raspberry Pi 4 into a USB webcam (UVC gadget) that streams the live
view of a Canon EOS camera; `+` / `-` in `eos-stream --focus` drive the focus.

- `src/` — the verified library (Verus): the PID-file format and its reader,
  focus requests from key to signal to lens drive, the streaming state driven
  by the host, the placeholder image and stream setup, the gadget's USB
  identity, and the daemon's outer loop.
- `app/` — the daemon itself: camera access (gphoto2), the USB gadget
  (usb-gadget and the uvc-gadget C library), signals, files and the terminal.
- `tests/` — tests of the library.
