# vibe_overlay

The logic of a Windows screen-capture overlay, written in Verus and proved
against its contracts.

- `src/hotkeys.rs`: the Ctrl hotkeys, their identifiers and commands.
- `src/geometry.rs`: moving and resizing the window, the text area, the
  placement of the capture preview, the size of a capture buffer.
- `src/pixels.rs`: BGRA to RGBA conversion of a capture.
- `src/overlay.rs`: the overlay's state (sending, capture, reply), what each
  hotkey does to it, how an upload ends, and what the window shows.
- `src/upload.rs`: the request for the analysis proxy: PNG encoding (crate
  `image`) and Base64 (crate `base64`) behind trusted wrappers.
- `app/main.rs`: the Win32 window, GDI capture and drawing, and the HTTP
  request (crates `windows`, `reqwest`, `serde`, `once_cell`).
