# cdp_input

The decisions behind browser interactions over the Chrome DevTools Protocol,
verified with Verus.

- `src/keys.rs`: DOM `KeyboardEvent.code` to Windows virtual key codes, and
  the key, code and key code sent for a typed character or a named key.
- `src/actions.rs`: the steps of typing, filling and key presses, and the page
  functions called on elements.
- `src/mouse.rs`: the mouse events of hovering and clicking; when checking or
  unchecking takes a click.
- `src/dom_event.rs`: the page function that dispatches a DOM event.
- `src/laws.rs`: properties proved across these.
- `src/text.rs`: string helpers and the calls into `std` string conversions.
- `app/`: the async interactions that resolve elements, send the commands over
  a `CdpClient` and wait between typed characters.
