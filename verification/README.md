# Sovereign desktop — verified core

The Sovereign desktop shell is a thin native wrapper (Tauri 2) around a
self-hosted Sovereign instance. This crate holds the shell's decisions as a
library verified with Verus; `app/` wires them to Tauri, its plugins and the
operating system.

## Layout

- `src/navigation.rs` — URL parsing (via `url`), the navigation policy (local
  page, active instance's origin, everything else opens externally), the
  local-page URLs for the instance manager and for deep links.
- `src/scripts.rs` — the `__SOVEREIGN_DESKTOP__` marker and the
  `__SOVEREIGN_BRIDGE__` definition injected into every page.
- `src/bridge.rs` — the bridge's `DeviceResult` union and the decisions
  behind `bridge_invoke` (routing, notification requests, photo results).
- `src/biometrics.rs` — how Touch ID and Windows Hello outcomes map onto
  `DeviceResult`.
- `src/push/` — push payload decryption (ECDH P-256, HKDF-SHA256,
  AES-256-GCM), what a received payload is shown as, the device key, its
  get-or-create decision, and the registration request and its result.
- `src/updates.rs` — the update prompt.
- `src/encoding.rs` — base64 (via `base64`), form-urlencoding, hex, decimal.
- `app/` — the Tauri application: window, menus, tray, plugins, the bridge
  command, platform push and biometric integrations, credential stores.
- `tests/` — tests of the library.
