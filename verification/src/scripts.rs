//! The JavaScript the shell injects into every page load, including the
//! loaded instance, before the page's own scripts run:
//!
//! - `window.__SOVEREIGN_DESKTOP__`, a frozen, read-only data marker (shell
//!   kind, OS, shell version) — no capability, no IPC access;
//! - `window.__SOVEREIGN_BRIDGE__`, the device bridge in
//!   `@sovereignfs/bridge`'s `InstalledBridge` wire shape, whose `invoke()`
//!   reaches exactly one command, `bridge_invoke`.

use crate::encoding::{push_decimal, spec_decimal};
use crate::bridge::{spec_route, BridgeRoute};
use crate::navigation::TargetOs;
use vstd::prelude::*;

verus! {

/// Must match `@sovereignfs/bridge`'s `PROTOCOL_VERSION`.
pub const BRIDGE_PROTOCOL_VERSION: u32 = 1;

/// The `shell.platform` value the bridge reports for a build target.
pub open spec fn spec_platform_name(os: TargetOs) -> Seq<char> {
    if os == TargetOs::Macos {
        "macos"@
    } else if os == TargetOs::Windows {
        "windows"@
    } else {
        "linux"@
    }
}

/// Whether the build target has an OS biometric primitive behind
/// `biometrics.confirm` (macOS and Windows).
pub open spec fn spec_has_biometrics(os: TargetOs) -> bool {
    os == TargetOs::Macos || os == TargetOs::Windows
}

/// The contents of the bridge's advertised `capabilities` array.
pub open spec fn spec_capabilities_list(os: TargetOs) -> Seq<char> {
    if spec_has_biometrics(os) {
        "{ name: 'notifications.native', version: 1 }, { name: 'camera.photo', version: 1 }, { name: 'biometrics.confirm', version: 1 }"@
    } else {
        "{ name: 'notifications.native', version: 1 }, { name: 'camera.photo', version: 1 }"@
    }
}

/// The injected bridge definition.
pub open spec fn spec_bridge_script(version: Seq<char>, os: TargetOs) -> Seq<char> {
    "Object.defineProperty(window, '__SOVEREIGN_BRIDGE__', { value: Object.freeze({ protocolVersion: "@
        + spec_decimal(BRIDGE_PROTOCOL_VERSION as int)
        + ", shell: Object.freeze({ name: 'sovereign-desktop', version: '"@ + version
        + "', platform: '"@ + spec_platform_name(os) + "' }), capabilities: ["@
        + spec_capabilities_list(os)
        + "], invoke: function (capability, payload) { return window.__TAURI_INTERNALS__.invoke('bridge_invoke', { capability: capability, payload: payload }); } }), writable: false, configurable: false, enumerable: true });"@
}

/// The injected shell-detection marker.
pub open spec fn spec_desktop_marker_script(os_name: Seq<char>, version: Seq<char>) -> Seq<char> {
    "Object.defineProperty(window, '__SOVEREIGN_DESKTOP__', { value: Object.freeze({ shell: 'desktop', os: '"@
        + os_name + "', version: '"@ + version
        + "' }), writable: false, configurable: false, enumerable: true });"@
}

/// `BridgeHandshake['shell']['platform']` for the build target: `macos`,
/// `windows`, or `linux` for every other target.
pub fn tauri_platform_name(os: TargetOs) -> (res: &'static str)
    ensures
        res@ == spec_platform_name(os),
{
    if os == TargetOs::Macos {
        "macos"
    } else if os == TargetOs::Windows {
        "windows"
    } else {
        "linux"
    }
}

/// The `capabilities` array's contents: `notifications.native` and
/// `camera.photo` always, `biometrics.confirm` on macOS and Windows only.
pub fn capabilities_list(os: TargetOs) -> (res: &'static str)
    ensures
        res@ == spec_capabilities_list(os),
{
    if os == TargetOs::Macos || os == TargetOs::Windows {
        "{ name: 'notifications.native', version: 1 }, { name: 'camera.photo', version: 1 }, { name: 'biometrics.confirm', version: 1 }"
    } else {
        "{ name: 'notifications.native', version: 1 }, { name: 'camera.photo', version: 1 }"
    }
}

/// JavaScript defining `window.__SOVEREIGN_BRIDGE__` for a shell of the
/// given version built for `os`.
pub fn bridge_script(version: &str, os: TargetOs) -> (res: String)
    ensures
        res@ == spec_bridge_script(version@, os),
        exists|pre: Seq<char>, post: Seq<char>|
            res@ == pre + "capabilities: ["@ + capability_entries(spec_advertised_capabilities(os))
                + "], invoke"@ + post,
{
    proof {
        lemma_bridge_script_lists_capabilities(version@, os);
    }
    let mut out = String::from_str(
        "Object.defineProperty(window, '__SOVEREIGN_BRIDGE__', { value: Object.freeze({ protocolVersion: ",
    );
    push_decimal(&mut out, BRIDGE_PROTOCOL_VERSION as i64);
    out.append(", shell: Object.freeze({ name: 'sovereign-desktop', version: '");
    out.append(version);
    out.append("', platform: '");
    out.append(tauri_platform_name(os));
    out.append("' }), capabilities: [");
    out.append(capabilities_list(os));
    out.append(
        "], invoke: function (capability, payload) { return window.__TAURI_INTERNALS__.invoke('bridge_invoke', { capability: capability, payload: payload }); } }), writable: false, configurable: false, enumerable: true });",
    );
    out
}

/// JavaScript defining the frozen `window.__SOVEREIGN_DESKTOP__` marker
/// `{ shell: 'desktop', os, version }`.
pub fn desktop_marker_script(os_name: &str, version: &str) -> (res: String)
    ensures
        res@ == spec_desktop_marker_script(os_name@, version@),
{
    let mut out = String::from_str(
        "Object.defineProperty(window, '__SOVEREIGN_DESKTOP__', { value: Object.freeze({ shell: 'desktop', os: '",
    );
    out.append(os_name);
    out.append("', version: '");
    out.append(version);
    out.append("' }), writable: false, configurable: false, enumerable: true });");
    out
}

/// `biometrics.confirm` is advertised exactly on the targets that can
/// answer it, and the two fixed capabilities are advertised everywhere.
pub proof fn lemma_capabilities_extend(os: TargetOs)
    ensures
        spec_has_biometrics(os) ==> spec_capabilities_list(os) == spec_capabilities_list(TargetOs::Linux)
            + ", { name: 'biometrics.confirm', version: 1 }"@,
{
    reveal_strlit("{ name: 'notifications.native', version: 1 }, { name: 'camera.photo', version: 1 }, { name: 'biometrics.confirm', version: 1 }");
    reveal_strlit("{ name: 'notifications.native', version: 1 }, { name: 'camera.photo', version: 1 }");
    reveal_strlit(", { name: 'biometrics.confirm', version: 1 }");
    assert(spec_has_biometrics(os) ==> spec_capabilities_list(os) =~= spec_capabilities_list(TargetOs::Linux)
        + ", { name: 'biometrics.confirm', version: 1 }"@);
}

/// The capability names the bridge advertises on `os`.
pub open spec fn spec_advertised_capabilities(os: TargetOs) -> Seq<Seq<char>> {
    if spec_has_biometrics(os) {
        seq!["notifications.native"@, "camera.photo"@, "biometrics.confirm"@]
    } else {
        seq!["notifications.native"@, "camera.photo"@]
    }
}

/// One entry of the `capabilities` array.
pub open spec fn capability_entry(name: Seq<char>) -> Seq<char> {
    "{ name: '"@ + name + "', version: 1 }"@
}

/// The entries for `names`, separated by `, `.
pub open spec fn capability_entries(names: Seq<Seq<char>>) -> Seq<char>
    decreases names.len(),
{
    if names.len() == 0 {
        seq![]
    } else if names.len() == 1 {
        capability_entry(names[0])
    } else {
        capability_entries(names.drop_last()) + ", "@ + capability_entry(names.last())
    }
}

/// Every capability the bridge advertises reaches a real handler of
/// `bridge_invoke`: the `capabilities` array lists exactly the advertised
/// names, and none of them routes to `unavailable`.
pub proof fn lemma_advertised_capabilities_are_answered(os: TargetOs)
    ensures
        spec_capabilities_list(os) == capability_entries(spec_advertised_capabilities(os)),
        forall|i: int|
            0 <= i < spec_advertised_capabilities(os).len() ==> spec_route(
                #[trigger] spec_advertised_capabilities(os)[i],
            ) != BridgeRoute::Unsupported,
{
    reveal_strlit("{ name: 'notifications.native', version: 1 }, { name: 'camera.photo', version: 1 }, { name: 'biometrics.confirm', version: 1 }");
    reveal_strlit("{ name: 'notifications.native', version: 1 }, { name: 'camera.photo', version: 1 }");
    reveal_strlit("{ name: '");
    reveal_strlit("', version: 1 }");
    reveal_strlit(", ");
    reveal_strlit("notifications.native");
    reveal_strlit("camera.photo");
    reveal_strlit("biometrics.confirm");
    let names = spec_advertised_capabilities(os);
    let two = seq!["notifications.native"@, "camera.photo"@];
    let one = seq!["notifications.native"@];
    assert(two.drop_last() =~= one);
    assert(two.last() == "camera.photo"@);
    assert(one[0] == "notifications.native"@);
    assert(capability_entries(one) == capability_entry("notifications.native"@));
    assert(capability_entries(two) =~= capability_entry("notifications.native"@) + ", "@
        + capability_entry("camera.photo"@));
    if spec_has_biometrics(os) {
        assert(names.drop_last() =~= two);
        assert(names.last() == "biometrics.confirm"@);
        assert(spec_capabilities_list(os) =~= capability_entries(two) + ", "@ + capability_entry(
            "biometrics.confirm"@,
        ));
    } else {
        assert(spec_capabilities_list(os) =~= capability_entries(two));
    }
}

/// The injected bridge advertises the capabilities of the target it runs
/// on: its `capabilities: [...]` array holds one entry per name that
/// `os` advertises, in order, and nothing else.
pub proof fn lemma_bridge_script_lists_capabilities(version: Seq<char>, os: TargetOs)
    ensures
        exists|pre: Seq<char>, post: Seq<char>|
            spec_bridge_script(version, os) == pre + "capabilities: ["@ + capability_entries(
                spec_advertised_capabilities(os),
            ) + "], invoke"@ + post,
{
    reveal_strlit("' }), capabilities: [");
    reveal_strlit("' }), ");
    reveal_strlit("capabilities: [");
    reveal_strlit("], invoke: function (capability, payload) { return window.__TAURI_INTERNALS__.invoke('bridge_invoke', { capability: capability, payload: payload }); } }), writable: false, configurable: false, enumerable: true });");
    reveal_strlit("], invoke");
    lemma_advertised_capabilities_are_answered(os);
    let tail = "], invoke: function (capability, payload) { return window.__TAURI_INTERNALS__.invoke('bridge_invoke', { capability: capability, payload: payload }); } }), writable: false, configurable: false, enumerable: true });"@;
    let post = tail.skip(9);
    assert("' }), capabilities: ["@ =~= "' }), "@ + "capabilities: ["@);
    assert(tail =~= "], invoke"@ + post);
    let pre = "Object.defineProperty(window, '__SOVEREIGN_BRIDGE__', { value: Object.freeze({ protocolVersion: "@
        + spec_decimal(BRIDGE_PROTOCOL_VERSION as int)
        + ", shell: Object.freeze({ name: 'sovereign-desktop', version: '"@ + version
        + "', platform: '"@ + spec_platform_name(os) + "' }), "@;
    let entries = capability_entries(spec_advertised_capabilities(os));
    assert(spec_bridge_script(version, os) =~= pre + "capabilities: ["@ + entries + "], invoke"@
        + post);
}

} // verus!
