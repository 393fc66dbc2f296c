//! Overlay windows: idempotent planning of a secondary, chromeless,
//! initially hidden window that loads an external URL with an injected
//! startup script. The windowing subsystem itself is an external
//! collaborator; this module decides, from the label's current existence,
//! whether a window must be built and with exactly which configuration.

use vstd::prelude::*;
use crate::errors::CmdError;

verus! {

/// What `url::Url::parse` makes of a string: `None` when it is rejected,
/// otherwise the parsed URL's serialization. Parsing is a function of the
/// input string alone.
pub uninterp spec fn parsed_url(s: Seq<char>) -> Option<Seq<char>>;

/// Relies on `url::Url::parse`: it parses an absolute URL from the input
/// string alone, deterministically; on success `Url::as_str` is its
/// serialization, on failure the parser reports a message.
#[verifier::external_body]
fn parse_target_url(s: &str) -> (r: Result<String, String>)
    ensures
        r is Ok <==> parsed_url(s@) is Some,
        r matches Ok(u) ==> Some(u@) == parsed_url(s@),
{
    match url::Url::parse(s) {
        Ok(u) => Ok(u.as_str().to_string()),
        Err(e) => Err(e.to_string()),
    }
}

/// The startup script injected into every overlay window: it replaces the
/// named third-party ad global with a harmless stand-in, so scripts calling
/// its interface neither throw nor reach the network.
pub open spec fn overlay_script_spec() -> Seq<char> {
    "\n      console.log(\"Blocking NitroAds\");\n      try {\n          window.NitroAds = new Proxy({}, {\n            get: () => () => ({ then: (cb) => cb?.() }),\n            set: () => true\n          });\n          Object.freeze(window.NitroAds);\n      } catch(e) {}\n    "@
}

/// Build the injected startup script.
pub fn overlay_init_script() -> (r: String)
    ensures
        r@ == overlay_script_spec(),
{
    String::from_str(
        "\n      console.log(\"Blocking NitroAds\");\n      try {\n          window.NitroAds = new Proxy({}, {\n            get: () => () => ({ then: (cb) => cb?.() }),\n            set: () => true\n          });\n          Object.freeze(window.NitroAds);\n      } catch(e) {}\n    ",
    )
}

/// The full configuration of one overlay window to be built: borderless,
/// opaque, hidden from the taskbar, initially invisible, fixed initial size,
/// loading the parsed target URL with the startup script injected.
#[derive(Debug)]
pub struct OverlayConfig {
    pub label: String,
    pub url: String,
    pub title: String,
    pub decorations: bool,
    pub transparent: bool,
    pub skip_taskbar: bool,
    pub visible: bool,
    pub width: u32,
    pub height: u32,
    pub init_script: String,
}

impl OverlayConfig {
    /// The fixed part of every overlay configuration.
    pub open spec fn well_formed(self) -> bool {
        &&& self.title@ == "Overlay"@
        &&& !self.decorations
        &&& !self.transparent
        &&& self.skip_taskbar
        &&& !self.visible
        &&& self.width == 800
        &&& self.height == 600
        &&& self.init_script@ == overlay_script_spec()
    }
}

/// Decide an overlay-window creation request. When a window with the label
/// already exists the request succeeds as a no-op; otherwise the target URL
/// is parsed, a parse failure is reported before any window construction,
/// and a well-formed configuration for the new window comes back.
pub fn plan_overlay_window(label: String, target_url: &str, window_exists: bool) -> (r: Result<
    Option<OverlayConfig>,
    CmdError,
>)
    ensures
        window_exists ==> r == Ok::<Option<OverlayConfig>, CmdError>(None),
        !window_exists ==> match r {
            Ok(Some(cfg)) => {
                &&& parsed_url(target_url@) is Some
                &&& cfg.label@ == label@
                &&& Some(cfg.url@) == parsed_url(target_url@)
                &&& cfg.well_formed()
            },
            Ok(None) => false,
            Err(e) => parsed_url(target_url@) is None && e is UrlParseFailure,
        },
{
    if window_exists {
        return Ok(None);
    }
    match parse_target_url(target_url) {
        Err(m) => Err(CmdError::UrlParseFailure(m)),
        Ok(u) => Ok(
            Some(
                OverlayConfig {
                    label,
                    url: u,
                    title: String::from_str("Overlay"),
                    decorations: false,
                    transparent: false,
                    skip_taskbar: true,
                    visible: false,
                    width: 800,
                    height: 600,
                    init_script: overlay_init_script(),
                },
            ),
        ),
    }
}

/// The label-to-URL registry of the windowing subsystem after one creation
/// request is carried out as planned: untouched when the label is already
/// present or the URL does not parse, extended by the new window otherwise.
pub open spec fn registry_after_create(
    reg: Map<Seq<char>, Seq<char>>,
    label: Seq<char>,
    target: Seq<char>,
) -> Map<Seq<char>, Seq<char>> {
    if reg.dom().contains(label) || parsed_url(target) is None {
        reg
    } else {
        reg.insert(label, parsed_url(target)->0)
    }
}

/// Creation is idempotent per label: a second request with the same label
/// and any other URL changes nothing, and the window keeps the URL of the
/// first request that created it.
pub proof fn lemma_overlay_creation_idempotent(
    reg: Map<Seq<char>, Seq<char>>,
    label: Seq<char>,
    first_target: Seq<char>,
    second_target: Seq<char>,
)
    ensures
        parsed_url(first_target) is Some ==> registry_after_create(
            registry_after_create(reg, label, first_target),
            label,
            second_target,
        ) == registry_after_create(reg, label, first_target),
        parsed_url(first_target) is Some && !reg.dom().contains(label)
            ==> registry_after_create(reg, label, first_target)[label] == parsed_url(
            first_target,
        )->0,
{
}

} // verus!
