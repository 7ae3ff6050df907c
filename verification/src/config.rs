//! Window configurations and the preset catalog: each well-known label
//! resolves to an immutable, hand-tuned default configuration.
use vstd::prelude::*;

use crate::label::is_known_label;
use crate::strmap::str_eq;

verus! {

/// Extra command-line arguments handed to windows that host heavy content.
pub open spec fn default_args_view() -> Seq<char> {
    "--enable-gpu-rasterization --enable-zero-copy --ignore-gpu-blocklist --use-gl=angle --disable-features=VaapiVideoDecoder,UseChromeOSDirectVideoDecoder,msWebOOUI,msPdfOOUI --enable-threaded-compositing --num-raster-threads=4"@
}

/// The runtime value of `default_args_view`.
pub fn default_additional_args() -> (r: String)
    ensures
        r@ == default_args_view(),
{
    "--enable-gpu-rasterization --enable-zero-copy --ignore-gpu-blocklist --use-gl=angle --disable-features=VaapiVideoDecoder,UseChromeOSDirectVideoDecoder,msWebOOUI,msPdfOOUI --enable-threaded-compositing --num-raster-threads=4".to_owned()
}

/// The default for configuration flags that are on unless a caller turns
/// them off.
pub fn default_true() -> (r: bool)
    ensures
        r,
{
    true
}

/// Configuration for creating a window. Sizes are logical pixels.
#[derive(Debug, Clone, PartialEq)]
pub struct WindowConfig {
    pub label: String,
    pub title: String,
    pub url: String,
    pub width: u32,
    pub height: u32,
    pub min_width: Option<u32>,
    pub min_height: Option<u32>,
    pub max_width: Option<u32>,
    pub max_height: Option<u32>,
    pub resizable: bool,
    pub decorations: bool,
    pub transparent: bool,
    pub always_on_top: bool,
    pub skip_taskbar: bool,
    pub center: bool,
    pub visible: bool,
    /// If true, reuse an existing window instead of creating a duplicate.
    pub single_instance: bool,
    /// If true, closing hides the window instead of destroying it.
    pub closeable_to_tray: bool,
    /// If true, ask the platform for an overlay titlebar.
    pub use_overlay_titlebar: bool,
    /// Platform titlebar-button inset (x, y), where supported.
    pub traffic_lights_inset: Option<(u32, u32)>,
    /// Named platform window effect (e.g. "acrylic").
    pub window_effect: Option<String>,
    /// Whether the window gets a native shadow.
    pub shadow: bool,
    /// Label of a live window to parent this one to.
    pub parent_label: Option<String>,
    /// Additional host arguments for the window's content process.
    pub additional_args: Option<String>,
}

impl WindowConfig {
    /// A usable configuration names a window: its label is non-empty.
    pub open spec fn wf(self) -> bool {
        self.label@.len() > 0
    }

    /// An exact copy; written out so that the copy is known to equal the
    /// original.
    pub fn duplicate(&self) -> (r: Self)
        ensures
            r == *self,
    {
        WindowConfig {
            label: self.label.clone(),
            title: self.title.clone(),
            url: self.url.clone(),
            width: self.width,
            height: self.height,
            min_width: self.min_width,
            min_height: self.min_height,
            max_width: self.max_width,
            max_height: self.max_height,
            resizable: self.resizable,
            decorations: self.decorations,
            transparent: self.transparent,
            always_on_top: self.always_on_top,
            skip_taskbar: self.skip_taskbar,
            center: self.center,
            visible: self.visible,
            single_instance: self.single_instance,
            closeable_to_tray: self.closeable_to_tray,
            use_overlay_titlebar: self.use_overlay_titlebar,
            traffic_lights_inset: self.traffic_lights_inset,
            window_effect: match &self.window_effect {
                Some(s) => Some(s.clone()),
                None => None,
            },
            shadow: self.shadow,
            parent_label: match &self.parent_label {
                Some(s) => Some(s.clone()),
                None => None,
            },
            additional_args: match &self.additional_args {
                Some(s) => Some(s.clone()),
                None => None,
            },
        }
    }
}

/// The main-window preset: resizable, overlay titlebar, closes to tray.
pub open spec fn is_main_preset(c: WindowConfig) -> bool {
    &&& c.label@ == "main"@
    &&& c.title@ == "GMPlayer"@
    &&& c.url@ == "/"@
    &&& c.width == 881u32
    &&& c.height == 653u32
    &&& c.min_width == Some(680u32)
    &&& c.min_height == Some(500u32)
    &&& c.max_width is None
    &&& c.max_height is None
    &&& c.resizable
    &&& !c.decorations
    &&& !c.transparent
    &&& !c.always_on_top
    &&& !c.skip_taskbar
    &&& !c.center
    &&& c.visible
    &&& c.single_instance
    &&& c.closeable_to_tray
    &&& c.use_overlay_titlebar
    &&& c.traffic_lights_inset == Some((12u32, 16u32))
    &&& c.window_effect is None
    &&& c.shadow
    &&& c.parent_label is None
    &&& (c.additional_args matches Some(a) && a@ == default_args_view())
}

/// The mini-player preset: compact, always on top, not resizable.
pub open spec fn is_mini_player_preset(c: WindowConfig) -> bool {
    &&& c.label@ == "mini-player"@
    &&& c.title@ == "Mini Player"@
    &&& c.url@ == "/slave.html#/mini-player"@
    &&& c.width == 350u32
    &&& c.height == 80u32
    &&& c.min_width is None
    &&& c.min_height is None
    &&& c.max_width is None
    &&& c.max_height is None
    &&& !c.resizable
    &&& !c.decorations
    &&& c.transparent
    &&& c.always_on_top
    &&& c.skip_taskbar
    &&& !c.center
    &&& c.visible
    &&& c.single_instance
    &&& !c.closeable_to_tray
    &&& !c.use_overlay_titlebar
    &&& c.traffic_lights_inset is None
    &&& (c.window_effect matches Some(e) && e@ == "acrylic"@)
    &&& c.shadow
    &&& c.parent_label is None
    &&& (c.additional_args matches Some(a) && a@ == default_args_view())
}

/// The desktop-lyrics preset: floating transparent overlay.
pub open spec fn is_desktop_lyrics_preset(c: WindowConfig) -> bool {
    &&& c.label@ == "desktop-lyrics"@
    &&& c.title@ == "Desktop Lyrics"@
    &&& c.url@ == "/slave.html#/desktop-lyrics"@
    &&& c.width == 800u32
    &&& c.height == 120u32
    &&& c.min_width == Some(400u32)
    &&& c.min_height == Some(60u32)
    &&& c.max_width is None
    &&& c.max_height is None
    &&& c.resizable
    &&& !c.decorations
    &&& c.transparent
    &&& c.always_on_top
    &&& c.skip_taskbar
    &&& !c.center
    &&& c.visible
    &&& c.single_instance
    &&& !c.closeable_to_tray
    &&& !c.use_overlay_titlebar
    &&& c.traffic_lights_inset is None
    &&& c.window_effect is None
    &&& !c.shadow
    &&& c.parent_label is None
    &&& (c.additional_args matches Some(a) && a@ == default_args_view())
}

/// The settings-window preset: centered utility window.
pub open spec fn is_settings_preset(c: WindowConfig) -> bool {
    &&& c.label@ == "settings"@
    &&& c.title@ == "Settings"@
    &&& c.url@ == "/setting"@
    &&& c.width == 700u32
    &&& c.height == 500u32
    &&& c.min_width == Some(500u32)
    &&& c.min_height == Some(400u32)
    &&& c.max_width is None
    &&& c.max_height is None
    &&& c.resizable
    &&& !c.decorations
    &&& !c.transparent
    &&& !c.always_on_top
    &&& !c.skip_taskbar
    &&& c.center
    &&& c.visible
    &&& c.single_instance
    &&& !c.closeable_to_tray
    &&& c.use_overlay_titlebar
    &&& c.traffic_lights_inset == Some((12u32, 16u32))
    &&& c.window_effect is None
    &&& c.shadow
    &&& c.parent_label is None
    &&& c.additional_args is None
}

/// The about-window preset: small fixed-size dialog.
pub open spec fn is_about_preset(c: WindowConfig) -> bool {
    &&& c.label@ == "about"@
    &&& c.title@ == "About"@
    &&& c.url@ == "/about"@
    &&& c.width == 400u32
    &&& c.height == 350u32
    &&& c.min_width is None
    &&& c.min_height is None
    &&& c.max_width is None
    &&& c.max_height is None
    &&& !c.resizable
    &&& !c.decorations
    &&& !c.transparent
    &&& c.always_on_top
    &&& !c.skip_taskbar
    &&& c.center
    &&& c.visible
    &&& c.single_instance
    &&& !c.closeable_to_tray
    &&& c.use_overlay_titlebar
    &&& c.traffic_lights_inset == Some((12u32, 16u32))
    &&& c.window_effect is None
    &&& c.shadow
    &&& c.parent_label is None
    &&& c.additional_args is None
}

/// The tray-popup preset: borderless, initially hidden, acrylic effect.
pub open spec fn is_tray_popup_preset(c: WindowConfig) -> bool {
    &&& c.label@ == "tray-popup"@
    &&& c.title@ == "Tray Popup"@
    &&& c.url@ == "/tray-popup.html"@
    &&& c.width == 260u32
    &&& c.height == 310u32
    &&& c.min_width is None
    &&& c.min_height is None
    &&& c.max_width is None
    &&& c.max_height is None
    &&& !c.resizable
    &&& !c.decorations
    &&& c.transparent
    &&& c.always_on_top
    &&& c.skip_taskbar
    &&& !c.center
    &&& !c.visible
    &&& c.single_instance
    &&& !c.closeable_to_tray
    &&& !c.use_overlay_titlebar
    &&& c.traffic_lights_inset is None
    &&& (c.window_effect matches Some(e) && e@ == "acrylic"@)
    &&& c.shadow
    &&& c.parent_label is None
    &&& (c.additional_args matches Some(a) && a@ == default_args_view())
}

impl WindowConfig {
    /// Main window preset — the primary app window.
    pub fn main() -> (r: Self)
        ensures
            is_main_preset(r),
            r.wf(),
    {
        proof {
            reveal_strlit("main");
        }
        WindowConfig {
            label: "main".to_owned(),
            title: "GMPlayer".to_owned(),
            url: "/".to_owned(),
            width: 881,
            height: 653,
            min_width: Some(680),
            min_height: Some(500),
            max_width: None,
            max_height: None,
            resizable: true,
            decorations: false,
            transparent: false,
            always_on_top: false,
            skip_taskbar: false,
            center: false,
            visible: true,
            single_instance: true,
            closeable_to_tray: true,
            use_overlay_titlebar: true,
            traffic_lights_inset: Some((12, 16)),
            window_effect: None,
            shadow: true,
            parent_label: None,
            additional_args: Some(default_additional_args()),
        }
    }

    /// Mini player preset — compact always-on-top player.
    pub fn mini_player() -> (r: Self)
        ensures
            is_mini_player_preset(r),
            r.wf(),
    {
        proof {
            reveal_strlit("mini-player");
        }
        WindowConfig {
            label: "mini-player".to_owned(),
            title: "Mini Player".to_owned(),
            url: "/slave.html#/mini-player".to_owned(),
            width: 350,
            height: 80,
            min_width: None,
            min_height: None,
            max_width: None,
            max_height: None,
            resizable: false,
            decorations: false,
            transparent: true,
            always_on_top: true,
            skip_taskbar: true,
            center: false,
            visible: true,
            single_instance: true,
            closeable_to_tray: false,
            use_overlay_titlebar: false,
            traffic_lights_inset: None,
            window_effect: Some("acrylic".to_owned()),
            shadow: true,
            parent_label: None,
            additional_args: Some(default_additional_args()),
        }
    }

    /// Desktop lyrics preset — floating lyrics overlay.
    pub fn desktop_lyrics() -> (r: Self)
        ensures
            is_desktop_lyrics_preset(r),
            r.wf(),
    {
        proof {
            reveal_strlit("desktop-lyrics");
        }
        WindowConfig {
            label: "desktop-lyrics".to_owned(),
            title: "Desktop Lyrics".to_owned(),
            url: "/slave.html#/desktop-lyrics".to_owned(),
            width: 800,
            height: 120,
            min_width: Some(400),
            min_height: Some(60),
            max_width: None,
            max_height: None,
            resizable: true,
            decorations: false,
            transparent: true,
            always_on_top: true,
            skip_taskbar: true,
            center: false,
            visible: true,
            single_instance: true,
            closeable_to_tray: false,
            use_overlay_titlebar: false,
            traffic_lights_inset: None,
            window_effect: None,
            shadow: false,
            parent_label: None,
            additional_args: Some(default_additional_args()),
        }
    }

    /// Settings window preset.
    pub fn settings() -> (r: Self)
        ensures
            is_settings_preset(r),
            r.wf(),
    {
        proof {
            reveal_strlit("settings");
        }
        WindowConfig {
            label: "settings".to_owned(),
            title: "Settings".to_owned(),
            url: "/setting".to_owned(),
            width: 700,
            height: 500,
            min_width: Some(500),
            min_height: Some(400),
            max_width: None,
            max_height: None,
            resizable: true,
            decorations: false,
            transparent: false,
            always_on_top: false,
            skip_taskbar: false,
            center: true,
            visible: true,
            single_instance: true,
            closeable_to_tray: false,
            use_overlay_titlebar: true,
            traffic_lights_inset: Some((12, 16)),
            window_effect: None,
            shadow: true,
            parent_label: None,
            additional_args: None,
        }
    }

    /// About window preset.
    pub fn about() -> (r: Self)
        ensures
            is_about_preset(r),
            r.wf(),
    {
        proof {
            reveal_strlit("about");
        }
        WindowConfig {
            label: "about".to_owned(),
            title: "About".to_owned(),
            url: "/about".to_owned(),
            width: 400,
            height: 350,
            min_width: None,
            min_height: None,
            max_width: None,
            max_height: None,
            resizable: false,
            decorations: false,
            transparent: false,
            always_on_top: true,
            skip_taskbar: false,
            center: true,
            visible: true,
            single_instance: true,
            closeable_to_tray: false,
            use_overlay_titlebar: true,
            traffic_lights_inset: Some((12, 16)),
            window_effect: None,
            shadow: true,
            parent_label: None,
            additional_args: None,
        }
    }

    /// Tray popup preset — small borderless popup shown near the system
    /// tray. Initially hidden; shown on demand near the tray anchor.
    pub fn tray_popup() -> (r: Self)
        ensures
            is_tray_popup_preset(r),
            r.wf(),
    {
        proof {
            reveal_strlit("tray-popup");
        }
        WindowConfig {
            label: "tray-popup".to_owned(),
            title: "Tray Popup".to_owned(),
            url: "/tray-popup.html".to_owned(),
            width: 260,
            height: 310,
            min_width: None,
            min_height: None,
            max_width: None,
            max_height: None,
            resizable: false,
            decorations: false,
            transparent: true,
            always_on_top: true,
            skip_taskbar: true,
            center: false,
            visible: false,
            single_instance: true,
            closeable_to_tray: false,
            use_overlay_titlebar: false,
            traffic_lights_inset: None,
            window_effect: Some("acrylic".to_owned()),
            shadow: true,
            parent_label: None,
            additional_args: Some(default_additional_args()),
        }
    }

    /// Look up a preset by label string; unknown labels have no preset.
    pub fn from_label(label: &str) -> (r: Option<Self>)
        ensures
            label@ == "main"@ ==> (r matches Some(c) && is_main_preset(c) && c.wf()),
            label@ == "mini-player"@ ==> (r matches Some(c) && is_mini_player_preset(c) && c.wf()),
            label@ == "desktop-lyrics"@ ==> (r matches Some(c) && is_desktop_lyrics_preset(c)
                && c.wf()),
            label@ == "settings"@ ==> (r matches Some(c) && is_settings_preset(c) && c.wf()),
            label@ == "about"@ ==> (r matches Some(c) && is_about_preset(c) && c.wf()),
            label@ == "tray-popup"@ ==> (r matches Some(c) && is_tray_popup_preset(c) && c.wf()),
            !is_known_label(label@) ==> r is None,
    {
        proof {
            crate::label::reveal_known_labels();
        }
        if str_eq(label, "main") {
            Some(Self::main())
        } else if str_eq(label, "mini-player") {
            Some(Self::mini_player())
        } else if str_eq(label, "desktop-lyrics") {
            Some(Self::desktop_lyrics())
        } else if str_eq(label, "settings") {
            Some(Self::settings())
        } else if str_eq(label, "about") {
            Some(Self::about())
        } else if str_eq(label, "tray-popup") {
            Some(Self::tray_popup())
        } else {
            None
        }
    }
}

} // verus!
