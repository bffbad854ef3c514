//! Plugin GUIs: window sizes, resize hints, windowing APIs and parent windows.

mod window;

pub use window::{
    opt_api_view, spec_cocoa, spec_standard_api, spec_wayland, spec_win32, spec_x11,
    GuiApiType, GuiConfiguration, StandardWindowHandle, Window,
};

use crate::audio_ports::opt_bytes_view;
use vstd::prelude::*;
use vstd::std_specs::cmp::PartialOrdSpec;

verus! {

/// The size of a GUI window, in pixels.
#[derive(Copy, Clone, Eq, PartialEq, Debug)]
pub struct GuiSize {
    /// The width of the window.
    pub width: u32,
    /// The height of the window.
    pub height: u32,
}

impl GuiSize {
    /// Returns the area covered by a window of this size, in pixels.
    pub fn area(self) -> (a: u64)
        ensures
            a == self.width * self.height,
    {
        let w = self.width as u64;
        let h = self.height as u64;
        assert(w * h <= 0xffff_ffffu64 * 0xffff_ffffu64) by (nonlinear_arith)
            requires
                w <= 0xffff_ffffu64,
                h <= 0xffff_ffffu64,
        ;
        w * h
    }

    /// Packs this size into a single `u64`: the width in the low half, the height in the high
    /// half.
    pub fn to_u64(self) -> (raw: u64)
        ensures
            raw == self.width + self.height * 0x1_0000_0000,
    {
        let w = self.width as u64;
        let h = self.height as u64;
        assert(h << 32u64 == h * 0x1_0000_0000 && w + (h << 32u64) == w + h * 0x1_0000_0000)
            by (bit_vector)
            requires
                h <= 0xffff_ffffu64,
        ;
        w + (h << 32u64)
    }

    /// Unpacks a size from a single `u64`: the width from the low half, the height from the high
    /// half.
    pub fn from_u64(raw: u64) -> (size: GuiSize)
        ensures
            size.width == raw % 0x1_0000_0000,
            size.height == raw / 0x1_0000_0000,
    {
        let width = raw as u32;
        let height = (raw >> 32u64) as u32;
        assert(width == raw % 0x1_0000_0000 && height == raw / 0x1_0000_0000) by (bit_vector)
            requires
                width == raw as u32,
                height == (raw >> 32u64) as u32,
        ;
        GuiSize { width, height }
    }
}

/// Unpacking a packed size gives the size back, and packing an unpacked value gives the value
/// back.
pub proof fn lemma_gui_size_u64_roundtrip(size: GuiSize, raw: u64)
    ensures
        (size.width + size.height * 0x1_0000_0000) % 0x1_0000_0000 == size.width,
        (size.width + size.height * 0x1_0000_0000) / 0x1_0000_0000 == size.height,
        (raw % 0x1_0000_0000) + (raw / 0x1_0000_0000) * 0x1_0000_0000 == raw,
{
    let w = size.width as int;
    let h = size.height as int;
    assert((w + h * 0x1_0000_0000) % 0x1_0000_0000 == w && (w + h * 0x1_0000_0000) / 0x1_0000_0000
        == h) by (nonlinear_arith)
        requires
            0 <= w < 0x1_0000_0000,
            0 <= h,
    ;
    let r = raw as int;
    assert((r % 0x1_0000_0000) + (r / 0x1_0000_0000) * 0x1_0000_0000 == r) by (nonlinear_arith);
}

impl PartialOrd for GuiSize {
    fn partial_cmp(&self, other: &Self) -> (r: Option<core::cmp::Ordering>)
        ensures
            r == Some(core::cmp::Ordering::Less) <==> self.width * self.height < other.width
                * other.height,
            r == Some(core::cmp::Ordering::Equal) <==> self.width * self.height == other.width
                * other.height,
            r == Some(core::cmp::Ordering::Greater) <==> self.width * self.height > other.width
                * other.height,
    {
        let a = self.area();
        let b = other.area();
        if a < b {
            Some(core::cmp::Ordering::Less)
        } else if a == b {
            Some(core::cmp::Ordering::Equal)
        } else {
            Some(core::cmp::Ordering::Greater)
        }
    }
}

impl vstd::std_specs::cmp::PartialOrdSpecImpl for GuiSize {
    open spec fn obeys_partial_cmp_spec() -> bool {
        true
    }

    open spec fn partial_cmp_spec(&self, other: &Self) -> Option<core::cmp::Ordering> {
        let a = self.width * self.height;
        let b = other.width * other.height;
        if a < b {
            Some(core::cmp::Ordering::Less)
        } else if a == b {
            Some(core::cmp::Ordering::Equal)
        } else {
            Some(core::cmp::Ordering::Greater)
        }
    }
}

/// A plugin's strategy about the aspect ratio of its window.
#[derive(Copy, Clone, Eq, PartialEq, Debug)]
pub enum AspectRatioStrategy {
    /// The aspect ratio does not matter.
    Disregard,
    /// The window keeps the given aspect ratio.
    Preserve { width: u32, height: u32 },
}

/// The C-compatible record of resize hints.
#[allow(non_camel_case_types)]
#[derive(Copy, Clone, Eq, PartialEq, Debug)]
pub struct clap_gui_resize_hints {
    pub can_resize_horizontally: bool,
    pub can_resize_vertically: bool,
    pub preserve_aspect_ratio: bool,
    pub aspect_ratio_width: u32,
    pub aspect_ratio_height: u32,
}

/// Plugin-provided hints about how to resize its embedded window.
#[derive(Copy, Clone, Eq, PartialEq, Debug)]
pub struct GuiResizeHints {
    /// Whether the window can be resized horizontally.
    pub can_resize_horizontally: bool,
    /// Whether the window can be resized vertically.
    pub can_resize_vertically: bool,
    /// How to treat the aspect ratio.
    pub strategy: AspectRatioStrategy,
}

/// The hints a raw record stands for: the aspect ratio is kept only if the window can be resized
/// at all, the record asks for it, and neither of its components is zero.
pub open spec fn spec_resize_hints_from_raw(raw: clap_gui_resize_hints) -> GuiResizeHints {
    GuiResizeHints {
        can_resize_horizontally: raw.can_resize_horizontally,
        can_resize_vertically: raw.can_resize_vertically,
        strategy: if !(raw.can_resize_horizontally || raw.can_resize_vertically)
            || !raw.preserve_aspect_ratio || raw.aspect_ratio_width == 0 || raw.aspect_ratio_height
            == 0 {
            AspectRatioStrategy::Disregard
        } else {
            AspectRatioStrategy::Preserve {
                width: raw.aspect_ratio_width,
                height: raw.aspect_ratio_height,
            }
        },
    }
}

/// The raw record of hints: a disregarded aspect ratio is written as not kept, with a ratio of
/// one to one.
pub open spec fn spec_resize_hints_to_raw(h: GuiResizeHints) -> clap_gui_resize_hints {
    match h.strategy {
        AspectRatioStrategy::Preserve { width, height } => clap_gui_resize_hints {
            can_resize_horizontally: h.can_resize_horizontally,
            can_resize_vertically: h.can_resize_vertically,
            preserve_aspect_ratio: true,
            aspect_ratio_width: width,
            aspect_ratio_height: height,
        },
        AspectRatioStrategy::Disregard => clap_gui_resize_hints {
            can_resize_horizontally: h.can_resize_horizontally,
            can_resize_vertically: h.can_resize_vertically,
            preserve_aspect_ratio: false,
            aspect_ratio_width: 1,
            aspect_ratio_height: 1,
        },
    }
}

impl GuiResizeHints {
    /// Returns the hints a raw record stands for.
    pub fn from_raw(raw: &clap_gui_resize_hints) -> (h: GuiResizeHints)
        ensures
            h == spec_resize_hints_from_raw(*raw),
    {
        GuiResizeHints {
            can_resize_horizontally: raw.can_resize_horizontally,
            can_resize_vertically: raw.can_resize_vertically,
            strategy: if !(raw.can_resize_horizontally || raw.can_resize_vertically)
                || !raw.preserve_aspect_ratio || raw.aspect_ratio_width == 0
                || raw.aspect_ratio_height == 0 {
                AspectRatioStrategy::Disregard
            } else {
                AspectRatioStrategy::Preserve {
                    width: raw.aspect_ratio_width,
                    height: raw.aspect_ratio_height,
                }
            },
        }
    }

    /// Returns the raw record of these hints.
    pub fn to_raw(self) -> (raw: clap_gui_resize_hints)
        ensures
            raw == spec_resize_hints_to_raw(self),
    {
        let mut hints = clap_gui_resize_hints {
            can_resize_horizontally: self.can_resize_horizontally,
            can_resize_vertically: self.can_resize_vertically,
            preserve_aspect_ratio: false,
            aspect_ratio_width: 1,
            aspect_ratio_height: 1,
        };
        if let AspectRatioStrategy::Preserve { width, height } = self.strategy {
            hints.preserve_aspect_ratio = true;
            hints.aspect_ratio_width = width;
            hints.aspect_ratio_height = height;
        }
        hints
    }
}

/// Whether hints survive the trip through their raw record: a kept aspect ratio has no zero
/// component and goes with a window that can be resized in some direction.
pub open spec fn resize_hints_fit_raw(h: GuiResizeHints) -> bool {
    match h.strategy {
        AspectRatioStrategy::Preserve { width, height } => width != 0 && height != 0 && (
        h.can_resize_horizontally || h.can_resize_vertically),
        AspectRatioStrategy::Disregard => true,
    }
}

/// Hints that make sense survive the trip through their raw record unchanged.
pub proof fn lemma_resize_hints_roundtrip(h: GuiResizeHints)
    requires
        resize_hints_fit_raw(h),
    ensures
        spec_resize_hints_from_raw(spec_resize_hints_to_raw(h)) == h,
{
}

/// The record a host hands to a plugin to learn its resize hints: every field is set, and the
/// aspect ratio components hold the largest value, so that a plugin that writes nothing can be
/// told apart.
pub fn resize_hints_query_record() -> (raw: clap_gui_resize_hints)
    ensures
        raw == (clap_gui_resize_hints {
            can_resize_horizontally: true,
            can_resize_vertically: true,
            preserve_aspect_ratio: true,
            aspect_ratio_width: 0xffff_ffffu32,
            aspect_ratio_height: 0xffff_ffffu32,
        }),
{
    clap_gui_resize_hints {
        aspect_ratio_height: 0xffff_ffffu32,
        aspect_ratio_width: 0xffff_ffffu32,
        can_resize_horizontally: true,
        can_resize_vertically: true,
        preserve_aspect_ratio: true,
    }
}

/// What a host learns from a plugin's answer to a resize hints query: the hints the record
/// stands for, unless the plugin failed or left an aspect ratio component at its largest value.
pub fn resize_hints_answer(success: bool, hints: &clap_gui_resize_hints) -> (h: Option<
    GuiResizeHints,
>)
    ensures
        h == spec_resize_hints_answer(success, *hints),
{
    if success && hints.aspect_ratio_height != 0xffff_ffffu32 && hints.aspect_ratio_width
        != 0xffff_ffffu32 {
        Some(GuiResizeHints::from_raw(hints))
    } else {
        None
    }
}

/// What a plugin writes in answer to a resize hints query, and whether it answers: its hints if it
/// has some, else hints that allow no resizing and keep no aspect ratio.
pub fn resize_hints_reply(hints: Option<GuiResizeHints>) -> (reply: (clap_gui_resize_hints, bool))
    ensures
        reply == match hints {
            Some(h) => (spec_resize_hints_to_raw(h), true),
            None => (
                clap_gui_resize_hints {
                    can_resize_horizontally: false,
                    can_resize_vertically: false,
                    preserve_aspect_ratio: false,
                    aspect_ratio_width: 1,
                    aspect_ratio_height: 1,
                },
                false,
            ),
        },
{
    match hints {
        Some(h) => (h.to_raw(), true),
        None => (
            clap_gui_resize_hints {
                can_resize_horizontally: false,
                can_resize_vertically: false,
                preserve_aspect_ratio: false,
                aspect_ratio_width: 1,
                aspect_ratio_height: 1,
            },
            false,
        ),
    }
}

/// What a host learns from a plugin's answer to a size query: the size, unless the plugin failed
/// or reported a zero width or height.
pub fn size_answer(success: bool, width: u32, height: u32) -> (size: Option<GuiSize>)
    ensures
        size == spec_size_answer(success, width, height),
{
    if success && width != 0 && height != 0 {
        Some(GuiSize { width, height })
    } else {
        None
    }
}

/// What a plugin writes in answer to a size query, and whether it answers: its size if it has
/// one, else a zero size.
pub fn size_reply(size: Option<GuiSize>) -> (reply: (u32, u32, bool))
    ensures
        reply == spec_size_reply(size),
{
    match size {
        Some(s) => (s.width, s.height, true),
        None => (0u32, 0u32, false),
    }
}

/// Errors that can occur around plugin GUIs.
#[derive(Copy, Clone, Eq, PartialEq, Debug)]
pub enum GuiError {
    CreateError,
    SetScaleError,
    SetParentError,
    SetTransientError,
    ResizeError,
    ShowError,
    HideError,
    RequestResizeError,
    RequestShowError,
    RequestHideError,
}

impl GuiError {
    /// The text that describes an error.
    pub open spec fn spec_message(self) -> Seq<char> {
        match self {
            GuiError::ResizeError => "Failed to resize plugin window"@,
            GuiError::ShowError => "Failed to show plugin window"@,
            GuiError::HideError => "Failed to hide plugin window"@,
            GuiError::CreateError => "Failed to create plugin GUI"@,
            GuiError::SetScaleError => "Failed to set plugin window scaling"@,
            GuiError::SetParentError => "Failed to set plugin window parent"@,
            GuiError::SetTransientError => "Failed to set plugin transient"@,
            GuiError::RequestResizeError => "Request to resize host parent window failed"@,
            GuiError::RequestShowError => "Request to show host parent window failed"@,
            GuiError::RequestHideError => "Request to hide host parent window failed"@,
        }
    }

    /// Returns the text that describes this error.
    pub fn message(&self) -> (text: &'static str)
        ensures
            text@ == self.spec_message(),
    {
        match self {
            GuiError::ResizeError => "Failed to resize plugin window",
            GuiError::ShowError => "Failed to show plugin window",
            GuiError::HideError => "Failed to hide plugin window",
            GuiError::CreateError => "Failed to create plugin GUI",
            GuiError::SetScaleError => "Failed to set plugin window scaling",
            GuiError::SetParentError => "Failed to set plugin window parent",
            GuiError::SetTransientError => "Failed to set plugin transient",
            GuiError::RequestResizeError => "Request to resize host parent window failed",
            GuiError::RequestShowError => "Request to show host parent window failed",
            GuiError::RequestHideError => "Request to hide host parent window failed",
        }
    }
}

/// The calls between a host and a plugin GUI that succeed or fail.
#[derive(Copy, Clone, Eq, PartialEq, Debug)]
pub enum GuiCall {
    /// The host asks the plugin to create its GUI.
    Create,
    /// The host sets the plugin GUI's scaling factor.
    SetScale,
    /// The host sets the size of the plugin's embedded window.
    SetSize,
    /// The host embeds the plugin GUI into a parent window.
    SetParent,
    /// The host asks the plugin's floating window to stay above another window.
    SetTransient,
    /// The host shows the plugin window.
    Show,
    /// The host hides the plugin window.
    Hide,
    /// The plugin asks the host to resize the parent window.
    RequestResize,
    /// The plugin asks the host to show its GUI.
    RequestShow,
    /// The plugin asks the host to hide its GUI.
    RequestHide,
}

impl GuiCall {
    /// The error a call gives where the other side does not implement it or refuses it: the
    /// error that names the failed operation.
    pub open spec fn spec_error(self) -> GuiError {
        match self {
            GuiCall::Create => GuiError::CreateError,
            GuiCall::SetScale => GuiError::SetScaleError,
            GuiCall::SetSize => GuiError::ResizeError,
            GuiCall::SetParent => GuiError::SetParentError,
            GuiCall::SetTransient => GuiError::SetTransientError,
            GuiCall::Show => GuiError::ShowError,
            GuiCall::Hide => GuiError::HideError,
            GuiCall::RequestResize => GuiError::RequestResizeError,
            GuiCall::RequestShow => GuiError::RequestShowError,
            GuiCall::RequestHide => GuiError::RequestHideError,
        }
    }

    /// Returns the error that names this call's operation.
    pub fn error(self) -> (e: GuiError)
        ensures
            e == self.spec_error(),
    {
        match self {
            GuiCall::Create => GuiError::CreateError,
            GuiCall::SetScale => GuiError::SetScaleError,
            GuiCall::SetSize => GuiError::ResizeError,
            GuiCall::SetParent => GuiError::SetParentError,
            GuiCall::SetTransient => GuiError::SetTransientError,
            GuiCall::Show => GuiError::ShowError,
            GuiCall::Hide => GuiError::HideError,
            GuiCall::RequestResize => GuiError::RequestResizeError,
            GuiCall::RequestShow => GuiError::RequestShowError,
            GuiCall::RequestHide => GuiError::RequestHideError,
        }
    }
}

/// What a call between a host and a plugin GUI comes to, from the other side's answer (`None`
/// where it does not implement the call): success where it accepted, else the error that names
/// the call's operation.
pub fn call_outcome(call: GuiCall, answer: Option<bool>) -> (r: Result<(), GuiError>)
    ensures
        r == (match answer {
            Some(true) => Ok(()),
            _ => Err(call.spec_error()),
        }),
{
    match answer {
        Some(true) => Ok(()),
        _ => Err(call.error()),
    }
}

/// What a host makes of a plugin's answer to its preferred windowing API: the API and floating
/// state where the plugin answered and named an API, else nothing.
pub fn preferred_api_answer(success: bool, api: Option<Vec<u8>>, is_floating: bool) -> (c: Option<
    GuiConfiguration,
>)
    ensures
        c is Some <==> success && api is Some,
        c matches Some(conf) ==> api matches Some(a) && conf.api_type.0@ == a@ && conf.is_floating
            == is_floating,
{
    match api {
        Some(a) => {
            if success {
                Some(GuiConfiguration { api_type: GuiApiType(a), is_floating })
            } else {
                None
            }
        },
        None => None,
    }
}

/// What a host makes of a plugin's answer to a size adjustment of the requested size: the size
/// the plugin wrote back, where it answered and that size is no larger than the requested one in
/// either dimension; else nothing.
pub fn adjust_size_answer(success: bool, requested: GuiSize, width: u32, height: u32) -> (size: Option<
    GuiSize,
>)
    ensures
        size == (if success && width <= requested.width && height <= requested.height {
            Some(GuiSize { width, height })
        } else {
            None
        }),
{
    if success && width <= requested.width && height <= requested.height {
        Some(GuiSize { width, height })
    } else {
        None
    }
}

/// The plugin side of the GUI extension. The scaling factor travels as the bits of its IEEE 754
/// double-precision representation.
pub trait PluginGuiImpl {
    /// Whether the plugin supports the given windowing API and floating state.
    fn is_api_supported(&mut self, configuration: GuiConfiguration) -> bool;

    /// The windowing API and floating state the plugin prefers, if any.
    fn get_preferred_api(&mut self) -> Option<GuiConfiguration>;

    /// Creates the GUI and all it needs.
    fn create(&mut self, configuration: GuiConfiguration) -> Result<(), GuiError>;

    /// Frees all the GUI holds.
    fn destroy(&mut self);

    /// Sets the absolute scaling factor of the GUI.
    fn set_scale(&mut self, scale: u64) -> (r: Result<(), GuiError>)
        default_ensures
            r == Err::<(), GuiError>(GuiError::SetScaleError),
    {
        Err(GuiError::SetScaleError)
    }

    /// The current size of the GUI, if known.
    fn get_size(&mut self) -> Option<GuiSize>;

    /// Whether the embedded window can be resized.
    fn can_resize(&mut self) -> (r: bool)
        default_ensures
            !r,
    {
        false
    }

    /// How the GUI can be resized, if it says.
    fn get_resize_hints(&mut self) -> (r: Option<GuiResizeHints>)
        default_ensures
            r is None,
    {
        None
    }

    /// The closest size the GUI can take to the given one, no larger than it, if any.
    fn adjust_size(&mut self, size: GuiSize) -> (r: Option<GuiSize>)
        default_ensures
            r is None,
    {
        None
    }

    /// Sets the size of the embedded window.
    fn set_size(&mut self, size: GuiSize) -> Result<(), GuiError>;

    /// Embeds the GUI into the given parent window.
    fn set_parent(&mut self, window: Window) -> Result<(), GuiError>;

    /// Keeps the floating window above the given window.
    fn set_transient(&mut self, window: Window) -> Result<(), GuiError>;

    /// Receives a title the host suggests for the floating window.
    fn suggest_title(&mut self, title: &str) {
    }

    /// Shows the window.
    fn show(&mut self) -> Result<(), GuiError>;

    /// Hides the window, keeping what it holds.
    fn hide_window(&mut self) -> Result<(), GuiError>;
}

/// The host side of the GUI extension.
pub trait HostGuiImpl {
    /// The plugin's resize hints changed.
    fn resize_hints_changed(&self);

    /// The plugin asks for the parent window to take the given size.
    fn request_resize(&self, new_size: GuiSize) -> Result<(), GuiError>;

    /// The plugin asks for its GUI to be shown.
    fn request_show(&self) -> Result<(), GuiError>;

    /// The plugin asks for its GUI to be hidden.
    fn request_hide(&self) -> Result<(), GuiError>;

    /// The floating window was closed, or the connection to the GUI lost; if it was destroyed,
    /// the host must call `destroy`.
    fn closed(&self, was_destroyed: bool);
}

/// The spec of what a plugin writes back in answer to a size adjustment of the given size.
pub open spec fn spec_adjust_size_reply(answer: Option<GuiSize>, width: u32, height: u32) -> (
    u32,
    u32,
    bool,
) {
    match answer {
        Some(s) => (s.width, s.height, true),
        None => (width, height, false),
    }
}

/// What a plugin writes back in answer to a size adjustment of the given size: the size it found,
/// with `true`, or the requested size left as it was, with `false`, where it found none.
pub fn adjust_size_reply(answer: Option<GuiSize>, width: u32, height: u32) -> (r: (u32, u32, bool))
    ensures
        r == spec_adjust_size_reply(answer, width, height),
{
    match answer {
        Some(s) => (s.width, s.height, true),
        None => (width, height, false),
    }
}

/// The size a plugin is asked about in a host's size adjustment: the width and height the host
/// wrote, unchanged.
pub fn adjust_size_request(width: u32, height: u32) -> (s: GuiSize)
    ensures
        s == (GuiSize { width, height }),
{
    GuiSize { width, height }
}

/// Answers a host's size adjustment: asks the plugin about the size [`adjust_size_request`]
/// gives, and writes back what it found, as [`adjust_size_reply`] says.
pub fn handle_adjust_size<P: PluginGuiImpl>(plugin: &mut P, width: u32, height: u32) -> (r: (
    u32,
    u32,
    bool,
))
    ensures
        exists|answer: Option<GuiSize>| r == spec_adjust_size_reply(answer, width, height),
{
    let request = adjust_size_request(width, height);
    let answer = plugin.adjust_size(request);
    adjust_size_reply(answer, width, height)
}

/// The spec of what a host learns from a plugin's size answer.
pub open spec fn spec_size_answer(success: bool, width: u32, height: u32) -> Option<GuiSize> {
    if success && width != 0 && height != 0 {
        Some(GuiSize { width, height })
    } else {
        None
    }
}

/// The spec of what a plugin writes in answer to a size query.
pub open spec fn spec_size_reply(size: Option<GuiSize>) -> (u32, u32, bool) {
    match size {
        Some(s) => (s.width, s.height, true),
        None => (0u32, 0u32, false),
    }
}

/// A host learns the very size a plugin reports, as long as neither dimension is zero; a plugin
/// that reports none leaves the host with none.
pub proof fn lemma_size_exchange(size: Option<GuiSize>)
    requires
        size matches Some(s) ==> s.width != 0 && s.height != 0,
    ensures
        ({
            let (w, h, ok) = spec_size_reply(size);
            spec_size_answer(ok, w, h) == size
        }),
{
}

/// The spec of what a host learns from a plugin's resize hints answer.
pub open spec fn spec_resize_hints_answer(success: bool, hints: clap_gui_resize_hints) -> Option<
    GuiResizeHints,
> {
    if success && hints.aspect_ratio_height != 0xffff_ffffu32 && hints.aspect_ratio_width
        != 0xffff_ffffu32 {
        Some(spec_resize_hints_from_raw(hints))
    } else {
        None
    }
}

/// A host learns the very resize hints a plugin reports, as long as they survive their raw record
/// and a kept aspect ratio has no component at the largest value; a plugin that reports none
/// leaves the host with none.
pub proof fn lemma_resize_hints_exchange(hints: Option<GuiResizeHints>)
    requires
        hints matches Some(h) ==> resize_hints_fit_raw(h) && match h.strategy {
            AspectRatioStrategy::Preserve { width, height } => width != 0xffff_ffffu32 && height
                != 0xffff_ffffu32,
            AspectRatioStrategy::Disregard => true,
        },
    ensures
        ({
            let (raw, ok) = match hints {
                Some(h) => (spec_resize_hints_to_raw(h), true),
                None => (
                    clap_gui_resize_hints {
                        can_resize_horizontally: false,
                        can_resize_vertically: false,
                        preserve_aspect_ratio: false,
                        aspect_ratio_width: 1,
                        aspect_ratio_height: 1,
                    },
                    false,
                ),
            };
            spec_resize_hints_answer(ok, raw) == hints
        }),
{
    if let Some(h) = hints {
        lemma_resize_hints_roundtrip(h);
    }
}

/// What a plugin writes in answer to a host's question for its preferred windowing API, given the
/// host's output values: the API and floating state it prefers, with `true`; or the host's values
/// left as they were, with `false`, where it prefers none.
pub fn preferred_api_reply(preferred: Option<GuiConfiguration>, api: Option<Vec<u8>>, floating: bool) -> (r: (
    Option<Vec<u8>>,
    bool,
    bool,
))
    ensures
        r.2 == preferred is Some,
        preferred matches Some(c) ==> r.0 matches Some(a) && a@ == c.api_type@ && r.1
            == c.is_floating,
        preferred is None ==> opt_bytes_view(r.0) == opt_bytes_view(api) && r.1 == floating,
{
    match preferred {
        Some(c) => (Some(c.api_type.0), c.is_floating, true),
        None => (api, floating, false),
    }
}

/// A host learns the very windowing API and floating state a plugin prefers, and nothing where
/// the plugin prefers none (the host's own API output starting out empty).
pub proof fn lemma_preferred_api_exchange(
    preferred: Option<GuiConfiguration>,
    reply: (Option<Vec<u8>>, bool, bool),
    answer: Option<GuiConfiguration>,
)
    requires
        reply.2 == preferred is Some,
        preferred matches Some(c) ==> reply.0 matches Some(a) && a@ == c.api_type@ && reply.1
            == c.is_floating,
        preferred is None ==> reply.0 is None,
        answer is Some <==> reply.2 && reply.0 is Some,
        answer matches Some(conf) ==> reply.0 matches Some(a) && conf.api_type.0@ == a@
            && conf.is_floating == reply.1,
    ensures
        answer is Some <==> preferred is Some,
        answer matches Some(conf) ==> preferred matches Some(c) && conf.api_type@ == c.api_type@
            && conf.is_floating == c.is_floating,
{
}

/// Window sizes are ordered by the area they cover: one size comes before another exactly when it
/// covers fewer pixels, and they compare equal exactly when they cover as many; swapping the two
/// sizes turns "before" into "after".
pub proof fn lemma_gui_size_ordered_by_area(a: GuiSize, b: GuiSize)
    ensures
        (a.partial_cmp_spec(&b) == Some(core::cmp::Ordering::Less)) <==> a.width * a.height < b.width
            * b.height,
        (a.partial_cmp_spec(&b) == Some(core::cmp::Ordering::Equal)) <==> a.width * a.height
            == b.width * b.height,
        (a.partial_cmp_spec(&b) == Some(core::cmp::Ordering::Greater)) <==> a.width * a.height
            > b.width * b.height,
        (a.partial_cmp_spec(&b) == Some(core::cmp::Ordering::Less)) <==> (b.partial_cmp_spec(&a)
            == Some(core::cmp::Ordering::Greater)),
{
}

} // verus!
