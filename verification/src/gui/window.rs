//! Windowing APIs and the parent windows that hosts hand to plugins.

use crate::utils::bytes_eq;
use vstd::prelude::*;

verus! {

/// A windowing API: the bytes of its name, such as `x11`, without a nul terminator.
#[derive(Clone, Debug)]
pub struct GuiApiType(pub Vec<u8>);

impl View for GuiApiType {
    type V = Seq<u8>;

    open spec fn view(&self) -> Seq<u8> {
        self.0@
    }
}

impl PartialEq for GuiApiType {
    fn eq(&self, other: &Self) -> (r: bool) {
        bytes_eq(self.0.as_slice(), other.0.as_slice())
    }
}

impl vstd::std_specs::cmp::PartialEqSpecImpl for GuiApiType {
    open spec fn obeys_eq_spec() -> bool {
        true
    }

    open spec fn eq_spec(&self, other: &Self) -> bool {
        self@ == other@
    }
}

/// The name of the Win32 API.
pub open spec fn spec_win32() -> Seq<u8> {
    seq![0x77u8, 0x69u8, 0x6eu8, 0x33u8, 0x32u8]
}

/// The name of the Cocoa API.
pub open spec fn spec_cocoa() -> Seq<u8> {
    seq![0x63u8, 0x6fu8, 0x63u8, 0x6fu8, 0x61u8]
}

/// The name of the X11 API.
pub open spec fn spec_x11() -> Seq<u8> {
    seq![0x78u8, 0x31u8, 0x31u8]
}

/// The name of the Wayland API.
pub open spec fn spec_wayland() -> Seq<u8> {
    seq![0x77u8, 0x61u8, 0x79u8, 0x6cu8, 0x61u8, 0x6eu8, 0x64u8]
}

/// The standard API whose name is the given one, if any.
pub open spec fn spec_standard_api(name: Seq<u8>) -> Option<Seq<u8>> {
    if name == spec_win32() {
        Some(spec_win32())
    } else if name == spec_cocoa() {
        Some(spec_cocoa())
    } else if name == spec_x11() {
        Some(spec_x11())
    } else if name == spec_wayland() {
        Some(spec_wayland())
    } else {
        None
    }
}

/// The abstract value of an optional API.
pub open spec fn opt_api_view(a: Option<GuiApiType>) -> Option<Seq<u8>> {
    match a {
        Some(a) => Some(a@),
        None => None,
    }
}

impl GuiApiType {
    /// The Win32 API of Windows.
    pub fn win32() -> (t: GuiApiType)
        ensures
            t@ == spec_win32(),
    {
        let t = GuiApiType(vec![0x77u8, 0x69u8, 0x6eu8, 0x33u8, 0x32u8]);
        assert(t@ =~= spec_win32());
        t
    }

    /// The Cocoa API of macOS.
    pub fn cocoa() -> (t: GuiApiType)
        ensures
            t@ == spec_cocoa(),
    {
        let t = GuiApiType(vec![0x63u8, 0x6fu8, 0x63u8, 0x6fu8, 0x61u8]);
        assert(t@ =~= spec_cocoa());
        t
    }

    /// The X11 API of Unix systems.
    pub fn x11() -> (t: GuiApiType)
        ensures
            t@ == spec_x11(),
    {
        let t = GuiApiType(vec![0x78u8, 0x31u8, 0x31u8]);
        assert(t@ =~= spec_x11());
        t
    }

    /// The Wayland API of Unix systems.
    pub fn wayland() -> (t: GuiApiType)
        ensures
            t@ == spec_wayland(),
    {
        let t = GuiApiType(vec![0x77u8, 0x61u8, 0x79u8, 0x6cu8, 0x61u8, 0x6eu8, 0x64u8]);
        assert(t@ =~= spec_wayland());
        t
    }

    /// Whether this API can provide a raw window handle: Win32, Cocoa or X11.
    pub fn can_provide_raw_window_handle(&self) -> (res: bool)
        ensures
            res == (self@ == spec_win32() || self@ == spec_cocoa() || self@ == spec_x11()),
    {
        bytes_eq(self.0.as_slice(), Self::win32().0.as_slice()) || bytes_eq(
            self.0.as_slice(),
            Self::cocoa().0.as_slice(),
        ) || bytes_eq(self.0.as_slice(), Self::x11().0.as_slice())
    }

    /// Returns the standard API this one names, or `None` if it is not one of Win32, Cocoa, X11
    /// or Wayland.
    pub fn to_standard_api(&self) -> (api: Option<GuiApiType>)
        ensures
            opt_api_view(api) == spec_standard_api(self@),
    {
        if bytes_eq(self.0.as_slice(), Self::win32().0.as_slice()) {
            Some(Self::win32())
        } else if bytes_eq(self.0.as_slice(), Self::cocoa().0.as_slice()) {
            Some(Self::cocoa())
        } else if bytes_eq(self.0.as_slice(), Self::x11().0.as_slice()) {
            Some(Self::x11())
        } else if bytes_eq(self.0.as_slice(), Self::wayland().0.as_slice()) {
            Some(Self::wayland())
        } else {
            None
        }
    }
}

/// A windowing API, and whether the window floats or is embedded.
#[derive(Clone, Debug)]
pub struct GuiConfiguration {
    /// The windowing API.
    pub api_type: GuiApiType,
    /// Whether the window floats, rather than being embedded in a parent window.
    pub is_floating: bool,
}

/// A handle to a host-provided parent window: its windowing API, and the value of its native
/// handle (an `HWND` or `NSView` address, or an X11 window identifier).
#[derive(Clone, Debug)]
pub struct Window {
    api: GuiApiType,
    specific: u64,
}

/// A native window handle of one of the standard APIs that can provide one.
#[derive(Copy, Clone, Debug, PartialEq, Eq)]
pub enum StandardWindowHandle {
    /// A Win32 `HWND`.
    Win32(u64),
    /// The address of a Cocoa `NSView`.
    AppKit(u64),
    /// An X11 window identifier.
    Xlib(u64),
}

impl Window {
    /// The windowing API of the window.
    pub closed spec fn spec_api(&self) -> Seq<u8> {
        self.api@
    }

    /// The value of the native handle.
    pub closed spec fn spec_handle(&self) -> u64 {
        self.specific
    }

    /// Returns the windowing API that handles this window.
    pub fn api_type(&self) -> (api: GuiApiType)
        ensures
            api@ == self.spec_api(),
    {
        GuiApiType(self.api.0.clone())
    }

    /// Returns the native handle of this window, whatever its API.
    pub fn as_generic_ptr(&self) -> (handle: u64)
        ensures
            handle == self.spec_handle(),
    {
        self.specific
    }

    /// Creates a window handle for a custom API.
    pub fn from_generic_ptr(api_type: GuiApiType, generic_pointer: u64) -> (w: Window)
        ensures
            w.spec_api() == api_type@,
            w.spec_handle() == generic_pointer,
    {
        Window { api: api_type, specific: generic_pointer }
    }

    /// Creates a window handle from a Win32 `HWND`.
    pub fn from_win32_hwnd(hwnd: u64) -> (w: Window)
        ensures
            w.spec_api() == spec_win32(),
            w.spec_handle() == hwnd,
    {
        Window { api: GuiApiType::win32(), specific: hwnd }
    }

    /// Creates a window handle from the address of a Cocoa `NSView`.
    pub fn from_cocoa_nsview(nsview: u64) -> (w: Window)
        ensures
            w.spec_api() == spec_cocoa(),
            w.spec_handle() == nsview,
    {
        Window { api: GuiApiType::cocoa(), specific: nsview }
    }

    /// Creates a window handle from an X11 window identifier.
    pub fn from_x11_handle(handle: u64) -> (w: Window)
        ensures
            w.spec_api() == spec_x11(),
            w.spec_handle() == handle,
    {
        Window { api: GuiApiType::x11(), specific: handle }
    }

    /// Returns the `HWND` of this window if it is a Win32 window.
    pub fn as_win32_hwnd(&self) -> (hwnd: Option<u64>)
        ensures
            hwnd == if self.spec_api() == spec_win32() {
                Some(self.spec_handle())
            } else {
                None
            },
    {
        if bytes_eq(self.api.0.as_slice(), GuiApiType::win32().0.as_slice()) {
            Some(self.specific)
        } else {
            None
        }
    }

    /// Returns the `NSView` address of this window if it is a Cocoa window.
    pub fn as_cocoa_nsview(&self) -> (nsview: Option<u64>)
        ensures
            nsview == if self.spec_api() == spec_cocoa() {
                Some(self.spec_handle())
            } else {
                None
            },
    {
        if bytes_eq(self.api.0.as_slice(), GuiApiType::cocoa().0.as_slice()) {
            Some(self.specific)
        } else {
            None
        }
    }

    /// Returns the X11 window identifier of this window if it is an X11 window.
    pub fn as_x11_handle(&self) -> (handle: Option<u64>)
        ensures
            handle == if self.spec_api() == spec_x11() {
                Some(self.spec_handle())
            } else {
                None
            },
    {
        if bytes_eq(self.api.0.as_slice(), GuiApiType::x11().0.as_slice()) {
            Some(self.specific)
        } else {
            None
        }
    }

    /// Returns this window with its API replaced by the standard API of the same name, or `None`
    /// if the API is not a standard one.
    pub fn to_standard_api_type(&self) -> (w: Option<Window>)
        ensures
            w is Some <==> spec_standard_api(self.spec_api()) is Some,
            w matches Some(w) ==> w.spec_api() == self.spec_api() && w.spec_handle()
                == self.spec_handle(),
    {
        match self.api.to_standard_api() {
            Some(api) => Some(Window { api, specific: self.specific }),
            None => None,
        }
    }

    /// Returns the native handle of this window for the APIs that can provide one: Win32, Cocoa
    /// and X11; `None` for any other API.
    pub fn standard_handle(&self) -> (h: Option<StandardWindowHandle>)
        ensures
            h == if self.spec_api() == spec_win32() {
                Some(StandardWindowHandle::Win32(self.spec_handle()))
            } else if self.spec_api() == spec_cocoa() {
                Some(StandardWindowHandle::AppKit(self.spec_handle()))
            } else if self.spec_api() == spec_x11() {
                Some(StandardWindowHandle::Xlib(self.spec_handle()))
            } else {
                None
            },
    {
        if bytes_eq(self.api.0.as_slice(), GuiApiType::win32().0.as_slice()) {
            Some(StandardWindowHandle::Win32(self.specific))
        } else if bytes_eq(self.api.0.as_slice(), GuiApiType::cocoa().0.as_slice()) {
            Some(StandardWindowHandle::AppKit(self.specific))
        } else if bytes_eq(self.api.0.as_slice(), GuiApiType::x11().0.as_slice()) {
            Some(StandardWindowHandle::Xlib(self.specific))
        } else {
            None
        }
    }

    /// Creates a window from the native handle of a standard API.
    pub fn from_standard_handle(handle: StandardWindowHandle) -> (w: Window)
        ensures
            w.standard_handle_spec() == Some(handle),
    {
        match handle {
            StandardWindowHandle::Win32(h) => Self::from_win32_hwnd(h),
            StandardWindowHandle::AppKit(h) => Self::from_cocoa_nsview(h),
            StandardWindowHandle::Xlib(h) => Self::from_x11_handle(h),
        }
    }

    /// The native handle of a window, for the APIs that can provide one.
    pub open spec fn standard_handle_spec(&self) -> Option<StandardWindowHandle> {
        if self.spec_api() == spec_win32() {
            Some(StandardWindowHandle::Win32(self.spec_handle()))
        } else if self.spec_api() == spec_cocoa() {
            Some(StandardWindowHandle::AppKit(self.spec_handle()))
        } else if self.spec_api() == spec_x11() {
            Some(StandardWindowHandle::Xlib(self.spec_handle()))
        } else {
            None
        }
    }
}

} // verus!
