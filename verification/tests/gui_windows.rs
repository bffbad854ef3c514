use clack_extensions::gui::adjust_size_request;
use clap_sys::ext::gui as sys_gui;
use clack_extensions::gui::{
    adjust_size_answer, adjust_size_reply, preferred_api_reply, call_outcome, clap_gui_resize_hints, handle_adjust_size,
    preferred_api_answer, resize_hints_answer, resize_hints_query_record, resize_hints_reply,
    size_answer, size_reply, AspectRatioStrategy, GuiApiType, GuiCall, GuiConfiguration, GuiError,
    GuiResizeHints, GuiSize, PluginGuiImpl, StandardWindowHandle, Window,
};

#[test]
fn gui_size_packs_into_u64() {
    let ui_size = GuiSize { width: 42, height: 69 };
    let packed = ui_size.to_u64();
    assert_eq!(ui_size, GuiSize::from_u64(packed));
    assert_eq!(packed, 42 + (69u64 << 32));
}

#[test]
fn gui_size_packing_edges() {
    for size in [
        GuiSize { width: 0, height: 0 },
        GuiSize { width: u32::MAX, height: 0 },
        GuiSize { width: 0, height: u32::MAX },
        GuiSize { width: u32::MAX, height: u32::MAX },
    ] {
        assert_eq!(GuiSize::from_u64(size.to_u64()), size);
    }
    for raw in [0u64, 1, u64::MAX, 0x1234_5678_9abc_def0] {
        assert_eq!(GuiSize::from_u64(raw).to_u64(), raw);
    }
}

#[test]
fn gui_size_area_and_order() {
    assert_eq!(GuiSize { width: 3, height: 4 }.area(), 12);
    assert_eq!(GuiSize { width: u32::MAX, height: u32::MAX }.area(), (u32::MAX as u64) * (u32::MAX as u64));
    assert!(GuiSize { width: 2, height: 2 } < GuiSize { width: 1, height: 5 });
    assert!(GuiSize { width: 10, height: 1 } > GuiSize { width: 3, height: 3 });
    assert_eq!(
        GuiSize { width: 2, height: 3 }.partial_cmp(&GuiSize { width: 3, height: 2 }),
        Some(std::cmp::Ordering::Equal)
    );
}

#[test]
fn resize_hints_roundtrip() {
    let hints = GuiResizeHints {
        can_resize_horizontally: true,
        can_resize_vertically: false,
        strategy: AspectRatioStrategy::Preserve { width: 16, height: 9 },
    };
    assert_eq!(GuiResizeHints::from_raw(&hints.to_raw()), hints);
    let free = GuiResizeHints {
        can_resize_horizontally: true,
        can_resize_vertically: true,
        strategy: AspectRatioStrategy::Disregard,
    };
    assert_eq!(
        free.to_raw(),
        clap_gui_resize_hints {
            can_resize_horizontally: true,
            can_resize_vertically: true,
            preserve_aspect_ratio: false,
            aspect_ratio_width: 1,
            aspect_ratio_height: 1,
        }
    );
    assert_eq!(GuiResizeHints::from_raw(&free.to_raw()), free);
}

#[test]
fn resize_hints_from_odd_records() {
    let raw = clap_gui_resize_hints {
        can_resize_horizontally: false,
        can_resize_vertically: false,
        preserve_aspect_ratio: true,
        aspect_ratio_width: 4,
        aspect_ratio_height: 3,
    };
    assert_eq!(GuiResizeHints::from_raw(&raw).strategy, AspectRatioStrategy::Disregard);
    let raw = clap_gui_resize_hints {
        can_resize_horizontally: true,
        can_resize_vertically: false,
        preserve_aspect_ratio: true,
        aspect_ratio_width: 0,
        aspect_ratio_height: 3,
    };
    assert_eq!(GuiResizeHints::from_raw(&raw).strategy, AspectRatioStrategy::Disregard);
}

#[test]
fn resize_hints_query_and_answer() {
    let query = resize_hints_query_record();
    assert_eq!(query.aspect_ratio_width, u32::MAX);
    assert_eq!(query.aspect_ratio_height, u32::MAX);
    assert_eq!(resize_hints_answer(true, &query), None);
    let (written, ok) = resize_hints_reply(Some(GuiResizeHints {
        can_resize_horizontally: true,
        can_resize_vertically: true,
        strategy: AspectRatioStrategy::Preserve { width: 2, height: 1 },
    }));
    assert!(ok);
    assert_eq!(
        resize_hints_answer(true, &written).unwrap().strategy,
        AspectRatioStrategy::Preserve { width: 2, height: 1 }
    );
    assert_eq!(resize_hints_answer(false, &written), None);
    let (none_written, ok) = resize_hints_reply(None);
    assert!(!ok);
    assert!(!none_written.preserve_aspect_ratio);
    assert_eq!((none_written.aspect_ratio_width, none_written.aspect_ratio_height), (1, 1));
}

#[test]
fn size_query_and_answer() {
    assert_eq!(size_reply(None), (0, 0, false));
    assert_eq!(size_reply(Some(GuiSize { width: 640, height: 480 })), (640, 480, true));
    assert_eq!(size_answer(true, 640, 480), Some(GuiSize { width: 640, height: 480 }));
    assert_eq!(size_answer(true, 0, 480), None);
    assert_eq!(size_answer(false, 640, 480), None);
    let requested = GuiSize { width: 10, height: 20 };
    assert_eq!(adjust_size_answer(true, requested, 10, 20), Some(GuiSize { width: 10, height: 20 }));
    assert_eq!(adjust_size_answer(true, requested, 8, 15), Some(GuiSize { width: 8, height: 15 }));
    assert_eq!(adjust_size_answer(true, requested, 11, 20), None);
    assert_eq!(adjust_size_answer(true, requested, 10, 21), None);
    assert_eq!(adjust_size_answer(false, requested, 10, 20), None);
    assert_eq!(adjust_size_reply(Some(GuiSize { width: 5, height: 6 }), 10, 20), (5, 6, true));
    assert_eq!(adjust_size_reply(None, 10, 20), (10, 20, false));
}

#[test]
fn call_outcomes() {
    assert_eq!(call_outcome(GuiCall::Create, Some(true)), Ok(()));
    assert_eq!(call_outcome(GuiCall::Create, Some(false)), Err(GuiError::CreateError));
    assert_eq!(call_outcome(GuiCall::Create, None), Err(GuiError::CreateError));
    assert_eq!(call_outcome(GuiCall::SetScale, None), Err(GuiError::SetScaleError));
    assert_eq!(call_outcome(GuiCall::SetScale, Some(false)), Err(GuiError::SetScaleError));
    assert_eq!(call_outcome(GuiCall::SetSize, None), Err(GuiError::ResizeError));
    assert_eq!(call_outcome(GuiCall::SetSize, Some(false)), Err(GuiError::ResizeError));
    assert_eq!(call_outcome(GuiCall::SetParent, None), Err(GuiError::SetParentError));
    assert_eq!(call_outcome(GuiCall::SetTransient, Some(false)), Err(GuiError::SetTransientError));
    assert_eq!(call_outcome(GuiCall::SetTransient, None), Err(GuiError::SetTransientError));
    assert_eq!(call_outcome(GuiCall::Show, Some(false)), Err(GuiError::ShowError));
    assert_eq!(call_outcome(GuiCall::Hide, Some(false)), Err(GuiError::HideError));
    assert_eq!(call_outcome(GuiCall::Hide, None), Err(GuiError::HideError));
    assert_eq!(call_outcome(GuiCall::RequestResize, None), Err(GuiError::RequestResizeError));
    assert_eq!(call_outcome(GuiCall::RequestShow, Some(false)), Err(GuiError::RequestShowError));
    assert_eq!(call_outcome(GuiCall::RequestHide, Some(false)), Err(GuiError::RequestHideError));
    assert_eq!(call_outcome(GuiCall::RequestHide, Some(true)), Ok(()));
    assert_eq!(GuiCall::Hide.error(), GuiError::HideError);
}

#[test]
fn gui_error_messages() {
    assert_eq!(GuiError::CreateError.message(), "Failed to create plugin GUI");
    assert_eq!(GuiError::SetScaleError.message(), "Failed to set plugin window scaling");
    assert_eq!(GuiError::ResizeError.message(), "Failed to resize plugin window");
    assert_eq!(GuiError::HideError.message(), "Failed to hide plugin window");
    assert_eq!(
        GuiError::RequestShowError.message(),
        "Request to show host parent window failed"
    );
}

#[test]
fn api_names_match_clap_sys() {
    assert_eq!(GuiApiType::win32().0, sys_gui::CLAP_WINDOW_API_WIN32.to_bytes().to_vec());
    assert_eq!(GuiApiType::cocoa().0, sys_gui::CLAP_WINDOW_API_COCOA.to_bytes().to_vec());
    assert_eq!(GuiApiType::x11().0, sys_gui::CLAP_WINDOW_API_X11.to_bytes().to_vec());
    assert_eq!(GuiApiType::wayland().0, sys_gui::CLAP_WINDOW_API_WAYLAND.to_bytes().to_vec());
}

#[test]
fn standard_apis() {
    assert!(GuiApiType::win32().can_provide_raw_window_handle());
    assert!(GuiApiType::cocoa().can_provide_raw_window_handle());
    assert!(GuiApiType::x11().can_provide_raw_window_handle());
    assert!(!GuiApiType::wayland().can_provide_raw_window_handle());
    assert_eq!(GuiApiType(b"x11".to_vec()).to_standard_api(), Some(GuiApiType::x11()));
    assert_eq!(GuiApiType(b"wayland".to_vec()).to_standard_api(), Some(GuiApiType::wayland()));
    assert_eq!(GuiApiType(b"custom".to_vec()).to_standard_api(), None);
    assert!(GuiApiType(b"X11".to_vec()) != GuiApiType::x11());
}

#[test]
fn windows_and_their_handles() {
    let w = Window::from_x11_handle(0x4200);
    assert_eq!(w.api_type(), GuiApiType::x11());
    assert_eq!(w.as_generic_ptr(), 0x4200);
    assert_eq!(w.as_x11_handle(), Some(0x4200));
    assert_eq!(w.as_win32_hwnd(), None);
    assert_eq!(w.as_cocoa_nsview(), None);
    assert_eq!(w.standard_handle(), Some(StandardWindowHandle::Xlib(0x4200)));

    let w = Window::from_win32_hwnd(7);
    assert_eq!(w.as_win32_hwnd(), Some(7));
    assert_eq!(w.standard_handle(), Some(StandardWindowHandle::Win32(7)));

    let w = Window::from_cocoa_nsview(9);
    assert_eq!(w.as_cocoa_nsview(), Some(9));
    assert_eq!(w.standard_handle(), Some(StandardWindowHandle::AppKit(9)));

    let custom = Window::from_generic_ptr(GuiApiType(b"custom".to_vec()), 3);
    assert_eq!(custom.standard_handle(), None);
    assert!(custom.to_standard_api_type().is_none());
    let wayland = Window::from_generic_ptr(GuiApiType(b"wayland".to_vec()), 5);
    assert_eq!(wayland.standard_handle(), None);
    assert_eq!(wayland.to_standard_api_type().unwrap().as_generic_ptr(), 5);
}

#[test]
fn standard_handle_roundtrip() {
    for h in [
        StandardWindowHandle::Win32(1),
        StandardWindowHandle::AppKit(2),
        StandardWindowHandle::Xlib(3),
    ] {
        assert_eq!(Window::from_standard_handle(h).standard_handle(), Some(h));
    }
}

#[test]
fn preferred_api_answers() {
    let c = preferred_api_answer(true, Some(b"cocoa".to_vec()), true).unwrap();
    assert_eq!(c.api_type, GuiApiType::cocoa());
    assert!(c.is_floating);
    assert!(preferred_api_answer(false, Some(b"cocoa".to_vec()), true).is_none());
    assert!(preferred_api_answer(true, None, false).is_none());
}

struct FixedGui {
    best: Option<GuiSize>,
}

impl PluginGuiImpl for FixedGui {
    fn is_api_supported(&mut self, configuration: GuiConfiguration) -> bool {
        configuration.api_type == GuiApiType::x11() && !configuration.is_floating
    }

    fn get_preferred_api(&mut self) -> Option<GuiConfiguration> {
        Some(GuiConfiguration { api_type: GuiApiType::x11(), is_floating: false })
    }

    fn create(&mut self, _configuration: GuiConfiguration) -> Result<(), GuiError> {
        Ok(())
    }

    fn destroy(&mut self) {}

    fn get_size(&mut self) -> Option<GuiSize> {
        self.best
    }

    fn adjust_size(&mut self, _size: GuiSize) -> Option<GuiSize> {
        self.best
    }

    fn set_size(&mut self, _size: GuiSize) -> Result<(), GuiError> {
        Ok(())
    }

    fn set_parent(&mut self, _window: Window) -> Result<(), GuiError> {
        Ok(())
    }

    fn set_transient(&mut self, _window: Window) -> Result<(), GuiError> {
        Err(GuiError::SetTransientError)
    }

    fn show(&mut self) -> Result<(), GuiError> {
        Ok(())
    }

    fn hide_window(&mut self) -> Result<(), GuiError> {
        Ok(())
    }
}

#[test]
fn adjust_size_through_the_plugin() {
    let mut gui = FixedGui { best: Some(GuiSize { width: 300, height: 200 }) };
    assert_eq!(handle_adjust_size(&mut gui, 333, 222), (300, 200, true));
    let mut gui = FixedGui { best: None };
    assert_eq!(handle_adjust_size(&mut gui, 333, 222), (333, 222, false));
}

#[test]
fn plugin_gui_defaults() {
    let mut gui = FixedGui { best: None };
    assert_eq!(gui.set_scale(2.0f64.to_bits()), Err(GuiError::SetScaleError));
    assert!(!gui.can_resize());
    assert_eq!(gui.get_resize_hints(), None);
    assert!(gui.is_api_supported(GuiConfiguration { api_type: GuiApiType::x11(), is_floating: false }));
    assert_eq!(gui.get_preferred_api().unwrap().api_type, GuiApiType::x11());
}

#[test]
fn preferred_api_reply_and_answer() {
    let (api, floating, ok) = preferred_api_reply(
        Some(GuiConfiguration { api_type: GuiApiType::wayland(), is_floating: false }),
        None,
        true,
    );
    assert!(ok);
    assert_eq!(api, Some(b"wayland".to_vec()));
    assert!(!floating);
    let c = preferred_api_answer(ok, api, floating).unwrap();
    assert_eq!(c.api_type, GuiApiType::wayland());
    assert!(!c.is_floating);

    let (api, floating, ok) = preferred_api_reply(None, None, true);
    assert!(!ok);
    assert_eq!(api, None);
    assert!(floating);
    assert!(preferred_api_answer(ok, api, floating).is_none());
}

#[test]
fn adjust_size_requests() {
    assert_eq!(adjust_size_request(640, 480), GuiSize { width: 640, height: 480 });
}
