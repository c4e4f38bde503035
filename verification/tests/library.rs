use xwrap::{
    ClientMessage, Display, Event, GC, Request, SharedMemory, ShmImage, Window, WindowEvent,
    X11Error, EXPOSE, KEY_PRESS, MAP_FAILED_ADDRESS, SEGMENT_FLAGS, WINDOW_ATTRIBUTE_MASK,
    WINDOW_DEPTH, WINDOW_EVENT_MASK,
};

fn reason(e: &X11Error) -> &'static str {
    e.reason()
}

fn open_display() -> Display {
    Display::open(0x1000).expect("non-null handle must open")
}

#[test]
fn open_display_decodes_null_sentinel() {
    let err = Display::open(0).unwrap_err();
    assert_eq!(reason(&err), "open display");
    let ok = Display::open(0x1000);
    assert!(ok.is_ok());
}

#[test]
fn error_from_reason_string() {
    let e = X11Error::from("open display");
    let X11Error::OperationFailed(m) = e;
    assert_eq!(m, "open display");
}

#[test]
fn sync_and_close_requests() {
    let d = open_display();
    assert_eq!(d.sync(), Request::Sync);
    assert_eq!(d.close(), Request::CloseDisplay);
}

#[test]
fn window_create_registers_protocols_then_input() {
    let d = open_display();
    let (w, reqs) = Window::create(&d, 42, 7, 8).expect("non-zero id must create");
    assert_eq!(
        reqs,
        vec![
            Request::SetWmProtocols { window: 42, delete_window: 8 },
            Request::SelectInput { window: 42, event_mask: WINDOW_EVENT_MASK },
        ]
    );
    assert_eq!(w.window_id(), 42);
}

#[test]
fn window_create_rejects_zero_id() {
    let d = open_display();
    let err = Window::create(&d, 0, 7, 8).unwrap_err();
    assert_eq!(reason(&err), "create window");
}

#[test]
fn window_create_is_consistent_across_repeated_calls() {
    // The same native outcome always yields the same result, for a zero
    // width as for any other: repeated identical calls cannot diverge.
    let d = open_display();
    let first = Window::create(&d, 0, 7, 8).unwrap_err();
    let second = Window::create(&d, 0, 7, 8).unwrap_err();
    assert_eq!(reason(&first), reason(&second));
    let plan_a = Window::creation_plan(0, 10);
    let plan_b = Window::creation_plan(0, 10);
    assert_eq!(plan_a.width, plan_b.width);
    assert_eq!(plan_a.attribute_mask, WINDOW_ATTRIBUTE_MASK);
    assert_eq!(plan_b.attribute_mask, WINDOW_ATTRIBUTE_MASK);
    assert_eq!(plan_a.depth, WINDOW_DEPTH);
    assert_eq!(plan_a.protocols_atom_name, "WM_PROTOCOLS");
    assert_eq!(plan_a.delete_atom_name, "WM_DELETE_WINDOW");
}

fn test_window(d: &Display) -> Window<'_> {
    let (w, _) = Window::create(d, 42, 7, 8).expect("non-zero id must create");
    w
}

#[test]
fn check_event_before_any_event_is_none() {
    let d = open_display();
    let w = test_window(&d);
    assert_eq!(w.check_event(None, None), None);
}

#[test]
fn close_button_message_is_delete() {
    let d = open_display();
    let w = test_window(&d);
    // The window was created with wm_protocols == 7, wm_delete_window == 8.
    let m = ClientMessage { message_type: 7, data0: 8 };
    assert_eq!(w.check_event(Some(m), None), Some(Event::Delete));
    assert_eq!(w.check_client_message(Some(m)), Some(Event::Delete));
}

#[test]
fn foreign_client_message_is_ignored() {
    let d = open_display();
    let w = test_window(&d);
    assert_eq!(w.check_event(Some(ClientMessage { message_type: 9, data0: 8 }), None), None);
    assert_eq!(w.check_event(Some(ClientMessage { message_type: 7, data0: 9 }), None), None);
}

#[test]
fn key_press_and_expose_are_classified() {
    let d = open_display();
    let w = test_window(&d);
    let key = WindowEvent { event_type: KEY_PRESS, keycode: 53 };
    let expose = WindowEvent { event_type: EXPOSE, keycode: 0 };
    let other = WindowEvent { event_type: 4, keycode: 0 };
    assert_eq!(w.check_event(None, Some(key)), Some(Event::Key(53)));
    assert_eq!(w.check_event(None, Some(expose)), Some(Event::Expose));
    assert_eq!(w.check_event(None, Some(other)), None);
    // A matching close request wins over whatever the second poll holds.
    let m = ClientMessage { message_type: 7, data0: 8 };
    assert_eq!(w.check_event(Some(m), Some(key)), Some(Event::Delete));
}

#[test]
fn titles_with_interior_nul_are_rejected() {
    assert!(Window::title_accepted("xwrap demo"));
    assert!(Window::title_accepted(""));
    assert!(!Window::title_accepted("bad\0title"));
    let d = open_display();
    let w = test_window(&d);
    assert_eq!(w.set_title("xwrap demo"), Request::StoreName { window: 42 });
}

#[test]
fn show_maps_then_synchronizes() {
    let d = open_display();
    let w = test_window(&d);
    assert_eq!(w.show(), vec![Request::MapWindow { window: 42 }, Request::Sync]);
}

#[test]
fn window_teardown_is_one_destroy() {
    let d = open_display();
    let w = test_window(&d);
    assert_eq!(w.destroy(), Request::DestroyWindow { window: 42 });
}

#[test]
fn gc_create_and_free() {
    let d = open_display();
    let w = test_window(&d);
    let err = GC::create(&w, 0).unwrap_err();
    assert_eq!(reason(&err), "create gc");
    let g = GC::create(&w, 0x2000).expect("non-null handle must create");
    assert_eq!(g.free(), Request::FreeGc { gc: 0x2000 });
}

#[test]
fn segment_allocate_decodes_negative_identifier() {
    let err = SharedMemory::allocate(-1).unwrap_err();
    assert_eq!(reason(&err), "create shared memory");
    assert!(SharedMemory::allocate(0).is_ok());
    assert_eq!(SEGMENT_FLAGS, 1023);
}

#[test]
fn segment_attach_failure_removes_identifier_exactly_once() {
    // Fault-injected double: allocation succeeded, the map call failed.
    let pending = SharedMemory::allocate(11).unwrap();
    let (reqs, err) = pending.attach(MAP_FAILED_ADDRESS).unwrap_err();
    assert_eq!(reason(&err), "attach to shared memory");
    let removes = reqs
        .iter()
        .filter(|r| matches!(r, Request::SegmentRemove { segment: 11 }))
        .count();
    assert_eq!(removes, 1);
    assert_eq!(reqs, vec![Request::SegmentRemove { segment: 11 }]);
}

#[test]
fn segment_release_detaches_before_removing() {
    let seg = SharedMemory::allocate(11).unwrap().attach(0xbeef).unwrap();
    assert_eq!(seg.address(), 0xbeef);
    let info = seg.as_segment_info();
    assert_eq!((info.shmseg, info.shmid, info.address, info.read_only), (0, 11, 0xbeef, 0));
    assert_eq!(
        seg.release(),
        vec![
            Request::SegmentDetach { address: 0xbeef },
            Request::SegmentRemove { segment: 11 },
        ]
    );
}

fn test_segment() -> SharedMemory {
    SharedMemory::allocate(11).unwrap().attach(0xbeef).unwrap()
}

fn test_image<'a>(d: &'a Display, width: u32, height: u32) -> ShmImage<'a> {
    let seg = test_segment();
    let size = xwrap::image_byte_size(width, height) as i32;
    let (pending, bind) =
        ShmImage::create(d, width, height, seg, 0x3000, size / height.max(1) as i32, height as i32)
            .map_err(|(_, e)| e)
            .expect("non-null descriptor must create");
    assert_eq!(bind, Request::BindImageData { image: 0x3000, address: 0xbeef });
    pending.attach(1).map_err(|(_, e)| e).expect("non-zero status must attach")
}

#[test]
fn image_create_failure_releases_the_segment() {
    let d = open_display();
    let seg = test_segment();
    let (reqs, err) = ShmImage::create(&d, 10, 10, seg, 0, 40, 10).unwrap_err();
    assert_eq!(reason(&err), "create shm image");
    assert_eq!(
        reqs,
        vec![
            Request::SegmentDetach { address: 0xbeef },
            Request::SegmentRemove { segment: 11 },
        ]
    );
}

#[test]
fn image_attach_failure_destroys_descriptor_then_releases_segment() {
    let d = open_display();
    let seg = test_segment();
    let (pending, _) = ShmImage::create(&d, 10, 10, seg, 0x3000, 40, 10).unwrap();
    let (reqs, err) = pending.attach(0).unwrap_err();
    assert_eq!(reason(&err), "attach shm image");
    assert_eq!(
        reqs,
        vec![
            Request::DestroyImage { image: 0x3000 },
            Request::SegmentDetach { address: 0xbeef },
            Request::SegmentRemove { segment: 11 },
        ]
    );
}

#[test]
fn fresh_image_is_zeroed_and_sized() {
    let d = open_display();
    let img = test_image(&d, 10, 10);
    assert_eq!((img.width(), img.height()), (10, 10));
    assert_eq!(img.buffer().len(), 400);
    assert!(img.buffer().iter().all(|&b| b == 0));
}

#[test]
fn put_pixel_packs_the_color_at_the_right_offset() {
    // Open connection, create 10x10 image, write green at (5, 5): the
    // bytes at offset (5*10+5)*4 hold blue 0x00, green 0xFF, red 0x00.
    let d = open_display();
    let mut img = test_image(&d, 10, 10);
    img.put_pixel(5, 5, 0x00FF00);
    let off = (5 * 10 + 5) * 4;
    assert_eq!(img.byte_at(off), 0x00);
    assert_eq!(img.byte_at(off + 1), 0xFF);
    assert_eq!(img.byte_at(off + 2), 0x00);
    assert_eq!(img.byte_at(off + 3), 0x00);
    // Every byte off the written pixel is still zero.
    for i in 0..400 {
        if !(off <= i && i < off + 4) {
            assert_eq!(img.byte_at(i), 0);
        }
    }
}

#[test]
fn put_pixel_overwrites_and_keeps_neighbours() {
    let d = open_display();
    let mut img = test_image(&d, 4, 3);
    img.put_pixel(0, 0, 0xAABBCCDD);
    img.put_pixel(1, 0, 0x01020304);
    img.put_pixel(0, 0, 0x11223344);
    let p0 = (0, [0x44, 0x33, 0x22, 0x11]);
    let p1 = (4, [0x04, 0x03, 0x02, 0x01]);
    for (base, bytes) in [p0, p1] {
        for (k, b) in bytes.iter().enumerate() {
            assert_eq!(img.byte_at(base + k), *b);
        }
    }
}

#[test]
fn put_image_is_one_blit_request_without_sync() {
    let d = open_display();
    let w = test_window(&d);
    let g = GC::create(&w, 0x2000).unwrap();
    let img = test_image(&d, 10, 10);
    let reqs = img.put_image(&w, &g, 3, -2);
    assert_eq!(
        reqs,
        Request::PutImage { window: 42, gc: 0x2000, image: 0x3000, dst_x: 3, dst_y: -2, width: 10, height: 10 }
    );
}

#[test]
fn image_teardown_order_holds_with_and_without_writes() {
    let d = open_display();
    let expected = vec![
        Request::ShmDetach { segment: 11 },
        Request::DestroyImage { image: 0x3000 },
        Request::Sync,
        Request::SegmentDetach { address: 0xbeef },
        Request::SegmentRemove { segment: 11 },
    ];
    let untouched = test_image(&d, 10, 10);
    assert_eq!(untouched.destroy(), expected);
    let mut written = test_image(&d, 10, 10);
    written.put_pixel(9, 9, 0xFFFFFF);
    assert_eq!(written.destroy(), expected);
}

#[test]
fn construct_then_destroy_immediately_does_not_fail() {
    let d = open_display();
    {
        let w = test_window(&d);
        let g = GC::create(&w, 0x2000).unwrap();
        assert_eq!(g.free(), Request::FreeGc { gc: 0x2000 });
        assert_eq!(w.destroy(), Request::DestroyWindow { window: 42 });
    }
    let img = test_image(&d, 1, 1);
    assert_eq!(img.destroy().len(), 5);
    let seg = test_segment();
    assert_eq!(seg.release().len(), 2);
    assert_eq!(d.close(), Request::CloseDisplay);
}

#[test]
fn sizes_and_bounds() {
    assert!(xwrap::size_fits(640, 480));
    assert_eq!(xwrap::image_byte_size(640, 480), 640 * 480 * xwrap::BYTES_PER_PIXEL);
    assert_eq!(xwrap::image_byte_size(0, 10), 0);
    assert!(xwrap::size_fits(32768, 16384));
    assert!(!xwrap::size_fits(32768, 32768));
    assert!(!xwrap::size_fits(65536, 16384));
    assert!(xwrap::descriptor_size_matches(10, 10, 40, 10));
    assert!(!xwrap::descriptor_size_matches(10, 10, 44, 10));
}

#[test]
fn whole_session_scenario() {
    // Open connection, 10x10 surface, 10x10 image, one green pixel at
    // (5, 5), blit, synchronize, teardown in reverse creation order.
    let d = Display::open(0x1000).unwrap();
    let (w, setup) = Window::create(&d, 42, 7, 8).unwrap();
    assert_eq!(setup.len(), 2);
    let g = GC::create(&w, 0x2000).unwrap();
    let mut img = test_image(&d, 10, 10);
    img.put_pixel(5, 5, 0x00FF00);
    assert_eq!(img.byte_at((5 * 10 + 5) * 4 + 1), 0xFF);
    assert_eq!(img.byte_at((5 * 10 + 5) * 4), 0x00);
    assert_eq!(img.byte_at((5 * 10 + 5) * 4 + 2), 0x00);
    let blit = img.put_image(&w, &g, 0, 0);
    assert!(matches!(blit, Request::PutImage { .. }));
    assert_eq!(d.sync(), Request::Sync);
    assert_eq!(img.destroy().len(), 5);
    assert_eq!(g.free(), Request::FreeGc { gc: 0x2000 });
    assert_eq!(w.destroy(), Request::DestroyWindow { window: 42 });
    assert_eq!(d.close(), Request::CloseDisplay);
}
