use display_list::engine::{
    object, to_c_int, BoundDisplayList, DisplayListIsEmpty, DisplayListToPixmap,
    DisplayListToTextPage, DropDisplayList, NewDisplayList, NewImageFromDisplayList,
    RunDisplayList,
};
use display_list::{
    Colorspace, Cookie, Device, DisplayList, Error, Fault, Image, Matrix, Pixmap, Rect, Scalar,
    TextPage, TextPageFlags,
};

fn scalar(value: f32) -> Scalar {
    Scalar::from_bits(value.to_bits())
}

fn rect(x0: f32, y0: f32, x1: f32, y1: f32) -> Rect {
    Rect { x0: scalar(x0), y0: scalar(y0), x1: scalar(x1), y1: scalar(y1) }
}

fn identity() -> Matrix {
    Matrix {
        a: scalar(1.0),
        b: scalar(0.0),
        c: scalar(0.0),
        d: scalar(1.0),
        e: scalar(0.0),
        f: scalar(0.0),
    }
}

fn fault(code: i32, message: &str) -> Fault {
    Fault { code, message: String::from(message) }
}

fn is_send_and_sync<T: Send + Sync>() -> bool {
    true
}

#[test]
fn scalar_round_trips_its_bits() {
    assert_eq!(Scalar::from_bits(0x4263_3333).to_bits(), 0x4263_3333);
    assert_eq!(f32::from_bits(scalar(56.8).to_bits()), 56.8);
    assert_eq!(scalar(-0.0).to_bits(), 0x8000_0000);
}

#[test]
fn new_asks_for_a_recording_of_the_media_box() {
    let media_box = rect(0.0, 0.0, 595.0, 842.0);
    assert_eq!(DisplayList::new(media_box), NewDisplayList { media_box });
}

#[test]
fn new_list_is_live_and_holds_the_handle() {
    let list = DisplayList::new(rect(0.0, 0.0, 10.0, 10.0)).finish(0x5000, None).unwrap();
    assert_eq!(list.as_raw(), 0x5000);
}

#[test]
fn new_fails_with_the_engine_diagnostic() {
    let failed = DisplayList::new(rect(0.0, 0.0, 10.0, 10.0))
        .finish(0, Some(fault(2, "malloc (64 bytes) failed")));
    match failed {
        Err(e) => assert_eq!(e, Error::Allocation(Some(fault(2, "malloc (64 bytes) failed")))),
        Ok(_) => panic!("a list was made of a failed allocation"),
    }
}

#[test]
fn new_exposes_no_handle_when_the_engine_raised_a_fault() {
    let failed =
        DisplayList::new(rect(0.0, 0.0, 10.0, 10.0)).finish(0x5000, Some(fault(1, "late")));
    assert!(matches!(failed, Err(Error::Allocation(Some(_)))));
}

#[test]
fn new_fails_on_a_null_recording() {
    let failed = DisplayList::new(rect(0.0, 0.0, 10.0, 10.0)).finish(0, None);
    assert!(matches!(failed, Err(Error::Allocation(None))));
}

#[test]
fn engine_int_has_the_bits_of_the_value() {
    assert_eq!(to_c_int(0), 0);
    assert_eq!(to_c_int(16), 16);
    assert_eq!(to_c_int(0x7fff_ffff), i32::MAX);
    assert_eq!(to_c_int(0x8000_0000), i32::MIN);
    assert_eq!(to_c_int(0xffff_fff0), -16);
    assert_eq!(to_c_int(u32::MAX), -1);
}

#[test]
fn object_tells_an_object_from_a_failure() {
    assert_eq!(object(9, None), Ok(9));
    assert_eq!(object(0, None), Err(None));
    assert_eq!(object(9, Some(fault(3, "x"))), Err(Some(fault(3, "x"))));
    assert_eq!(object(0, Some(fault(3, "x"))), Err(Some(fault(3, "x"))));
}

#[test]
fn adopted_list_holds_the_handle_it_was_given() {
    assert_eq!(DisplayList::from_raw(0x77).as_raw(), 0x77);
    assert_eq!(DisplayList::from_raw(0).as_raw(), 0);
}

#[test]
fn bounds_asks_about_this_list() {
    let list = DisplayList::from_raw(0x77);
    assert_eq!(list.bounds(), BoundDisplayList { list: 0x77 });
}

#[test]
fn is_empty_asks_about_this_list() {
    let list = DisplayList::from_raw(0x77);
    assert_eq!(list.is_empty(), DisplayListIsEmpty { list: 0x77 });
}

#[test]
fn is_empty_reads_a_positive_answer_as_yes() {
    let list = DisplayList::from_raw(0x77);
    assert!(list.is_empty().finish(1));
    assert!(list.is_empty().finish(i32::MAX));
    assert!(!list.is_empty().finish(0));
    assert!(!list.is_empty().finish(-1));
}

#[test]
fn empty_list_is_empty_and_has_no_hits() {
    let list = DisplayList::new(rect(0.0, 0.0, 10.0, 10.0)).finish(0x5000, None).unwrap();
    assert!(list.is_empty().finish(1));
    let call = list.search("anything", 4).unwrap();
    let zero = display_list::Quad {
        ul: display_list::Point { x: scalar(0.0), y: scalar(0.0) },
        ur: display_list::Point { x: scalar(0.0), y: scalar(0.0) },
        ll: display_list::Point { x: scalar(0.0), y: scalar(0.0) },
        lr: display_list::Point { x: scalar(0.0), y: scalar(0.0) },
    };
    assert_eq!(call.finish(Some(vec![zero; 4]), 0, None), Ok(vec![]));
}

#[test]
fn to_pixmap_describes_the_call() {
    let list = DisplayList::from_raw(0x77);
    let call = list.to_pixmap(&identity(), &Colorspace { inner: 0x900 }, true);
    assert_eq!(
        call,
        DisplayListToPixmap { list: 0x77, ctm: identity(), colorspace: 0x900, alpha: true }
    );
    let call = list.to_pixmap(&identity(), &Colorspace { inner: 0x901 }, false);
    assert_eq!(call.colorspace, 0x901);
    assert!(!call.alpha);
}

#[test]
fn to_pixmap_twice_describes_the_same_call() {
    let list = DisplayList::from_raw(0x77);
    let cs = Colorspace { inner: 0x900 };
    assert_eq!(list.to_pixmap(&identity(), &cs, true), list.to_pixmap(&identity(), &cs, true));
}

#[test]
fn to_pixmap_yields_the_pixmap_or_a_render_error() {
    let list = DisplayList::from_raw(0x77);
    let cs = Colorspace { inner: 0x900 };
    let call = || list.to_pixmap(&identity(), &cs, true);
    assert_eq!(call().finish(0xa00, None), Ok(Pixmap { inner: 0xa00 }));
    assert_eq!(
        call().finish(0, Some(fault(6, "unsupported colorspace"))),
        Err(Error::Render(Some(fault(6, "unsupported colorspace"))))
    );
    assert_eq!(call().finish(0, None), Err(Error::Render(None)));
    assert_eq!(call().finish(0xa00, Some(fault(1, "x"))), Err(Error::Render(Some(fault(1, "x")))));
}

#[test]
fn to_text_page_passes_the_option_bits() {
    let list = DisplayList::from_raw(0x77);
    let call = list.to_text_page(TextPageFlags { bits: 0b101 });
    assert_eq!(call, DisplayListToTextPage { list: 0x77, flags: 0b101 });
    assert_eq!(list.to_text_page(TextPageFlags { bits: 0 }).flags, 0);
    assert_eq!(list.to_text_page(TextPageFlags { bits: 0x7fff_ffff }).flags, i32::MAX);
    assert_eq!(list.to_text_page(TextPageFlags { bits: 0x8000_0001 }).flags, i32::MIN + 1);
    assert_eq!(list.to_text_page(TextPageFlags { bits: u32::MAX }).flags, -1);
}

#[test]
fn to_text_page_yields_the_page_or_a_render_error() {
    let list = DisplayList::from_raw(0x77);
    let call = || list.to_text_page(TextPageFlags { bits: 1 });
    assert_eq!(call().finish(0xb00, None), Ok(TextPage { inner: 0xb00 }));
    assert_eq!(call().finish(0, Some(fault(1, "x"))), Err(Error::Render(Some(fault(1, "x")))));
    assert_eq!(call().finish(0, None), Err(Error::Render(None)));
}

#[test]
fn to_image_describes_the_call() {
    let list = DisplayList::from_raw(0x77);
    let call = list.to_image(scalar(100.0), scalar(50.5));
    assert_eq!(
        call,
        NewImageFromDisplayList { list: 0x77, width: scalar(100.0), height: scalar(50.5) }
    );
}

#[test]
fn to_image_yields_the_image_or_a_render_error() {
    let list = DisplayList::from_raw(0x77);
    let call = || list.to_image(scalar(100.0), scalar(50.5));
    assert_eq!(call().finish(0xc00, None), Ok(Image { inner: 0xc00 }));
    assert_eq!(call().finish(0, Some(fault(1, "x"))), Err(Error::Render(Some(fault(1, "x")))));
    assert_eq!(call().finish(0, None), Err(Error::Render(None)));
}

#[test]
fn run_passes_no_cookie() {
    let list = DisplayList::from_raw(0x77);
    let area = rect(0.0, 0.0, 100.0, 100.0);
    let call = list.run(&Device { dev: 0xd00 }, &identity(), area);
    assert_eq!(
        call,
        RunDisplayList { list: 0x77, device: 0xd00, ctm: identity(), area, cookie: None }
    );
}

#[test]
fn run_with_cookie_passes_the_cookie() {
    let list = DisplayList::from_raw(0x77);
    let area = rect(0.0, 0.0, 100.0, 100.0);
    let call =
        list.run_with_cookie(&Device { dev: 0xd00 }, &identity(), area, &Cookie { inner: 0xe00 });
    assert_eq!(
        call,
        RunDisplayList { list: 0x77, device: 0xd00, ctm: identity(), area, cookie: Some(0xe00) }
    );
}

#[test]
fn run_with_cookie_differs_from_run_in_the_cookie_alone() {
    let list = DisplayList::from_raw(0x77);
    let area = rect(1.0, 2.0, 3.0, 4.0);
    let device = Device { dev: 0xd00 };
    let plain = list.run(&device, &identity(), area);
    let with = list.run_with_cookie(&device, &identity(), area, &Cookie { inner: 0xe00 });
    assert_eq!(RunDisplayList { cookie: None, ..with }, plain);
}

#[test]
fn run_succeeds_unless_the_engine_raised_a_fault() {
    let list = DisplayList::from_raw(0x77);
    let call = || list.run(&Device { dev: 0xd00 }, &identity(), rect(0.0, 0.0, 1.0, 1.0));
    assert_eq!(call().finish(None), Ok(()));
    assert_eq!(
        call().finish(Some(fault(7, "syntax error in content stream"))),
        Err(Error::Render(Some(fault(7, "syntax error in content stream"))))
    );
}

#[test]
fn cancelled_replay_is_a_success() {
    // The token was signalled before the replay began: the engine stops at
    // its first poll, forwards nothing and raises no fault.
    let list = DisplayList::from_raw(0x77);
    let cookie = Cookie { inner: 0xe00 };
    let call = list.run_with_cookie(
        &Device { dev: 0xd00 },
        &identity(),
        rect(0.0, 0.0, 1.0, 1.0),
        &cookie,
    );
    assert_eq!(call.cookie, Some(0xe00));
    assert_eq!(call.finish(None), Ok(()));
}

#[test]
fn release_gives_the_reference_back_once() {
    let mut list = DisplayList::from_raw(0x77);
    assert_eq!(list.release(), Some(DropDisplayList { list: 0x77 }));
    assert_eq!(list.as_raw(), 0);
    assert_eq!(list.release(), None);
    assert_eq!(list.as_raw(), 0);
}

#[test]
fn release_of_a_null_list_asks_nothing() {
    let mut list = DisplayList::from_raw(0);
    assert_eq!(list.release(), None);
}

#[test]
fn display_list_can_be_moved_and_shared_across_threads() {
    assert!(is_send_and_sync::<DisplayList>());
}
