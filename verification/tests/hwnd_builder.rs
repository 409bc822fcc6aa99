use signal::caption::{custom_caption_proc, custom_caption_work, title_rect, wndproc, CaptionWork, Route};
use signal::droppable::Droppable;
use signal::errors::class_registration_failed;
use signal::hit_test::Rect;
use signal::hwnd_builder::{
    create_window_handle, window_proc, Dispatch, HwndBuilder, BS_FLAT, BS_PUSHBUTTON, CW_USEDEFAULT,
};
use signal::messages::{
    is_quit, WM_ACTIVATE, WM_CREATE, WM_LBUTTONDOWN, WM_NCCALCSIZE, WM_NCCREATE, WM_NCHITTEST,
    WM_PAINT, WM_QUIT,
};
use signal::param::WParam;

#[derive(Default)]
pub struct StructWithCallback {
    callback: Option<Box<dyn Fn(i32)>>,
    #[allow(dead_code)]
    droppable: Droppable,
}

impl StructWithCallback {
    fn callback(mut self, callback: impl Fn(i32) + 'static) -> Self {
        self.callback = Some(Box::new(callback));
        self
    }

    fn build(&self) -> Box<dyn Fn(bool) + '_> {
        let handler = move |value: bool| {
            if value {
                if let Some(callback) = &self.callback {
                    callback(7);
                }
            }
        };

        Box::new(handler)
    }
}

#[test]
fn it_works() {
    let binding = StructWithCallback::default().callback(|value| {
        println!("value is {}", value);
    });

    let some = binding.build();

    some(true);
}

#[test]
fn nothing_chosen_is_left_to_the_system() {
    let request = create_window_handle().build();
    assert_eq!(request.class_name, "");
    assert_eq!(request.window_name, "");
    assert_eq!((request.x, request.y), (CW_USEDEFAULT, CW_USEDEFAULT));
    assert_eq!((request.width, request.height), (i32::MIN, i32::MIN));
    assert_eq!(request.parent, 0);
    assert_eq!(request.style, 0);
    assert_eq!(request.ex_style, 0);
    assert!(!HwndBuilder::default().has_parent());
}

#[test]
fn a_top_level_window() {
    let request = create_window_handle()
        .class_name("Sample Window Class")
        .size((500, 500))
        .position((300, 300))
        .text("Learn to Program Windows")
        .window()
        .resizable()
        .maximizable()
        .minimizable()
        .always_on_top()
        .visible()
        .build();
    assert_eq!(request.class_name, "Sample Window Class");
    assert_eq!(request.window_name, "Learn to Program Windows");
    assert_eq!((request.x, request.y, request.width, request.height), (300, 300, 500, 500));
    assert_eq!(request.parent, 0);
    assert_eq!(request.style, 0x16CF_0000);
    assert_eq!(request.ex_style, 0x0000_0118);
}

#[test]
fn a_button_in_a_window() {
    let builder = create_window_handle()
        .class_name("BUTTON")
        .text("maximize")
        .position((0, 10))
        .size((80, 20))
        .parent(0x5678)
        .push_button()
        .flat()
        .child()
        .visible();
    assert!(builder.has_parent());
    let request = builder.build();
    assert_eq!(request.class_name, "BUTTON");
    assert_eq!(request.window_name, "maximize");
    assert_eq!((request.x, request.y, request.width, request.height), (0, 10, 80, 20));
    assert_eq!(request.parent, 0x5678);
    assert_eq!(request.style, 0x5000_8000);
    assert_eq!(request.ex_style, 0);
    assert_eq!(BS_PUSHBUTTON, 0);
    assert_eq!(BS_FLAT, 0x8000);
}

#[test]
fn each_step_adds_its_style() {
    let style = |builder: HwndBuilder| {
        let request = builder.build();
        (request.style, request.ex_style)
    };
    assert_eq!(style(create_window_handle().resizable()), (0x0004_0000, 0));
    assert_eq!(style(create_window_handle().minimizable()), (0x0002_0000, 0));
    assert_eq!(style(create_window_handle().maximizable()), (0x0001_0000, 0));
    assert_eq!(style(create_window_handle().visible()), (0x1000_0000, 0));
    assert_eq!(style(create_window_handle().push_button()), (0, 0));
    assert_eq!(style(create_window_handle().flat()), (0x8000, 0));
    assert_eq!(style(create_window_handle().child()), (0x4000_0000, 0));
    assert_eq!(style(create_window_handle().popup()), (0x8000_0000, 0));
    assert_eq!(style(create_window_handle().minimized()), (0x2000_0000, 0));
    assert_eq!(style(create_window_handle().maximized()), (0x0100_0000, 0));
    assert_eq!(style(create_window_handle().on_taskbar()), (0, 0x0004_0000));
    assert_eq!(style(create_window_handle().always_on_top()), (0, 0x0000_0008));
    assert_eq!(style(create_window_handle().no_back_buffer()), (0, 0x0020_0000));
    assert_eq!(style(create_window_handle().ignore_cursor_event()), (0, 0x0008_0020));
    assert_eq!(style(create_window_handle().window()), (0x06C8_0000, 0x0000_0110));
}

#[test]
fn window_replaces_and_fullscreen_removes() {
    let request = create_window_handle().popup().on_taskbar().window().build();
    assert_eq!((request.style, request.ex_style), (0x06C8_0000, 0x0000_0110));
    let request = create_window_handle().window().resizable().visible().fullscreen().build();
    assert_eq!((request.style, request.ex_style), (0x1600_0000, 0x0000_0110));
    let request = create_window_handle().fullscreen().resizable().build();
    assert_eq!(request.style, 0x0004_0000);
}

#[test]
fn later_choices_replace_earlier_ones() {
    let request = create_window_handle()
        .class_name("a")
        .class_name("b")
        .text("one")
        .text("two")
        .size((1, 2))
        .size((3, 4))
        .position((5, 6))
        .position((7, 8))
        .parent(1)
        .parent(2)
        .build();
    assert_eq!(request.class_name, "b");
    assert_eq!(request.window_name, "two");
    assert_eq!((request.x, request.y, request.width, request.height), (7, 8, 3, 4));
    assert_eq!(request.parent, 2);
}

#[test]
fn window_procedure_of_a_built_window() {
    assert_eq!(WM_NCCREATE, 129);
    assert_eq!(window_proc(WM_NCCREATE, false, false), Dispatch::Attach);
    assert_eq!(window_proc(WM_NCCREATE, true, true), Dispatch::Attach);
    assert_eq!(window_proc(WM_PAINT, true, true), Dispatch::Callback);
    assert_eq!(window_proc(WM_PAINT, true, false), Dispatch::Default);
    assert_eq!(window_proc(WM_PAINT, false, true), Dispatch::Default);
    assert_eq!(window_proc(WM_PAINT, false, false), Dispatch::Default);
}

#[test]
fn caption_work() {
    assert_eq!(custom_caption_work(WM_CREATE, 0), CaptionWork::AnnounceFrame);
    assert_eq!(custom_caption_work(WM_ACTIVATE, 5), CaptionWork::ExtendFrame);
    assert_eq!(custom_caption_work(WM_PAINT, 0), CaptionWork::Paint);
    assert_eq!(custom_caption_work(WM_NCHITTEST, 0), CaptionWork::HitTest);
    assert_eq!(custom_caption_work(WM_NCHITTEST, 20), CaptionWork::Nothing);
    assert_eq!(custom_caption_work(WM_NCCALCSIZE, 0), CaptionWork::Nothing);
    assert_eq!(custom_caption_work(WM_LBUTTONDOWN, 0), CaptionWork::Nothing);
}

#[test]
fn caption_answers() {
    let one = WParam(1);
    let none = WParam(0);
    // Creation, activation and painting go on, answered with zero.
    for message in [WM_CREATE, WM_ACTIVATE, WM_PAINT] {
        assert_eq!(custom_caption_proc(message, none, true, 9, 0), (0, true));
        assert_eq!(custom_caption_proc(message, one, false, 9, 3), (0, true));
    }
    // The size of the client area stays here, but only when asked with one.
    assert_eq!(custom_caption_proc(WM_NCCALCSIZE, one, false, 0, 0), (0, false));
    assert_eq!(custom_caption_proc(WM_NCCALCSIZE, one, true, 4, 0), (4, false));
    assert_eq!(custom_caption_proc(WM_NCCALCSIZE, none, false, 0, 0), (0, true));
    assert_eq!(custom_caption_proc(WM_NCCALCSIZE, none, true, 4, 0), (4, false));
    // A hit in the frame stays here; a miss goes on unless it was handled.
    assert_eq!(custom_caption_proc(WM_NCHITTEST, none, false, 0, 13), (13, false));
    assert_eq!(custom_caption_proc(WM_NCHITTEST, none, false, 0, 0), (0, true));
    assert_eq!(custom_caption_proc(WM_NCHITTEST, none, true, 0, 0), (0, false));
    assert_eq!(custom_caption_proc(WM_NCHITTEST, none, true, 20, 13), (20, false));
    // Anything else: the composition's answer, and on if it did not handle it.
    assert_eq!(custom_caption_proc(WM_LBUTTONDOWN, none, false, 0, 0), (0, true));
    assert_eq!(custom_caption_proc(WM_LBUTTONDOWN, none, true, 7, 0), (7, false));
}

#[test]
fn who_answers() {
    assert_eq!(wndproc(true, (5, true)), Route::Application);
    assert_eq!(wndproc(true, (5, false)), Route::Answer(5));
    assert_eq!(wndproc(false, (5, true)), Route::Answer(0));
    assert_eq!(wndproc(false, (5, false)), Route::Answer(0));
}

#[test]
fn where_the_title_goes() {
    let client = Rect { left: 0, top: 0, right: 500, bottom: 400 };
    assert_eq!(title_rect(client), Rect { left: 8, top: 8, right: 375, bottom: 50 });
    let client = Rect { left: -20, top: 30, right: 100, bottom: 10 };
    assert_eq!(title_rect(client), Rect { left: -12, top: 38, right: -25, bottom: 50 });
}

#[test]
fn quit_ends_the_loop() {
    assert!(is_quit(WM_QUIT));
    assert!(is_quit(18));
    assert!(!is_quit(WM_PAINT));
    assert!(!is_quit(0));
}

#[test]
fn class_registration() {
    assert!(class_registration_failed(0, 5));
    assert!(class_registration_failed(0, 0));
    assert!(!class_registration_failed(0, 1410));
    assert!(!class_registration_failed(0xC001, 0));
    assert!(!class_registration_failed(0xC001, 5));
}
