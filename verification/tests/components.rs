use trezor_ui::button::{Button, ButtonContent, ButtonMsg, ButtonState};
use trezor_ui::component::{
    ButtonRequestCode, ButtonRequestExt, Component, Event, EventCtx, Label, Pad, Paginate,
    TouchEvent,
};
use trezor_ui::confirm_action::ConfirmAction;
use trezor_ui::display::Color;
use trezor_ui::flow::{Decision, FlowMsg, FlowState};
use trezor_ui::geometry::{Alignment, Point, Rect};
use trezor_ui::hold_to_confirm::HoldToConfirm;
use trezor_ui::horizontal_page::HorizontalPage;
use trezor_ui::number_input_slider::{NumberInputSliderDialog, NumberInputSliderDialogMsg};
use trezor_ui::prompt_screen::PromptScreen;
use trezor_ui::scroll::ScrollBar;
use trezor_ui::set_brightness::SetBrightnessDialog;
use trezor_ui::swipe::{Swipe, SwipeDirection};
use trezor_ui::tap_to_confirm::TapToConfirm;
use trezor_ui::theme;
use trezor_ui::time::{Duration, Stopwatch};

fn screen() -> Rect {
    Rect::new(Point::new(0, 0), Point::new(240, 240))
}

fn touch_start(x: i16, y: i16) -> Event {
    Event::Touch(TouchEvent::TouchStart(Point::new(x, y)))
}

fn touch_move(x: i16, y: i16) -> Event {
    Event::Touch(TouchEvent::TouchMove(Point::new(x, y)))
}

fn touch_end(x: i16, y: i16) -> Event {
    Event::Touch(TouchEvent::TouchEnd(Point::new(x, y)))
}

#[test]
fn event_ctx_records_requests() {
    let mut ctx = EventCtx::new();
    assert!(!ctx.paint_requested);
    assert!(!ctx.anim_frame_requested);
    assert_eq!(ctx.page_count, None);
    assert!(ctx.button_request.is_none());
    ctx.request_paint();
    ctx.request_anim_frame();
    ctx.set_page_count(4);
    ctx.send_button_request(ButtonRequestCode(7), "warning");
    assert!(ctx.paint_requested);
    assert!(ctx.anim_frame_requested);
    assert_eq!(ctx.page_count, Some(4));
    let (code, name) = ctx.button_request.unwrap();
    assert_eq!(code, ButtonRequestCode(7));
    assert_eq!(name, "warning");
}

#[test]
fn button_press_and_click() {
    let mut button = Button::new(ButtonContent::Empty);
    button.place(Rect::new(Point::new(10, 10), Point::new(110, 60)));
    let mut ctx = EventCtx::new();
    assert_eq!(button.event(&mut ctx, touch_start(50, 30)), Some(ButtonMsg::Pressed));
    assert_eq!(button.state, ButtonState::Pressed);
    assert_eq!(button.event(&mut ctx, touch_end(50, 31)), Some(ButtonMsg::Clicked));
    assert_eq!(button.state, ButtonState::Initial);
}

#[test]
fn button_outside_touches_are_ignored() {
    let mut button = Button::new(ButtonContent::Empty);
    button.place(Rect::new(Point::new(10, 10), Point::new(110, 60)));
    let mut ctx = EventCtx::new();
    assert_eq!(button.event(&mut ctx, touch_start(5, 5)), None);
    assert_eq!(button.state, ButtonState::Initial);
    assert_eq!(button.event(&mut ctx, touch_end(50, 30)), None);
}

#[test]
fn button_release_when_touch_leaves() {
    let mut button = Button::new(ButtonContent::Empty);
    button.place(Rect::new(Point::new(10, 10), Point::new(110, 60)));
    let mut ctx = EventCtx::new();
    assert_eq!(button.event(&mut ctx, touch_start(50, 30)), Some(ButtonMsg::Pressed));
    assert_eq!(button.event(&mut ctx, touch_move(200, 200)), Some(ButtonMsg::Released));
    assert_eq!(button.state, ButtonState::Initial);
    // Ending outside while already released reports nothing.
    assert_eq!(button.event(&mut ctx, touch_end(200, 200)), None);
}

#[test]
fn button_long_press_fires_after_threshold() {
    // A zero threshold is passed by any holding time, so the long press is
    // reported deterministically.
    let mut button = Button::new(ButtonContent::Empty).with_long_press(Duration::from_millis(0));
    button.place(Rect::new(Point::new(0, 0), Point::new(100, 100)));
    let mut ctx = EventCtx::new();
    assert_eq!(button.event(&mut ctx, touch_start(50, 50)), Some(ButtonMsg::Pressed));
    assert_eq!(button.event(&mut ctx, touch_end(50, 50)), Some(ButtonMsg::LongPressed));
}

#[test]
fn button_end_outside_releases() {
    let mut button = Button::new(ButtonContent::Empty);
    button.place(Rect::new(Point::new(0, 0), Point::new(100, 100)));
    let mut ctx = EventCtx::new();
    assert_eq!(button.event(&mut ctx, touch_start(50, 50)), Some(ButtonMsg::Pressed));
    assert_eq!(button.event(&mut ctx, touch_end(150, 150)), Some(ButtonMsg::Released));
}

struct Counter {
    placed: Option<Rect>,
    events: usize,
}

impl Component for Counter {
    type Msg = u32;

    fn place(&mut self, bounds: Rect) -> Rect {
        self.placed = Some(bounds);
        bounds
    }

    fn event(&mut self, _ctx: &mut EventCtx, _event: Event) -> Option<u32> {
        self.events += 1;
        None
    }
}

#[test]
fn one_button_request_fires_once_on_attach() {
    let inner = Counter { placed: None, events: 0 };
    let mut wrapped = inner.one_button_request(ButtonRequestCode(3), "confirm");
    assert!(wrapped.button_request.is_some());

    let mut ctx = EventCtx::new();
    wrapped.event(&mut ctx, Event::Attach);
    assert_eq!(ctx.button_request, Some((ButtonRequestCode(3), "confirm")));
    assert!(wrapped.button_request.is_none());
    assert_eq!(wrapped.inner.events, 1);

    // A second attach does not fire again.
    let mut ctx2 = EventCtx::new();
    wrapped.event(&mut ctx2, Event::Attach);
    assert_eq!(ctx2.button_request, None);
    assert_eq!(wrapped.inner.events, 2);
}

#[test]
fn one_button_request_keeps_request_until_attach() {
    let inner = Counter { placed: None, events: 0 };
    let mut wrapped = inner.one_button_request(ButtonRequestCode(9), "x");
    let mut ctx = EventCtx::new();
    wrapped.event(&mut ctx, touch_start(1, 1));
    assert!(ctx.button_request.is_none());
    assert!(wrapped.button_request.is_some());
}

#[test]
fn hold_to_confirm_starts_and_resets_its_animation() {
    let mut hold = HoldToConfirm::new();
    assert!(!hold.anim.timer.is_running_within(Duration::from_millis(10_000)));
    hold.place(screen());
    // The button sits in a 120-pixel square snapped to the screen center.
    let mut ctx = EventCtx::new();
    assert_eq!(hold.event(&mut ctx, touch_start(120, 120)), None);
    assert!(hold.anim.timer.start.is_some());
    assert!(ctx.paint_requested);
    assert!(ctx.anim_frame_requested);

    // Ending the touch early is a click, which resets the animation.
    let mut ctx2 = EventCtx::new();
    assert_eq!(hold.event(&mut ctx2, touch_end(120, 120)), None);
    assert!(hold.anim.timer.start.is_none());
}

#[test]
fn hold_to_confirm_ignores_attach() {
    let mut hold = HoldToConfirm::new();
    hold.place(screen());
    let mut ctx = EventCtx::new();
    assert_eq!(hold.event(&mut ctx, Event::Attach), None);
    assert!(hold.anim.timer.start.is_none());
}

#[test]
fn tap_to_confirm_runs_its_animation_on_tap() {
    let mut tap = TapToConfirm::new(
        theme::green(),
        theme::green(),
        theme::grey_extra_dark(),
        theme::black(),
    );
    tap.place(screen());
    // The button sits in an 80-pixel square around the shifted center.
    let mut ctx = EventCtx::new();
    assert_eq!(tap.event(&mut ctx, touch_start(120, 129)), None);
    assert!(tap.anim.timer.start.is_some());
    // A click leaves the animation playing.
    let mut ctx2 = EventCtx::new();
    assert_eq!(tap.event(&mut ctx2, touch_end(120, 129)), None);
    assert!(tap.anim.timer.start.is_some());
}

#[test]
fn prompt_screen_variants_hold_the_right_prompt() {
    let hold = PromptScreen::new_hold_to_confirm();
    assert!(hold.hold_to_confirm.is_some());
    assert!(hold.tap_to_confirm.is_none());

    let tap = PromptScreen::new_tap_to_confirm();
    assert!(tap.tap_to_confirm.is_some());
    assert!(tap.hold_to_confirm.is_none());
    assert_eq!(tap.tap_to_confirm.as_ref().unwrap().circle_color, theme::green());

    let cancel = PromptScreen::new_tap_to_cancel();
    assert!(cancel.tap_to_confirm.is_some());
    assert_eq!(
        cancel.tap_to_confirm.as_ref().unwrap().circle_color,
        theme::orange_light()
    );
}

#[test]
fn prompt_screen_forwards_events() {
    let mut prompt = PromptScreen::new_tap_to_confirm();
    prompt.place(screen());
    let mut ctx = EventCtx::new();
    assert_eq!(prompt.event(&mut ctx, touch_start(120, 129)), None);
    assert!(prompt.tap_to_confirm.as_ref().unwrap().anim.timer.start.is_some());
}

#[test]
fn slider_maps_touch_position_linearly() {
    let mut slider = NumberInputSliderDialog::new(10, 255, 150);
    slider.place(Rect::new(Point::new(0, 0), Point::new(100, 32)));
    let mut ctx = EventCtx::new();
    // 10 + 50 * 245 / 100 = 132
    assert_eq!(
        slider.event(&mut ctx, touch_end(50, 10)),
        Some(NumberInputSliderDialogMsg::Changed(132))
    );
    assert_eq!(slider.value, 132);
    // Moving the touch tracks the position without reporting.
    assert_eq!(slider.event(&mut ctx, touch_move(99, 10)), None);
    assert_eq!(slider.value, 252);
    assert!(ctx.paint_requested);
}

#[test]
fn slider_clamps_value_into_range() {
    let slider = NumberInputSliderDialog::new(10, 255, 5);
    assert_eq!(slider.value, 10);
    let slider = NumberInputSliderDialog::new(10, 255, 999);
    assert_eq!(slider.value, 255);
}

#[test]
fn set_brightness_starts_from_current_or_normal() {
    let dialog = SetBrightnessDialog::new(None);
    assert_eq!(dialog.0.value, 150);
    assert_eq!(dialog.0.min, 10);
    assert_eq!(dialog.0.max, 255);
    let dialog = SetBrightnessDialog::new(Some(40));
    assert_eq!(dialog.0.value, 40);
    let dialog = SetBrightnessDialog::new(Some(1000));
    assert_eq!(dialog.0.value, 255);
}

#[test]
fn set_brightness_reports_changes() {
    let mut dialog = SetBrightnessDialog::new(None);
    dialog.place(Rect::new(Point::new(0, 0), Point::new(100, 32)));
    let mut ctx = EventCtx::new();
    assert_eq!(
        dialog.event(&mut ctx, touch_end(99, 10)),
        Some(NumberInputSliderDialogMsg::Changed(252))
    );
}

#[test]
fn scroll_bar_pages_forward_and_back() {
    let mut bar = ScrollBar::horizontal();
    assert!(!bar.has_next_page());
    assert!(!bar.has_previous_page());
    bar.set_count_and_active_page(3, 0);
    assert!(bar.has_next_page());
    bar.go_to_next_page();
    bar.go_to_next_page();
    assert_eq!(bar.active_page, 2);
    bar.go_to_next_page();
    assert_eq!(bar.active_page, 2);
    bar.go_to_previous_page();
    assert_eq!(bar.active_page, 1);
    bar.go_to_previous_page();
    bar.go_to_previous_page();
    assert_eq!(bar.active_page, 0);
}

#[test]
fn scroll_bar_clamps_the_active_page() {
    let mut bar = ScrollBar::horizontal();
    bar.set_count_and_active_page(3, 9);
    assert_eq!(bar.active_page, 2);
    bar.set_count_and_active_page(0, 9);
    assert_eq!(bar.active_page, 0);
}

#[test]
fn swipe_detects_allowed_directions() {
    let mut swipe = Swipe::new();
    swipe.place(Rect::new(Point::new(0, 0), Point::new(200, 200)));
    swipe.allow_left = true;
    swipe.allow_right = true;
    let mut ctx = EventCtx::new();

    assert_eq!(swipe.event(&mut ctx, touch_start(150, 50)), None);
    assert_eq!(swipe.event(&mut ctx, touch_end(50, 55)), Some(SwipeDirection::Left));

    assert_eq!(swipe.event(&mut ctx, touch_start(50, 50)), None);
    assert_eq!(swipe.event(&mut ctx, touch_end(150, 55)), Some(SwipeDirection::Right));
}

#[test]
fn swipe_respects_threshold_and_allowances() {
    let mut swipe = Swipe::new();
    swipe.place(Rect::new(Point::new(0, 0), Point::new(200, 200)));
    swipe.allow_left = true;
    let mut ctx = EventCtx::new();

    // Too short a travel.
    swipe.event(&mut ctx, touch_start(100, 50));
    assert_eq!(swipe.event(&mut ctx, touch_end(80, 50)), None);

    // A decisive travel in a disallowed direction.
    swipe.event(&mut ctx, touch_start(50, 50));
    assert_eq!(swipe.event(&mut ctx, touch_end(150, 50)), None);

    // Vertical travel dominates and vertical is not allowed.
    swipe.event(&mut ctx, touch_start(100, 50));
    assert_eq!(swipe.event(&mut ctx, touch_end(40, 180)), None);

    // An end without a start decides nothing.
    assert_eq!(swipe.event(&mut ctx, touch_end(0, 0)), None);
}

struct Pages {
    count: usize,
    current: usize,
}

impl Component for Pages {
    type Msg = u8;

    fn place(&mut self, bounds: Rect) -> Rect {
        bounds
    }

    fn event(&mut self, _ctx: &mut EventCtx, _event: Event) -> Option<u8> {
        Some(42)
    }
}

impl Paginate for Pages {
    fn page_count(&mut self) -> usize {
        self.count
    }

    fn change_page(&mut self, to_page: usize) {
        self.current = to_page;
    }
}

#[test]
fn horizontal_page_counts_pages_on_place() {
    let mut page = HorizontalPage::new(Pages { count: 3, current: 0 }, Color::black());
    page.place(screen());
    assert_eq!(page.scrollbar.page_count, 3);
    assert_eq!(page.scrollbar.active_page, 0);
    assert!(page.swipe.allow_left);
    assert!(!page.swipe.allow_right);
}

#[test]
fn horizontal_page_swipes_between_pages() {
    let mut page = HorizontalPage::new(Pages { count: 3, current: 0 }, Color::black());
    page.place(screen());
    let mut ctx = EventCtx::new();

    // The start of the touch is not a swipe yet and reaches the content;
    // the decisive end is consumed by the page change.
    assert_eq!(page.event(&mut ctx, touch_start(200, 100)), Some(42));
    assert_eq!(page.event(&mut ctx, touch_end(40, 100)), None);
    assert_eq!(page.scrollbar.active_page, 1);
    assert_eq!(page.inner().current, 1);
    assert_eq!(page.fade, Some(theme::BACKLIGHT_NORMAL));
    assert!(page.swipe.allow_left);
    assert!(page.swipe.allow_right);
    assert_eq!(ctx.page_count, Some(3));

    // A right swipe moves back.
    let mut ctx2 = EventCtx::new();
    assert_eq!(page.event(&mut ctx2, touch_start(40, 100)), Some(42));
    assert_eq!(page.event(&mut ctx2, touch_end(200, 100)), None);
    assert_eq!(page.scrollbar.active_page, 0);
    assert_eq!(page.inner().current, 0);
}

#[test]
fn horizontal_page_forwards_other_events() {
    let mut page = HorizontalPage::new(Pages { count: 2, current: 0 }, Color::black());
    page.place(screen());
    let mut ctx = EventCtx::new();
    assert_eq!(page.event(&mut ctx, Event::Attach), Some(42));
    assert_eq!(page.scrollbar.active_page, 0);
}

#[test]
fn confirm_action_swipe_table() {
    assert_eq!(
        ConfirmAction::Intro.handle_swipe(SwipeDirection::Left),
        Decision::Goto(ConfirmAction::Menu, SwipeDirection::Left)
    );
    assert_eq!(
        ConfirmAction::Menu.handle_swipe(SwipeDirection::Right),
        Decision::Goto(ConfirmAction::Intro, SwipeDirection::Right)
    );
    assert_eq!(
        ConfirmAction::Intro.handle_swipe(SwipeDirection::Up),
        Decision::Goto(ConfirmAction::Confirm, SwipeDirection::Up)
    );
    assert_eq!(
        ConfirmAction::Confirm.handle_swipe(SwipeDirection::Down),
        Decision::Goto(ConfirmAction::Intro, SwipeDirection::Down)
    );
    assert_eq!(
        ConfirmAction::Confirm.handle_swipe(SwipeDirection::Left),
        Decision::Goto(ConfirmAction::Menu, SwipeDirection::Left)
    );
    assert_eq!(ConfirmAction::Menu.handle_swipe(SwipeDirection::Up), Decision::Nothing);
    assert_eq!(ConfirmAction::Intro.handle_swipe(SwipeDirection::Right), Decision::Nothing);
}

#[test]
fn confirm_action_event_table() {
    assert_eq!(
        ConfirmAction::Intro.handle_event(FlowMsg::Info),
        Decision::Goto(ConfirmAction::Menu, SwipeDirection::Left)
    );
    assert_eq!(
        ConfirmAction::Menu.handle_event(FlowMsg::Cancelled),
        Decision::Goto(ConfirmAction::Intro, SwipeDirection::Right)
    );
    assert_eq!(
        ConfirmAction::Menu.handle_event(FlowMsg::Choice(0)),
        Decision::Return(FlowMsg::Cancelled)
    );
    assert_eq!(ConfirmAction::Menu.handle_event(FlowMsg::Choice(1)), Decision::Nothing);
    assert_eq!(
        ConfirmAction::Confirm.handle_event(FlowMsg::Confirmed),
        Decision::Return(FlowMsg::Confirmed)
    );
    assert_eq!(
        ConfirmAction::Confirm.handle_event(FlowMsg::Info),
        Decision::Goto(ConfirmAction::Menu, SwipeDirection::Left)
    );
    assert_eq!(ConfirmAction::Intro.handle_event(FlowMsg::Confirmed), Decision::Nothing);
}

#[test]
fn stopwatch_starts_stopped() {
    let watch = Stopwatch::new_stopped();
    assert!(watch.start.is_none());
    assert_eq!(watch.elapsed().millis, 0);
    assert!(!watch.is_running_within(Duration::from_millis(1000)));
    let mut watch = Stopwatch::default();
    assert!(watch.start.is_none());
    watch.start();
    assert!(watch.start.is_some());
    assert!(watch.is_running_within(Duration::from_millis(600_000)));
}

#[test]
fn label_carries_its_text() {
    let label = Label::new("hello".to_string(), Alignment::Start).vertically_centered();
    assert_eq!(label.text, "hello");
    assert!(label.vertically_centered);
}

#[test]
fn pad_keeps_its_background() {
    let mut pad = Pad::with_background(theme::grey_light());
    assert!(pad.clear);
    assert_eq!(pad.color, theme::grey_light());
    pad.place(screen());
    assert_eq!(pad.area, screen());
}
