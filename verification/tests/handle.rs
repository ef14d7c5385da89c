use leptos::prelude::AnyView;
use leptos::prelude::IntoAny;
use leptos::prelude::RenderHtml;
use leptos_modal::CloseFn;
use leptos_modal::Collector;
use leptos_modal::Modal;
use leptos_modal::Rendered;
use leptos_modal::Renderer;
use leptos_modal::_use_modal;
use std::sync::atomic::AtomicUsize;
use std::sync::atomic::Ordering;
use std::sync::Mutex;

fn text_modal(arg: String, _context: (), _close: CloseFn) -> AnyView {
    arg.into_any()
}

fn labelled_modal(arg: u32, label: &'static str, _close: CloseFn) -> AnyView {
    format!("{label}={arg}").into_any()
}

fn counted_modal(arg: &'static str, calls: &'static AtomicUsize, _close: CloseFn) -> AnyView {
    calls.fetch_add(1, Ordering::SeqCst);
    arg.into_any()
}

fn recorded_modal(
    arg: &'static str,
    seen: &'static Mutex<Vec<CloseFn>>,
    close: CloseFn,
) -> AnyView {
    seen.lock().unwrap().push(close);
    arg.into_any()
}

fn new_counter() -> &'static AtomicUsize {
    Box::leak(Box::new(AtomicUsize::new(0)))
}

fn new_record() -> &'static Mutex<Vec<CloseFn>> {
    Box::leak(Box::new(Mutex::new(Vec::new())))
}

fn html_of(rendered: Rendered) -> String {
    rendered.into_view().to_html()
}

fn shown(collector: &mut Collector) -> Option<String> {
    collector.frame().dialog.map(html_of)
}

const EMPTY_VIEW: &str = "<!><!--<() />-->";

#[test]
fn open_publishes_a_renderer_and_the_node() {
    let modal = Modal::new(text_modal, ());
    let mut collector = Collector::new();
    assert!(!collector.is_open());
    assert_eq!(collector.renderer(), None);

    modal.open(&mut collector, String::from("hello"));

    assert!(collector.is_open());
    assert_eq!(collector.renderer(), Some(Renderer { ticket: 0 }));
    let frame = collector.frame();
    assert!(frame.backdrop);
    assert_eq!(frame.aria_modal, "true");
    let dialog = frame.dialog.expect("an open modal has a dialog container");
    assert!(matches!(dialog, Rendered::Node(_)));
    assert_eq!(html_of(dialog), "hello");
}

#[test]
fn open_hands_argument_and_context_to_the_render_function() {
    let modal = Modal::new(labelled_modal, "answer");
    let mut collector = Collector::new();
    modal.open(&mut collector, 42);
    assert_eq!(shown(&mut collector), Some(String::from("answer=42")));
}

#[test]
fn one_handle_serves_many_arguments() {
    let modal = Modal::new(labelled_modal, "n");
    let mut collector = Collector::new();
    modal.open(&mut collector, 1);
    assert_eq!(shown(&mut collector), Some(String::from("n=1")));
    modal.close(&mut collector);
    modal.open(&mut collector, 2);
    assert_eq!(shown(&mut collector), Some(String::from("n=2")));
}

#[test]
fn second_open_replaces_the_first() {
    let modal = Modal::new(text_modal, ());
    let mut collector = Collector::new();
    modal.open(&mut collector, String::from("first"));
    modal.open(&mut collector, String::from("second"));

    assert!(collector.is_open());
    assert_eq!(collector.renderer(), Some(Renderer { ticket: 1 }));
    assert_eq!(shown(&mut collector), Some(String::from("second")));
    assert_eq!(shown(&mut collector), Some(String::from(EMPTY_VIEW)));
}

#[test]
fn replacing_after_a_render_pass_shows_only_the_new_node() {
    let modal = Modal::new(text_modal, ());
    let mut collector = Collector::new();
    modal.open(&mut collector, String::from("first"));
    assert_eq!(shown(&mut collector), Some(String::from("first")));
    modal.open(&mut collector, String::from("second"));
    assert_eq!(shown(&mut collector), Some(String::from("second")));
}

#[test]
fn two_handles_share_one_slot() {
    let texts = Modal::new(text_modal, ());
    let numbers = Modal::new(labelled_modal, "id");
    let mut collector = Collector::new();
    texts.open(&mut collector, String::from("text"));
    numbers.open(&mut collector, 7);
    assert_eq!(shown(&mut collector), Some(String::from("id=7")));
    texts.close(&mut collector);
    assert!(!collector.is_open());
}

#[test]
fn close_empties_slot_and_cell() {
    let modal = Modal::new(text_modal, ());
    let mut collector = Collector::new();
    modal.open(&mut collector, String::from("hello"));
    modal.close(&mut collector);

    assert!(!collector.is_open());
    assert_eq!(collector.renderer(), None);
    let stale = Renderer { ticket: 0 };
    assert!(matches!(stale.render(&mut collector), Rendered::Neutral));
}

#[test]
fn close_without_a_modal_is_a_no_op() {
    let modal = Modal::new(text_modal, ());
    let mut collector = Collector::new();
    modal.close(&mut collector);
    assert!(!collector.is_open());
    modal.close(&mut collector);
    assert!(!collector.is_open());
    let frame = collector.frame();
    assert!(!frame.backdrop);
    assert!(frame.dialog.is_none());
    assert_eq!(frame.aria_modal, "false");

    modal.open(&mut collector, String::from("later"));
    assert_eq!(collector.renderer(), Some(Renderer { ticket: 0 }));
}

#[test]
fn render_function_runs_once_per_open() {
    let calls = new_counter();
    let modal = Modal::new(counted_modal, calls);
    let mut collector = Collector::new();
    assert_eq!(calls.load(Ordering::SeqCst), 0);

    modal.open(&mut collector, "content");
    assert_eq!(calls.load(Ordering::SeqCst), 1);

    assert_eq!(shown(&mut collector), Some(String::from("content")));
    assert_eq!(shown(&mut collector), Some(String::from(EMPTY_VIEW)));
    assert_eq!(shown(&mut collector), Some(String::from(EMPTY_VIEW)));
    assert_eq!(calls.load(Ordering::SeqCst), 1);
    assert!(collector.is_open());

    modal.open(&mut collector, "again");
    assert_eq!(calls.load(Ordering::SeqCst), 2);
    assert_eq!(shown(&mut collector), Some(String::from("again")));
}

#[test]
fn render_function_gets_the_callback_of_its_own_open() {
    let seen = new_record();
    let modal = Modal::new(recorded_modal, seen);
    let mut collector = Collector::new();
    modal.open(&mut collector, "a");
    modal.open(&mut collector, "b");
    modal.close(&mut collector);
    modal.open(&mut collector, "c");

    let callbacks = seen.lock().unwrap().clone();
    assert_eq!(
        callbacks,
        vec![CloseFn { ticket: 0 }, CloseFn { ticket: 1 }, CloseFn { ticket: 2 }]
    );
}

#[test]
fn callback_closes_its_own_modal() {
    let seen = new_record();
    let modal = Modal::new(recorded_modal, seen);
    let mut collector = Collector::new();
    modal.open(&mut collector, "a");
    let close_a = seen.lock().unwrap()[0];
    assert!(collector.is_current(close_a));

    assert!(close_a.call(&mut collector));

    assert!(!collector.is_open());
    assert!(collector.frame().dialog.is_none());
    assert!(!collector.is_current(close_a));
}

#[test]
fn stale_callback_leaves_the_later_modal_open() {
    let seen = new_record();
    let modal = Modal::new(recorded_modal, seen);
    let mut collector = Collector::new();
    modal.open(&mut collector, "a");
    let close_a = seen.lock().unwrap()[0];
    modal.open(&mut collector, "b");
    let close_b = seen.lock().unwrap()[1];

    assert!(!close_a.call(&mut collector));

    assert!(collector.is_open());
    assert!(!collector.is_current(close_a));
    assert!(collector.is_current(close_b));
    assert_eq!(shown(&mut collector), Some(String::from("b")));

    assert!(close_b.call(&mut collector));
    assert!(!collector.is_open());
}

#[test]
fn stale_callback_stays_inert_after_close_and_reopen() {
    let seen = new_record();
    let modal = Modal::new(recorded_modal, seen);
    let mut collector = Collector::new();
    modal.open(&mut collector, "a");
    let close_a = seen.lock().unwrap()[0];
    modal.close(&mut collector);
    assert!(close_a.call(&mut collector));
    assert!(!collector.is_open());

    modal.open(&mut collector, "b");
    assert!(!close_a.call(&mut collector));
    assert!(collector.is_open());
    assert_eq!(shown(&mut collector), Some(String::from("b")));
}

#[test]
fn callback_twice_leaves_the_collector_closed() {
    let seen = new_record();
    let modal = Modal::new(recorded_modal, seen);
    let mut collector = Collector::new();
    modal.open(&mut collector, "a");
    let close_a = seen.lock().unwrap()[0];
    assert!(close_a.call(&mut collector));
    assert!(close_a.call(&mut collector));
    assert!(!collector.is_open());
    assert_eq!(collector.renderer(), None);
    assert!(collector.frame().dialog.is_none());
}

#[test]
fn handle_is_a_plain_value() {
    let modal = Modal::new(labelled_modal, "copy");
    let copied = modal;
    let cloned = modal.clone();
    let mut collector = Collector::new();
    modal.open(&mut collector, 1);
    assert_eq!(shown(&mut collector), Some(String::from("copy=1")));
    copied.open(&mut collector, 2);
    assert_eq!(shown(&mut collector), Some(String::from("copy=2")));
    cloned.open(&mut collector, 3);
    assert_eq!(shown(&mut collector), Some(String::from("copy=3")));
}

#[test]
fn hook_builds_the_same_handle() {
    let modal = _use_modal(labelled_modal, "hook");
    let mut collector = Collector::new();
    modal.open(&mut collector, 5);
    assert_eq!(shown(&mut collector), Some(String::from("hook=5")));
    modal.close(&mut collector);
    assert!(!collector.is_open());
}

#[test]
fn closure_can_be_a_render_function() {
    let modal = Modal::new(
        |arg: &'static str, prefix: char, _close: CloseFn| format!("{prefix}{arg}").into_any(),
        '#',
    );
    let mut collector = Collector::new();
    modal.open(&mut collector, "tag");
    assert_eq!(shown(&mut collector), Some(String::from("#tag")));
}

#[test]
fn neutral_node_is_the_empty_view() {
    assert_eq!(html_of(Rendered::Neutral), ().into_any().to_html());
    assert_eq!(html_of(Rendered::Neutral), EMPTY_VIEW);
}

#[test]
fn built_node_is_handed_on_unchanged() {
    let node = "<kept>".into_any();
    assert_eq!(html_of(Rendered::Node(node)), "&lt;kept&gt;");
}
