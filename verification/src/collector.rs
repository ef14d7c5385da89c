//! The collector: the one place that owns the modal slot and the cell through
//! which a freshly built node reaches the render pass.

use crate::view::Rendered;
use leptos::prelude::AnyView;
use vstd::prelude::*;

verus! {

/// The ticket that follows `ticket`. Tickets number the `open` calls of one
/// collector and start over after the last `u64`.
pub open spec fn ticket_after(ticket: u64) -> u64 {
    if ticket == u64::MAX {
        0
    } else {
        (ticket + 1) as u64
    }
}

/// The ticket that precedes `ticket`.
pub open spec fn ticket_before(ticket: u64) -> u64 {
    if ticket == 0 {
        u64::MAX
    } else {
        (ticket - 1) as u64
    }
}

/// The text of a boolean attribute value.
pub open spec fn flag_text(flag: bool) -> Seq<char> {
    if flag {
        "true"@
    } else {
        "false"@
    }
}

/// The name that a key event carries for the Escape key.
pub open spec fn escape_key() -> Seq<char> {
    "Escape"@
}

/// What the slot holds while a modal is open: a reusable thunk that hands out
/// the pending node on its first invocation and the neutral node afterwards.
#[derive(Clone, Copy, PartialEq, Eq, Debug, Structural)]
pub struct Renderer {
    /// The `open` call that published this renderer.
    pub ticket: u64,
}

/// The close callback that one `open` call hands to its render function. It
/// names no slot: the collector is given when the callback is invoked. It
/// closes as a handle's `close` does, until a later `open` replaces its modal;
/// from then on it does nothing.
#[derive(Clone, Copy, PartialEq, Eq, Debug, Structural)]
pub struct CloseFn {
    /// The `open` call that this callback belongs to.
    pub ticket: u64,
}

/// The mathematical state of a collector.
pub struct CollectorState {
    /// The slot: empty, or the renderer of the active modal.
    pub slot: Option<Renderer>,
    /// The bridge cell: the node that the latest `open` built, until the
    /// renderer takes it or a close clears it.
    pub cache: Option<AnyView>,
    /// The ticket that the next `open` will carry.
    pub issued: u64,
}

impl CollectorState {
    /// The state of a collector that was just mounted.
    pub open spec fn mounted() -> Self {
        CollectorState { slot: None, cache: None, issued: 0 }
    }

    /// The renderer in the slot, if there is one, is that of the latest
    /// `open`, and the cell is empty whenever the slot is.
    pub open spec fn wf(self) -> bool {
        &&& self.slot matches Some(renderer) ==> renderer.ticket == ticket_before(self.issued)
        &&& self.slot is None ==> self.cache is None
    }

    /// Whether a modal is open.
    pub open spec fn is_open(self) -> bool {
        self.slot is Some
    }

    /// The callback that the next `open` hands to its render function.
    pub open spec fn next_close(self) -> CloseFn {
        CloseFn { ticket: self.issued }
    }

    /// Whether `close` belongs to the modal that is open now.
    pub open spec fn is_current(self, close: CloseFn) -> bool {
        self.slot == Some(Renderer { ticket: close.ticket })
    }

    /// Whether the modal of `close` has been replaced: the slot holds the
    /// renderer of another `open`.
    pub open spec fn is_replaced(self, close: CloseFn) -> bool {
        self.slot matches Some(renderer) && renderer.ticket != close.ticket
    }

    /// After an `open` whose render function built `node`: the slot holds a
    /// new renderer and the cell holds `node`, whatever was there before.
    pub open spec fn opened(self, node: AnyView) -> Self {
        CollectorState {
            slot: Some(Renderer { ticket: self.issued }),
            cache: Some(node),
            issued: ticket_after(self.issued),
        }
    }

    /// After a close: slot and cell are empty.
    pub open spec fn closed(self) -> Self {
        CollectorState { slot: None, cache: None, issued: self.issued }
    }

    /// After the Escape key: a close like any other, slot and cell are empty.
    pub open spec fn escaped(self) -> Self {
        CollectorState { slot: None, cache: None, issued: self.issued }
    }

    /// After a key with the name `key` was released.
    pub open spec fn key_released(self, key: Seq<char>) -> Self {
        if key == escape_key() {
            self.escaped()
        } else {
            self
        }
    }

    /// After `close` was invoked: no change if a later `open` has replaced its
    /// modal, and a close in every other state.
    pub open spec fn called(self, close: CloseFn) -> Self {
        if self.is_replaced(close) {
            self
        } else {
            self.closed()
        }
    }

    /// What an invocation of a renderer yields in this state.
    pub open spec fn yields(self) -> Rendered {
        match self.cache {
            Some(node) => Rendered::Node(node),
            None => Rendered::Neutral,
        }
    }

    /// After an invocation of a renderer: the cell is empty.
    pub open spec fn taken(self) -> Self {
        CollectorState { slot: self.slot, cache: None, issued: self.issued }
    }

    /// Whether a render pass shows the backdrop layer.
    pub open spec fn backdrop(self) -> bool {
        self.is_open()
    }

    /// What a render pass puts into the dialog container, or `None` where it
    /// shows no container.
    pub open spec fn dialog(self) -> Option<Rendered> {
        if self.is_open() {
            Some(self.yields())
        } else {
            None
        }
    }

    /// The value of the dialog's `aria-modal` attribute in a render pass.
    pub open spec fn aria_modal(self) -> Seq<char> {
        flag_text(self.is_open())
    }

    /// After a render pass: the renderer ran if a modal is open.
    pub open spec fn rendered(self) -> Self {
        if self.is_open() {
            self.taken()
        } else {
            self
        }
    }
}

/// What one render pass of the collector shows besides its children.
pub struct Frame {
    /// Whether the inert backdrop layer is shown.
    pub backdrop: bool,
    /// The content of the dialog container, or `None` where none is shown.
    pub dialog: Option<Rendered>,
    /// The value of the dialog's `aria-modal` attribute.
    pub aria_modal: String,
}

/// The state that a mounted collector owns: the slot, the bridge cell and the
/// count of the tickets it has issued.
pub struct Collector {
    slot: Option<Renderer>,
    cache: Option<AnyView>,
    issued: u64,
}

impl View for Collector {
    type V = CollectorState;

    closed spec fn view(&self) -> CollectorState {
        CollectorState { slot: self.slot, cache: self.cache, issued: self.issued }
    }
}

/// Whether `key` names the Escape key.
pub fn is_escape(key: &str) -> (hit: bool)
    ensures
        hit == (key@ == escape_key()),
{
    let pressed = key.to_owned();
    let escape = "Escape".to_owned();
    pressed == escape
}

/// The text of a boolean attribute value: `"true"` or `"false"`.
pub fn flag_string(flag: bool) -> (text: String)
    ensures
        text@ == flag_text(flag),
{
    if flag {
        "true".to_owned()
    } else {
        "false".to_owned()
    }
}

impl Renderer {
    /// Invokes the renderer: takes the pending node out of the cell, or yields
    /// the neutral node where the cell is empty. The slot is not touched.
    pub fn render(&self, collector: &mut Collector) -> (rendered: Rendered)
        ensures
            rendered == old(collector)@.yields(),
            final(collector)@ == old(collector)@.taken(),
    {
        collector.take()
    }
}

impl CloseFn {
    /// Invokes the callback on `collector`: empties the slot and the cell, as
    /// a handle's `close` does, unless a later `open` has replaced the modal
    /// that this callback belongs to. Says whether the slot was written, so
    /// that its observers can be told.
    pub fn call(&self, collector: &mut Collector) -> (written: bool)
        ensures
            final(collector)@ == old(collector)@.called(*self),
            written == !old(collector)@.is_replaced(*self),
    {
        let replaced = collector.is_replaced(*self);
        if !replaced {
            collector.dismiss();
        }
        !replaced
    }
}

impl Collector {
    #[verifier::type_invariant]
    spec fn inv(self) -> bool {
        self@.wf()
    }

    /// The collector as it is mounted: nothing open, nothing pending.
    pub fn new() -> (collector: Collector)
        ensures
            collector@ == CollectorState::mounted(),
    {
        Collector { slot: None, cache: None, issued: 0 }
    }

    /// Whether a modal is open.
    pub fn is_open(&self) -> (open: bool)
        ensures
            open == self@.is_open(),
    {
        self.slot.is_some()
    }

    /// Reads the slot. A renderer found there is that of the latest `open`,
    /// and where none is found the cell is empty too.
    pub fn renderer(&self) -> (slot: Option<Renderer>)
        ensures
            slot == self@.slot,
            self@.wf(),
    {
        proof {
            use_type_invariant(self);
        }
        self.slot
    }

    /// Whether `close` belongs to the modal that is open now.
    pub fn is_current(&self, close: CloseFn) -> (current: bool)
        ensures
            current == self@.is_current(close),
    {
        match self.slot {
            Some(renderer) => renderer.ticket == close.ticket,
            None => false,
        }
    }

    /// Whether the modal of `close` has been replaced by a later `open`.
    pub fn is_replaced(&self, close: CloseFn) -> (replaced: bool)
        ensures
            replaced == self@.is_replaced(close),
    {
        match self.slot {
            Some(renderer) => renderer.ticket != close.ticket,
            None => false,
        }
    }

    /// The callback for the next `open`: the one to hand to the render function
    /// whose node is published next.
    pub fn next_close(&self) -> (close: CloseFn)
        ensures
            close == self@.next_close(),
    {
        CloseFn { ticket: self.issued }
    }

    /// Stores `node` in the cell and publishes a new renderer into the slot,
    /// in place of whatever was open.
    pub fn publish(&mut self, node: AnyView)
        ensures
            final(self)@ == old(self)@.opened(node),
    {
        let ticket: u64 = self.issued;
        let next: u64 = if ticket == u64::MAX {
            0
        } else {
            ticket + 1
        };
        *self = Collector { slot: Some(Renderer { ticket }), cache: Some(node), issued: next };
    }

    /// Empties the slot and the cell.
    pub(crate) fn dismiss(&mut self)
        ensures
            final(self)@ == old(self)@.closed(),
    {
        *self = Collector { slot: None, cache: None, issued: self.issued };
    }

    /// Takes what is pending out of the cell.
    pub(crate) fn take(&mut self) -> (rendered: Rendered)
        ensures
            rendered == old(self)@.yields(),
            final(self)@ == old(self)@.taken(),
    {
        proof {
            use_type_invariant(&*self);
        }
        let mut pending: Option<AnyView> = None;
        core::mem::swap(&mut self.cache, &mut pending);
        match pending {
            Some(node) => Rendered::Node(node),
            None => Rendered::Neutral,
        }
    }

    /// Handles a released key: Escape empties the slot and the cell, whether
    /// or not a modal is open; any other key changes nothing. Says whether the
    /// slot was written, so that its observers can be told.
    pub fn on_keyup(&mut self, key: &str) -> (written: bool)
        ensures
            final(self)@ == old(self)@.key_released(key@),
            written == (key@ == escape_key()),
    {
        let escape = is_escape(key);
        if escape {
            self.dismiss();
        }
        escape
    }

    /// One render pass: says what is shown, and invokes the renderer if a
    /// modal is open.
    pub fn frame(&mut self) -> (frame: Frame)
        ensures
            frame.backdrop == old(self)@.backdrop(),
            frame.dialog == old(self)@.dialog(),
            frame.aria_modal@ == old(self)@.aria_modal(),
            final(self)@ == old(self)@.rendered(),
    {
        match self.slot {
            Some(renderer) => {
                let rendered = renderer.render(self);
                Frame { backdrop: true, dialog: Some(rendered), aria_modal: flag_string(true) }
            },
            None => Frame { backdrop: false, dialog: None, aria_modal: flag_string(false) },
        }
    }
}

} // verus!
