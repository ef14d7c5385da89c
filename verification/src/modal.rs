//! The modal handle: a reusable descriptor of one kind of modal.

use crate::collector::CloseFn;
use crate::collector::Collector;
use leptos::prelude::AnyView;
use std::marker::PhantomData;
use vstd::prelude::*;

verus! {

/// Binds a render function to a context value. The argument is given anew at
/// each `open`, so one handle serves many calls.
pub struct Modal<Arg, ModalComponent, Context> where
    ModalComponent: Fn(Arg, Context, CloseFn) -> AnyView + Send + Sync,
    Context: Clone + Copy + Send + Sync,
 {
    element: ModalComponent,
    context: Context,
    _marker: PhantomData<Arg>,
}

impl<Arg, ModalComponent, Context> Copy for Modal<Arg, ModalComponent, Context> where
    Arg: Clone,
    ModalComponent: Fn(Arg, Context, CloseFn) -> AnyView + Clone + Copy + Send + Sync,
    Context: Clone + Copy + Send + Sync,
 {
}

impl<Arg, ModalComponent, Context> Clone for Modal<Arg, ModalComponent, Context> where
    Arg: Clone,
    ModalComponent: Fn(Arg, Context, CloseFn) -> AnyView + Clone + Copy + Send + Sync,
    Context: Clone + Copy + Send + Sync,
 {
    /// A handle is a plain value: the clone is the handle itself.
    fn clone(&self) -> (copy: Self)
        ensures
            copy == *self,
    {
        *self
    }
}

impl<Arg, ModalComponent, Context> Modal<Arg, ModalComponent, Context> where
    Arg: Clone,
    ModalComponent: Fn(Arg, Context, CloseFn) -> AnyView + Send + Sync,
    Context: Clone + Copy + Send + Sync,
 {
    /// The render function of the handle.
    pub closed spec fn element(&self) -> ModalComponent {
        self.element
    }

    /// The context value of the handle.
    pub closed spec fn context(&self) -> Context {
        self.context
    }

    /// Whether the render function may be called with `arg`, the handle's
    /// context and `close`.
    pub open spec fn accepts(&self, arg: Arg, close: CloseFn) -> bool {
        call_requires(self.element(), (arg, self.context(), close))
    }

    /// Whether `node` is one that the render function may build from `arg`,
    /// the handle's context and `close`.
    pub open spec fn builds(&self, arg: Arg, close: CloseFn, node: AnyView) -> bool {
        call_ensures(self.element(), (arg, self.context(), close), node)
    }

    /// A handle of `element` and `context`.
    pub fn new(element: ModalComponent, context: Context) -> (modal: Self)
        ensures
            modal.element() == element,
            modal.context() == context,
    {
        Self { element, context, _marker: PhantomData }
    }

    /// Calls the render function with `arg`, the handle's context and `close`.
    /// No collector is touched: a caller that shares its collector can build
    /// the node first and publish it afterwards.
    pub fn render(&self, arg: Arg, close: CloseFn) -> (node: AnyView)
        requires
            self.accepts(arg, close),
        ensures
            self.builds(arg, close, node),
    {
        (self.element)(arg, self.context, close)
    }

    /// Opens the modal on `collector`: calls the render function once, with
    /// `arg`, the context and a fresh close callback, stores the node it built
    /// and publishes a renderer. A modal that was open is replaced.
    pub fn open(&self, collector: &mut Collector, arg: Arg)
        requires
            self.accepts(arg, old(collector)@.next_close()),
        ensures
            final(collector)@.cache matches Some(node) && self.builds(
                arg,
                old(collector)@.next_close(),
                node,
            ) && final(collector)@ == old(collector)@.opened(node),
    {
        let close = collector.next_close();
        let html = self.render(arg, close);
        collector.publish(html);
    }

    /// Closes whatever modal is open on `collector`: slot and cell are empty
    /// afterwards. Where none is open, nothing changes.
    pub fn close(&self, collector: &mut Collector)
        ensures
            final(collector)@ == old(collector)@.closed(),
    {
        collector.dismiss();
    }
}

} // verus!
