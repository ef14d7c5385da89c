//! The hook that components use to get a handle.

use crate::collector::CloseFn;
use crate::modal::Modal;
use leptos::prelude::AnyView;
use vstd::prelude::*;

verus! {

/// A handle of `element` and `context`, for use inside a component.
pub fn _use_modal<ModalComponent, Input, Context>(element: ModalComponent, context: Context) -> (modal:
    Modal<Input, ModalComponent, Context>) where
    ModalComponent: Fn(Input, Context, CloseFn) -> AnyView + Send + Sync + 'static,
    Input: Clone + Send + Sync + 'static,
    Context: Clone + Copy + Send + Sync + 'static,

    ensures
        modal.element() == element,
        modal.context() == context,
{
    Modal::new(element, context)
}

} // verus!
