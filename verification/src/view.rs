//! The view nodes that pass through the library.

use leptos::prelude::AnyView;
use leptos::prelude::IntoAny;
use vstd::prelude::*;

verus! {

/// `leptos::prelude::AnyView`, the type-erased view node of leptos. Verus sees
/// nothing inside one, and the library never looks: it carries nodes from the
/// handle that built them to the collector that mounts them.
#[verifier::external_type_specification]
#[verifier::external_body]
pub struct ExAnyView(AnyView);

/// What one invocation of a renderer yields.
pub enum Rendered {
    /// The node that the latest `open` built, handed out for the first time.
    Node(AnyView),
    /// Nothing is pending: the node was already taken, or was cleared.
    Neutral,
}

/// Calls `IntoAny::into_any` on the unit value, which is what an empty
/// `view!` stands for. Nothing is claimed of the node that comes back.
#[verifier::external_body]
fn empty_view() -> AnyView {
    ().into_any()
}

impl Rendered {
    /// The node to mount: the carried one, or leptos's empty view in its place.
    pub fn into_view(self) -> (view: AnyView)
        ensures
            self matches Rendered::Node(node) ==> view == node,
    {
        match self {
            Rendered::Node(node) => node,
            Rendered::Neutral => empty_view(),
        }
    }
}

} // verus!
