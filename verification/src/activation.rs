//! Turning a user click into the right remote call on a tray item.
//!
//! A primary click activates the item unless the item declares itself a
//! menu, in which case its context menu opens instead; a failed activation
//! falls back once to the context menu. Right and middle clicks map straight
//! to their methods, with no fallback.

use vstd::prelude::*;
use vstd::string::StringExecFns;

verus! {

/// What the user asked for with a click.
#[derive(Clone, Copy, PartialEq, Eq, Structural, Debug)]
pub enum ActivationKind {
    /// A left click.
    Primary,
    /// A right click.
    ContextMenu,
    /// A middle click.
    Secondary,
}

/// A click carried from the UI to the engine: target address, click kind and
/// screen coordinates for menu placement.
#[derive(PartialEq, Debug)]
pub struct ActivationRequest {
    pub address: String,
    pub kind: ActivationKind,
    pub x: i32,
    pub y: i32,
}

/// Model of an [`ActivationRequest`].
pub struct RequestModel {
    pub address: Seq<char>,
    pub kind: ActivationKind,
    pub x: i32,
    pub y: i32,
}

impl View for ActivationRequest {
    type V = RequestModel;

    open spec fn view(&self) -> RequestModel {
        RequestModel { address: self.address@, kind: self.kind, x: self.x, y: self.y }
    }
}

/// One of the three remote methods a tray item accepts.
#[derive(Clone, Copy, PartialEq, Eq, Structural, Debug)]
pub enum SniMethod {
    Activate,
    ContextMenu,
    SecondaryActivate,
}

/// Which method to invoke first, and which to fall back to if the first
/// call fails.
#[derive(Clone, Copy, PartialEq, Eq, Debug)]
pub struct InvocationPlan {
    pub first: SniMethod,
    pub fallback: Option<SniMethod>,
}

/// The invocation plan for a click: primary activates (context menu for
/// menu items, and as the one-shot fallback when activation fails); the
/// other kinds map straight to their method with no fallback.
pub open spec fn spec_plan(kind: ActivationKind, item_is_menu: bool) -> InvocationPlan {
    match kind {
        ActivationKind::Primary => if item_is_menu {
            InvocationPlan { first: SniMethod::ContextMenu, fallback: None }
        } else {
            InvocationPlan { first: SniMethod::Activate, fallback: Some(SniMethod::ContextMenu) }
        },
        ActivationKind::ContextMenu => InvocationPlan {
            first: SniMethod::ContextMenu,
            fallback: None,
        },
        ActivationKind::Secondary => InvocationPlan {
            first: SniMethod::SecondaryActivate,
            fallback: None,
        },
    }
}

/// Decides which remote method a click invokes, and whether a failure of
/// that call is answered with a one-shot context-menu fallback.
pub fn plan_activation(kind: ActivationKind, item_is_menu: bool) -> (r: InvocationPlan)
    ensures
        r == spec_plan(kind, item_is_menu),
{
    match kind {
        ActivationKind::Primary => if item_is_menu {
            InvocationPlan { first: SniMethod::ContextMenu, fallback: None }
        } else {
            InvocationPlan { first: SniMethod::Activate, fallback: Some(SniMethod::ContextMenu) }
        },
        ActivationKind::ContextMenu => InvocationPlan {
            first: SniMethod::ContextMenu,
            fallback: None,
        },
        ActivationKind::Secondary => InvocationPlan {
            first: SniMethod::SecondaryActivate,
            fallback: None,
        },
    }
}

/// After the first call of a plan: exactly the plan's fallback runs when the
/// first call failed; nothing runs otherwise.
pub fn fallback_after(plan: InvocationPlan, first_failed: bool) -> (r: Option<SniMethod>)
    ensures
        r == if first_failed {
            plan.fallback
        } else {
            None::<SniMethod>
        },
{
    if first_failed {
        plan.fallback
    } else {
        None
    }
}

/// The remote method name a [`SniMethod`] invokes.
pub fn method_name(m: SniMethod) -> (r: String)
    ensures
        m is Activate ==> r@ == "Activate"@,
        m is ContextMenu ==> r@ == "ContextMenu"@,
        m is SecondaryActivate ==> r@ == "SecondaryActivate"@,
{
    match m {
        SniMethod::Activate => String::from_str("Activate"),
        SniMethod::ContextMenu => String::from_str("ContextMenu"),
        SniMethod::SecondaryActivate => String::from_str("SecondaryActivate"),
    }
}

/// The bus name of the tray watcher service.
pub fn watcher_bus_name() -> (r: String)
    ensures
        r@ == "org.kde.StatusNotifierWatcher"@,
{
    String::from_str("org.kde.StatusNotifierWatcher")
}

/// The object path of the tray watcher service.
pub fn watcher_object_path() -> (r: String)
    ensures
        r@ == "/StatusNotifierWatcher"@,
{
    String::from_str("/StatusNotifierWatcher")
}

/// The interface a tray item's methods live on.
pub fn item_interface() -> (r: String)
    ensures
        r@ == "org.kde.StatusNotifierItem"@,
{
    String::from_str("org.kde.StatusNotifierItem")
}

} // verus!
