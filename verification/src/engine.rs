//! The tray synchronization state machine.
//!
//! The engine is a pure step relation: from a state and one input it
//! produces exactly one output event for the consumer, the next state, and
//! an action for the surrounding loop to perform (wait out the reconnect
//! backoff, or invoke a remote method). The loop around it owns the
//! connection, the broadcast stream and the activation queue, and feeds
//! whatever happened back in as plain values.

use vstd::prelude::*;

use crate::activation::ActivationRequest;
use crate::activation::InvocationPlan;
use crate::activation::RequestModel;
use crate::activation::spec_plan;
use crate::activation::plan_activation;
use crate::item::DescriptorModel;
use crate::item::IconDescriptor;
use crate::item::PixmapModel;
use crate::item::RawPixmap;

verus! {

/// Seconds the engine waits after a failed connect attempt before the next
/// one; fixed, with no retry limit.
pub const BACKOFF_SECONDS: u64 = 5;

/// One tray item captured from the service's catalog snapshot.
#[derive(PartialEq, Debug)]
pub struct InitialItem {
    pub address: String,
    pub icon: IconDescriptor,
}

/// Model of an [`InitialItem`].
pub struct ItemModel {
    pub address: Seq<char>,
    pub icon: DescriptorModel,
}

impl View for InitialItem {
    type V = ItemModel;

    open spec fn view(&self) -> ItemModel {
        ItemModel { address: self.address@, icon: self.icon@ }
    }
}

pub open spec fn item_models(items: Seq<InitialItem>) -> Seq<ItemModel> {
    items.map_values(|it: InitialItem| it@)
}

/// The payload of a broadcast update: an icon change, or anything else,
/// which this engine drops.
#[derive(PartialEq, Debug)]
pub enum UpdatePayload {
    Icon { icon_name: Option<String>, pixmap: Option<Vec<RawPixmap>> },
    Other,
}

/// Model of an [`UpdatePayload`].
pub enum UpdateModel {
    Icon { icon_name: Option<Seq<char>>, pixmap: Option<Seq<PixmapModel>> },
    Other,
}

impl View for UpdatePayload {
    type V = UpdateModel;

    open spec fn view(&self) -> UpdateModel {
        match self {
            UpdatePayload::Icon { icon_name, pixmap } => UpdateModel::Icon {
                icon_name: match icon_name {
                    Some(n) => Some(n@),
                    None => None,
                },
                pixmap: match pixmap {
                    Some(ps) => Some(ps@.map_values(|p: RawPixmap| p@)),
                    None => None,
                },
            },
            UpdatePayload::Other => UpdateModel::Other,
        }
    }
}

/// One event from the tray service's broadcast stream.
#[derive(PartialEq, Debug)]
pub enum BusEvent {
    Add { address: String, item: IconDescriptor },
    Update { address: String, payload: UpdatePayload },
    Remove { address: String },
}

/// Model of a [`BusEvent`].
pub enum BusEventModel {
    Add { address: Seq<char>, item: DescriptorModel },
    Update { address: Seq<char>, payload: UpdateModel },
    Remove { address: Seq<char> },
}

impl View for BusEvent {
    type V = BusEventModel;

    open spec fn view(&self) -> BusEventModel {
        match self {
            BusEvent::Add { address, item } => BusEventModel::Add {
                address: address@,
                item: item@,
            },
            BusEvent::Update { address, payload } => BusEventModel::Update {
                address: address@,
                payload: payload@,
            },
            BusEvent::Remove { address } => BusEventModel::Remove { address: address@ },
        }
    }
}

/// One message for the consumer: a catalog change, or a tick to tolerate as
/// a no-op.
#[derive(PartialEq, Debug)]
pub enum OutputEvent {
    Add { address: String, icon: IconDescriptor },
    Update { address: String, icon: IconDescriptor },
    Remove { address: String },
    Tick,
}

/// Model of an [`OutputEvent`].
pub enum OutputModel {
    Add { address: Seq<char>, icon: DescriptorModel },
    Update { address: Seq<char>, icon: DescriptorModel },
    Remove { address: Seq<char> },
    Tick,
}

impl View for OutputEvent {
    type V = OutputModel;

    open spec fn view(&self) -> OutputModel {
        match self {
            OutputEvent::Add { address, icon } => OutputModel::Add {
                address: address@,
                icon: icon@,
            },
            OutputEvent::Update { address, icon } => OutputModel::Update {
                address: address@,
                icon: icon@,
            },
            OutputEvent::Remove { address } => OutputModel::Remove { address: address@ },
            OutputEvent::Tick => OutputModel::Tick,
        }
    }
}

/// The connection lifecycle of the engine.
#[derive(PartialEq, Debug)]
pub enum EngineState {
    /// No connection to the tray service; the next step attempts one.
    Disconnected,
    /// Connected, replaying the service's catalog snapshot one Add per step.
    SendingInitialCatalog { remaining: Vec<InitialItem> },
    /// Connected and draining the broadcast stream and the click queue.
    Connected,
}

/// Model of an [`EngineState`].
pub enum StateModel {
    Disconnected,
    SendingInitialCatalog { remaining: Seq<ItemModel> },
    Connected,
}

impl View for EngineState {
    type V = StateModel;

    open spec fn view(&self) -> StateModel {
        match self {
            EngineState::Disconnected => StateModel::Disconnected,
            EngineState::SendingInitialCatalog { remaining } => StateModel::SendingInitialCatalog {
                remaining: item_models(remaining@),
            },
            EngineState::Connected => StateModel::Connected,
        }
    }
}

/// What the surrounding loop observed, handed to the engine as one input.
pub enum EngineInput {
    /// A connect attempt succeeded; the service's current catalog came with
    /// it, in snapshot order.
    ConnectOk { snapshot: Vec<InitialItem> },
    /// A connect attempt failed.
    ConnectFailed,
    /// Nothing to wait for: the replay of the initial catalog proceeds.
    Advance,
    /// The broadcast stream delivered an event.
    Tray { event: BusEvent },
    /// The broadcast stream closed or erred.
    StreamClosed,
    /// The UI queued a click; `item_is_menu` is the flag the live catalog
    /// reports for the clicked address.
    Activation { request: ActivationRequest, item_is_menu: bool },
}

/// Model of an [`EngineInput`].
pub enum InputModel {
    ConnectOk { snapshot: Seq<ItemModel> },
    ConnectFailed,
    Advance,
    Tray { event: BusEventModel },
    StreamClosed,
    Activation { request: RequestModel, item_is_menu: bool },
}

impl View for EngineInput {
    type V = InputModel;

    open spec fn view(&self) -> InputModel {
        match self {
            EngineInput::ConnectOk { snapshot } => InputModel::ConnectOk {
                snapshot: item_models(snapshot@),
            },
            EngineInput::ConnectFailed => InputModel::ConnectFailed,
            EngineInput::Advance => InputModel::Advance,
            EngineInput::Tray { event } => InputModel::Tray { event: event@ },
            EngineInput::StreamClosed => InputModel::StreamClosed,
            EngineInput::Activation { request, item_is_menu } => InputModel::Activation {
                request: request@,
                item_is_menu: *item_is_menu,
            },
        }
    }
}

/// What the surrounding loop must do after a step.
#[derive(PartialEq, Debug)]
pub enum EngineAction {
    /// Nothing.
    Idle,
    /// Wait the fixed backoff before the next connect attempt.
    Backoff,
    /// Resolve `address` and run the invocation plan at `(x, y)`.
    Invoke { address: String, plan: InvocationPlan, x: i32, y: i32 },
}

/// Model of an [`EngineAction`].
pub enum ActionModel {
    Idle,
    Backoff,
    Invoke { address: Seq<char>, plan: InvocationPlan, x: i32, y: i32 },
}

impl View for EngineAction {
    type V = ActionModel;

    open spec fn view(&self) -> ActionModel {
        match self {
            EngineAction::Idle => ActionModel::Idle,
            EngineAction::Backoff => ActionModel::Backoff,
            EngineAction::Invoke { address, plan, x, y } => ActionModel::Invoke {
                address: address@,
                plan: *plan,
                x: *x,
                y: *y,
            },
        }
    }
}

/// One step's result: the message for the consumer, the next state, and the
/// action for the surrounding loop.
pub struct StepOutcome {
    pub event: OutputEvent,
    pub next: EngineState,
    pub action: EngineAction,
}

/// How a broadcast event reaches the consumer: adds and removes pass
/// through, an icon update becomes a catalog update with no theme-path hint
/// (unknown on update), and any other update is dropped as a tick.
pub open spec fn spec_translate(ev: BusEventModel) -> OutputModel {
    match ev {
        BusEventModel::Add { address, item } => OutputModel::Add { address, icon: item },
        BusEventModel::Update { address, payload } => match payload {
            UpdateModel::Icon { icon_name, pixmap } => OutputModel::Update {
                address,
                icon: DescriptorModel { pixmap, icon_name, icon_theme_path: None },
            },
            UpdateModel::Other => OutputModel::Tick,
        },
        BusEventModel::Remove { address } => OutputModel::Remove { address },
    }
}

/// Translates one broadcast event into the consumer's event.
pub fn translate(event: BusEvent) -> (r: OutputEvent)
    ensures
        r@ == spec_translate(event@),
{
    match event {
        BusEvent::Add { address, item } => OutputEvent::Add { address, icon: item },
        BusEvent::Update { address, payload } => match payload {
            UpdatePayload::Icon { icon_name, pixmap } => OutputEvent::Update {
                address,
                icon: IconDescriptor { pixmap, icon_name, icon_theme_path: None },
            },
            UpdatePayload::Other => OutputEvent::Tick,
        },
        BusEvent::Remove { address } => OutputEvent::Remove { address },
    }
}

/// The step relation. Every step emits exactly one event; an input that
/// does not belong to the current state is tolerated as a tick that changes
/// nothing.
pub open spec fn spec_step(s: StateModel, input: InputModel) -> (OutputModel, StateModel, ActionModel) {
    match (s, input) {
        (StateModel::Disconnected, InputModel::ConnectOk { snapshot }) => (
            OutputModel::Tick,
            StateModel::SendingInitialCatalog { remaining: snapshot },
            ActionModel::Idle,
        ),
        (StateModel::Disconnected, InputModel::ConnectFailed) => (
            OutputModel::Tick,
            StateModel::Disconnected,
            ActionModel::Backoff,
        ),
        (StateModel::SendingInitialCatalog { remaining }, InputModel::Advance) => if remaining.len()
            > 0 {
            (
                OutputModel::Add { address: remaining[0].address, icon: remaining[0].icon },
                StateModel::SendingInitialCatalog { remaining: remaining.drop_first() },
                ActionModel::Idle,
            )
        } else {
            (OutputModel::Tick, StateModel::Connected, ActionModel::Idle)
        },
        (StateModel::Connected, InputModel::Tray { event }) => (
            spec_translate(event),
            StateModel::Connected,
            ActionModel::Idle,
        ),
        (StateModel::Connected, InputModel::StreamClosed) => (
            OutputModel::Tick,
            StateModel::Disconnected,
            ActionModel::Idle,
        ),
        (StateModel::Connected, InputModel::Activation { request, item_is_menu }) => (
            OutputModel::Tick,
            StateModel::Connected,
            ActionModel::Invoke {
                address: request.address,
                plan: spec_plan(request.kind, item_is_menu),
                x: request.x,
                y: request.y,
            },
        ),
        (other, _) => (OutputModel::Tick, other, ActionModel::Idle),
    }
}

/// Performs one step of the engine.
pub fn step(state: EngineState, input: EngineInput) -> (r: StepOutcome)
    ensures
        r.event@ == spec_step(state@, input@).0,
        r.next@ == spec_step(state@, input@).1,
        r.action@ == spec_step(state@, input@).2,
{
    match (state, input) {
        (EngineState::Disconnected, EngineInput::ConnectOk { snapshot }) => StepOutcome {
            event: OutputEvent::Tick,
            next: EngineState::SendingInitialCatalog { remaining: snapshot },
            action: EngineAction::Idle,
        },
        (EngineState::Disconnected, EngineInput::ConnectFailed) => StepOutcome {
            event: OutputEvent::Tick,
            next: EngineState::Disconnected,
            action: EngineAction::Backoff,
        },
        (EngineState::SendingInitialCatalog { remaining }, EngineInput::Advance) => {
            let mut remaining = remaining;
            if remaining.len() > 0 {
                let ghost before = remaining@;
                let item = remaining.remove(0);
                proof {
                    assert(item_models(remaining@) =~= item_models(before).drop_first()) by {
                        assert forall|j: int| 0 <= j < remaining@.len() implies item_models(
                            remaining@,
                        )[j] == item_models(before).drop_first()[j] by {
                            assert(remaining@[j] == before[j + 1]);
                        }
                    }
                }
                StepOutcome {
                    event: OutputEvent::Add { address: item.address, icon: item.icon },
                    next: EngineState::SendingInitialCatalog { remaining },
                    action: EngineAction::Idle,
                }
            } else {
                StepOutcome {
                    event: OutputEvent::Tick,
                    next: EngineState::Connected,
                    action: EngineAction::Idle,
                }
            }
        },
        (EngineState::Connected, EngineInput::Tray { event }) => StepOutcome {
            event: translate(event),
            next: EngineState::Connected,
            action: EngineAction::Idle,
        },
        (EngineState::Connected, EngineInput::StreamClosed) => StepOutcome {
            event: OutputEvent::Tick,
            next: EngineState::Disconnected,
            action: EngineAction::Idle,
        },
        (EngineState::Connected, EngineInput::Activation { request, item_is_menu }) => {
            let plan = plan_activation(request.kind, item_is_menu);
            StepOutcome {
                event: OutputEvent::Tick,
                next: EngineState::Connected,
                action: EngineAction::Invoke { address: request.address, plan, x: request.x, y: request.y },
            }
        },
        (other, _) => StepOutcome {
            event: OutputEvent::Tick,
            next: other,
            action: EngineAction::Idle,
        },
    }
}

/// From `Disconnected`, a failed connect attempt emits exactly one tick,
/// re-enters `Disconnected`, and orders the fixed backoff; it never reaches
/// `SendingInitialCatalog` or `Connected`.
pub proof fn lemma_failed_connect_reenters_disconnected()
    ensures
        spec_step(StateModel::Disconnected, InputModel::ConnectFailed) == (
            OutputModel::Tick,
            StateModel::Disconnected,
            ActionModel::Backoff,
        ),
{
}

/// The events the engine emits from `SendingInitialCatalog { remaining }`
/// until it reaches `Connected`, stepping with `Advance` each time.
pub open spec fn replay_trace(remaining: Seq<ItemModel>) -> Seq<OutputModel>
    decreases remaining.len(),
{
    let stepped = spec_step(
        StateModel::SendingInitialCatalog { remaining },
        InputModel::Advance,
    );
    if remaining.len() == 0 {
        seq![stepped.0]
    } else {
        seq![stepped.0] + replay_trace(remaining.drop_first())
    }
}

/// Replaying the initial snapshot emits exactly `len` Add events, one per
/// step, in snapshot order, with no loss or duplication, then one tick as
/// the machine enters `Connected`; each replay step stays in
/// `SendingInitialCatalog` on the rest of the snapshot until it is
/// exhausted.
pub proof fn lemma_initial_catalog_replay(remaining: Seq<ItemModel>)
    ensures
        replay_trace(remaining).len() == remaining.len() + 1,
        forall|k: int|
            0 <= k < remaining.len() ==> replay_trace(remaining)[k] == (OutputModel::Add {
                address: remaining[k].address,
                icon: remaining[k].icon,
            }),
        replay_trace(remaining)[remaining.len() as int] == OutputModel::Tick,
        remaining.len() > 0 ==> spec_step(
            StateModel::SendingInitialCatalog { remaining },
            InputModel::Advance,
        ).1 == (StateModel::SendingInitialCatalog { remaining: remaining.drop_first() }),
        remaining.len() == 0 ==> spec_step(
            StateModel::SendingInitialCatalog { remaining },
            InputModel::Advance,
        ).1 == StateModel::Connected,
    decreases remaining.len(),
{
    if remaining.len() > 0 {
        lemma_initial_catalog_replay(remaining.drop_first());
        let rest = remaining.drop_first();
        assert forall|k: int| 0 <= k < remaining.len() implies replay_trace(remaining)[k]
            == (OutputModel::Add { address: remaining[k].address, icon: remaining[k].icon }) by {
            if k > 0 {
                assert(replay_trace(remaining)[k] == replay_trace(rest)[k - 1]);
                assert(rest[k - 1] == remaining[k]);
            }
        }
    }
}

} // verus!
