//! The visualization container's reactions to its inputs: the decisions of
//! its event network, and its outputs.
//!
//! Some inputs need work that only the owner can do: looking up a
//! visualization in the registry, or instantiating one. Such an input returns
//! what is to be requested, in order, and the container remembers what it
//! still waits for; the step that completes the input requires that it was
//! asked for.

use vstd::prelude::*;

use crate::visualization::container_model::{
    after_click, after_disable_fullscreen, after_disable_waiting_screen, after_enable_fullscreen,
    after_set_layer, after_set_visibility, after_set_visualization, after_set_visualization_data,
    after_show_waiting_screen, after_toggle_visibility, click_selection, container_invariant,
    initial_state, record, ContainerAction, ContainerModel, ContainerState,
};
use crate::visualization::definition::{
    definition_view, definition_views, duplicate_option, next_in_list, next_visualization,
    same_definition, Definition, PathView,
};

verus! {

/// The abstract value of an optional input type.
pub open spec fn input_type_view(t: Option<String>) -> Option<Seq<char>> {
    match t {
        Some(t) => Some(t@),
        None => None,
    }
}

/// A copy of an optional input type.
fn duplicate_input_type(t: &Option<String>) -> (copy: Option<String>)
    ensures
        input_type_view(copy) == input_type_view(*t),
{
    match t {
        Some(t) => Some(t.clone()),
        None => None,
    }
}

/// Whether two optional input types are the same.
fn same_input_type(a: &Option<String>, b: &Option<String>) -> (same: bool)
    ensures
        same == (input_type_view(*a) == input_type_view(*b)),
{
    match (a, b) {
        (Some(a), Some(b)) => *a == *b,
        (None, None) => true,
        _ => false,
    }
}

/// A visualization that the owner is to request, through `switch_visualization`.
#[derive(Clone, Copy, Debug, PartialEq, Eq, Structural)]
pub enum VisualizationRequest {
    /// The registry's default visualization.
    RegistryDefault,
    /// The definition that was given to the input, none included.
    Given,
}

/// The abstract state of a `Container`.
pub struct FrpState {
    /// The state of the display hierarchy.
    pub model: ContainerState,
    /// The last value of the `visible` output.
    pub visible: bool,
    /// The last value of the `is_selected` output.
    pub is_selected: bool,
    /// The last value of the `visualisation` output.
    pub visualisation: Option<PathView>,
    /// The last value of the `vis_input_type` output.
    pub vis_input_type: Option<Seq<char>>,
    /// Whether the last visualization set from outside was none.
    pub uninitialised: bool,
    /// The input type that last came in, if any came in yet.
    pub last_input_type: Option<Option<Seq<char>>>,
    /// The visualization that was last requested, if any was requested yet.
    pub last_definition: Option<Option<PathView>>,
    /// The requested visualization whose instantiation is awaited, if any.
    pub pending_switch: Option<Option<PathView>>,
    /// The input type that came in and is not yet emitted, if any.
    pub pending_input_type: Option<Option<Seq<char>>>,
    /// Whether the default visualization for that input type is still to be requested.
    pub awaiting_type_default: bool,
}

/// An input of the container, as it reaches the abstract state.
pub enum FrpInput {
    SetVisibility(bool),
    ToggleVisibility,
    SetVisualization(Option<PathView>),
    SetVisInputType(Option<Seq<char>>),
    OutputVisInputType(Option<Seq<char>>),
    SelectFromActionBar,
    SwitchVisualization(Option<PathView>),
    VisualizationSwitched(Option<PathView>, bool),
    SetData,
    SetLayer,
    MouseDown(bool),
    EnableFullscreen,
    DisableFullscreen,
}

/// `s` with the given actions recorded.
pub open spec fn record_frp(s: FrpState, actions: Seq<ContainerAction>) -> FrpState {
    FrpState { model: record(s.model, actions), ..s }
}

/// The state after the selection signal `selected`: the `is_selected` output
/// changes, and is emitted, only when the value differs from the last one.
pub open spec fn after_select(s: FrpState, selected: bool) -> FrpState {
    if selected != s.is_selected {
        FrpState {
            is_selected: selected,
            ..record_frp(s, seq![ContainerAction::OutputIsSelected(selected)])
        }
    } else {
        s
    }
}

/// The state after a mouse press.
pub open spec fn after_mouse_down(s: FrpState, is_this_target: bool) -> FrpState {
    let t = FrpState { model: after_click(s.model, is_this_target), ..s };
    match click_selection(s.model, is_this_target) {
        Some(selected) => after_select(
            record_frp(t, seq![ContainerAction::AnimateSelection(selected)]),
            selected,
        ),
        None => t,
    }
}

/// The state after the visualization `definition` was requested and, when it
/// is some, instantiated successfully (`instantiated`) or not.
pub open spec fn after_visualization_switched(
    s: FrpState,
    definition: Option<PathView>,
    instantiated: bool,
) -> FrpState {
    let model = match definition {
        Some(path) => if instantiated {
            record(after_set_visualization(s.model, path), seq![ContainerAction::SelectInActionBar])
        } else {
            s.model
        },
        None => s.model,
    };
    FrpState {
        visualisation: definition,
        pending_switch: None,
        model: after_show_waiting_screen(record(model, seq![ContainerAction::OutputVisualisation])),
        ..s
    }
}

/// The type whose default visualization a new input type asks for: the new
/// type, when it differs from the one that came in before and the container
/// is uninitialised.
pub open spec fn type_default_lookup(s: FrpState, input_type: Option<Seq<char>>) -> Option<
    Seq<char>,
> {
    if s.last_input_type != Some(input_type) && s.uninitialised {
        input_type
    } else {
        None
    }
}

/// What is to be requested on `set_visualization(definition)`: the registry's
/// default first when the definition is none, then the definition itself.
pub open spec fn requests_for(definition: Option<PathView>) -> Seq<VisualizationRequest> {
    if definition is None {
        seq![VisualizationRequest::RegistryDefault, VisualizationRequest::Given]
    } else {
        seq![VisualizationRequest::Given]
    }
}

/// The input type whose valid visualizations are cycled through: the last
/// `vis_input_type` output, or `any_type` when there is none.
pub open spec fn cycle_type(s: FrpState, any_type: Seq<char>) -> Seq<char> {
    match s.vis_input_type {
        Some(t) => t,
        None => any_type,
    }
}

/// The state after an input.
pub open spec fn after_input(s: FrpState, input: FrpInput) -> FrpState {
    match input {
        FrpInput::SetVisibility(v) => FrpState {
            visible: v,
            model: record(after_set_visibility(s.model, v), seq![ContainerAction::OutputVisible(v)]),
            ..s
        },
        FrpInput::ToggleVisibility => FrpState {
            visible: !s.model.view_visible,
            model: record(
                after_toggle_visibility(s.model),
                seq![ContainerAction::OutputVisible(!s.model.view_visible)],
            ),
            ..s
        },
        FrpInput::SetVisualization(d) => FrpState { uninitialised: d is None, ..s },
        FrpInput::SetVisInputType(t) => FrpState {
            last_input_type: Some(t),
            pending_input_type: Some(t),
            awaiting_type_default: type_default_lookup(s, t) is Some,
            ..s
        },
        FrpInput::OutputVisInputType(t) => FrpState {
            vis_input_type: t,
            pending_input_type: None,
            ..record_frp(
                s,
                seq![ContainerAction::OutputVisInputType, ContainerAction::ForwardInputTypeToChooser],
            )
        },
        FrpInput::SelectFromActionBar => record_frp(
            s,
            seq![ContainerAction::HideActionBarIcons],
        ),
        FrpInput::SwitchVisualization(d) => FrpState {
            last_definition: Some(d),
            pending_switch: if s.last_definition != Some(d) {
                Some(d)
            } else {
                None
            },
            awaiting_type_default: false,
            ..s
        },
        FrpInput::VisualizationSwitched(d, instantiated) => after_visualization_switched(
            s,
            d,
            instantiated,
        ),
        FrpInput::SetData => FrpState {
            model: after_disable_waiting_screen(after_set_visualization_data(s.model)),
            ..s
        },
        FrpInput::SetLayer => FrpState { model: after_set_layer(s.model), ..s },
        FrpInput::MouseDown(target) => after_mouse_down(s, target),
        FrpInput::EnableFullscreen => {
            let t = after_select(s, true);
            FrpState { model: after_enable_fullscreen(t.model), ..t }
        },
        FrpInput::DisableFullscreen => {
            let t = after_select(s, false);
            FrpState { model: after_disable_fullscreen(t.model), ..t }
        },
    }
}

/// The state after the inputs, in order.
pub open spec fn after_inputs(s: FrpState, inputs: Seq<FrpInput>) -> FrpState
    decreases inputs.len(),
{
    if inputs.len() == 0 {
        s
    } else {
        after_inputs(after_input(s, inputs[0]), inputs.drop_first())
    }
}

/// The container invariant: that of its model.
pub open spec fn frp_invariant(s: FrpState) -> bool {
    container_invariant(s.model)
}

/// The state of a freshly built container.
pub open spec fn initial_frp_state() -> FrpState {
    FrpState {
        model: initial_state(),
        visible: false,
        is_selected: false,
        visualisation: None,
        vis_input_type: None,
        uninitialised: false,
        last_input_type: None,
        last_definition: None,
        pending_switch: None,
        pending_input_type: None,
        awaiting_type_default: false,
    }
}

/// Container that wraps a visualization for rendering and interaction in the
/// GUI: the decisions taken on each of its inputs, and its outputs.
pub struct Container {
    model: ContainerModel,
    visible: bool,
    is_selected: bool,
    visualisation: Option<Definition>,
    vis_input_type: Option<String>,
    uninitialised: bool,
    last_input_type: Option<Option<String>>,
    last_definition: Option<Option<Definition>>,
    pending_switch: Option<Option<Definition>>,
    pending_input_type: Option<Option<String>>,
    awaiting_type_default: bool,
}

impl View for Container {
    type V = FrpState;

    closed spec fn view(&self) -> FrpState {
        FrpState {
            model: self.model@,
            visible: self.visible,
            is_selected: self.is_selected,
            visualisation: definition_view(self.visualisation),
            vis_input_type: input_type_view(self.vis_input_type),
            uninitialised: self.uninitialised,
            last_input_type: match self.last_input_type {
                Some(t) => Some(input_type_view(t)),
                None => None,
            },
            last_definition: match self.last_definition {
                Some(d) => Some(definition_view(d)),
                None => None,
            },
            pending_switch: match self.pending_switch {
                Some(d) => Some(definition_view(d)),
                None => None,
            },
            pending_input_type: match self.pending_input_type {
                Some(t) => Some(input_type_view(t)),
                None => None,
            },
            awaiting_type_default: self.awaiting_type_default,
        }
    }
}

impl Container {
    /// Constructor: a fresh model, nothing visible or selected, no
    /// visualization, no input type, and nothing awaited.
    pub fn new() -> (container: Container)
        ensures
            container@ == initial_frp_state(),
            frp_invariant(container@),
    {
        Container {
            model: ContainerModel::new(),
            visible: false,
            is_selected: false,
            visualisation: None,
            vis_input_type: None,
            uninitialised: false,
            last_input_type: None,
            last_definition: None,
            pending_switch: None,
            pending_input_type: None,
            awaiting_type_default: false,
        }
    }

    /// The state of the display hierarchy.
    pub fn model(&self) -> (model: &ContainerModel)
        ensures
            model@ == self@.model,
    {
        &self.model
    }

    /// Hands over the display changes decided on so far, oldest first, and forgets them.
    pub fn take_actions(&mut self) -> (actions: Vec<ContainerAction>)
        ensures
            actions@ == old(self)@.model.actions,
            final(self)@ == (FrpState {
                model: ContainerState { actions: Seq::empty(), ..old(self)@.model },
                ..old(self)@
            }),
    {
        self.model.take_actions()
    }

    /// The last value of the `visible` output.
    pub fn visible(&self) -> (visible: bool)
        ensures
            visible == self@.visible,
    {
        self.visible
    }

    /// The last value of the `is_selected` output.
    pub fn is_selected(&self) -> (selected: bool)
        ensures
            selected == self@.is_selected,
    {
        self.is_selected
    }

    /// The last value of the `visualisation` output.
    pub fn visualisation(&self) -> (vis: Option<Definition>)
        ensures
            definition_view(vis) == self@.visualisation,
    {
        duplicate_option(&self.visualisation)
    }

    /// The last value of the `vis_input_type` output.
    pub fn vis_input_type(&self) -> (input_type: Option<String>)
        ensures
            input_type_view(input_type) == self@.vis_input_type,
    {
        duplicate_input_type(&self.vis_input_type)
    }

    fn record(&mut self, action: ContainerAction)
        ensures
            final(self)@ == record_frp(old(self)@, seq![action]),
    {
        self.model.record(action);
    }

    fn select(&mut self, selected: bool)
        ensures
            final(self)@ == after_select(old(self)@, selected),
    {
        if selected != self.is_selected {
            self.is_selected = selected;
            self.record(ContainerAction::OutputIsSelected(selected));
        }
    }

    /// Input `set_visibility`: show or hide the container, and emit `visible`.
    pub fn set_visibility(&mut self, visibility: bool)
        requires
            frp_invariant(old(self)@),
        ensures
            final(self)@ == after_input(old(self)@, FrpInput::SetVisibility(visibility)),
            frp_invariant(final(self)@),
    {
        self.model.set_visibility(visibility);
        self.visible = visibility;
        self.record(ContainerAction::OutputVisible(visibility));
    }

    /// Input `toggle_visibility`: show the container if hidden, hide it if
    /// shown, and emit `visible` with whether it is shown now.
    pub fn toggle_visibility(&mut self)
        requires
            frp_invariant(old(self)@),
        ensures
            final(self)@ == after_input(old(self)@, FrpInput::ToggleVisibility),
            frp_invariant(final(self)@),
    {
        self.model.toggle_visibility();
        let visible = self.model.is_active();
        self.visible = visible;
        self.record(ContainerAction::OutputVisible(visible));
    }

    /// Input `set_visualization`: the container counts as uninitialised exactly
    /// while the visualization set from outside is none. Returns what is to be
    /// requested, in this order: the registry's default visualization when
    /// `definition` is none, then `definition` itself.
    pub fn set_visualization(&mut self, definition: &Option<Definition>) -> (requests: Vec<
        VisualizationRequest,
    >)
        ensures
            requests@ == requests_for(definition_view(*definition)),
            final(self)@ == after_input(
                old(self)@,
                FrpInput::SetVisualization(definition_view(*definition)),
            ),
    {
        let uninitialised = definition.is_none();
        self.uninitialised = uninitialised;
        let mut requests: Vec<VisualizationRequest> = Vec::new();
        if uninitialised {
            requests.push(VisualizationRequest::RegistryDefault);
        }
        requests.push(VisualizationRequest::Given);
        proof {
            assert(requests@ =~= requests_for(definition_view(*definition)));
        }
        requests
    }

    /// Input `set_vis_input_type`, first step. Returns the type whose default
    /// visualization is to be requested: the new type, when it differs from
    /// the one that came in before and the container is uninitialised. That
    /// request, if any, is due before `output_vis_input_type`, which completes
    /// this input.
    pub fn set_vis_input_type(&mut self, input_type: &Option<String>) -> (lookup: Option<String>)
        ensures
            input_type_view(lookup) == type_default_lookup(old(self)@, input_type_view(*input_type)),
            final(self)@ == after_input(
                old(self)@,
                FrpInput::SetVisInputType(input_type_view(*input_type)),
            ),
    {
        let changed = match &self.last_input_type {
            Some(last) => !same_input_type(last, input_type),
            None => true,
        };
        let lookup = if changed && self.uninitialised {
            duplicate_input_type(input_type)
        } else {
            None
        };
        self.last_input_type = Some(duplicate_input_type(input_type));
        self.pending_input_type = Some(duplicate_input_type(input_type));
        self.awaiting_type_default = lookup.is_some();
        lookup
    }

    /// Input `set_vis_input_type`, second step, once the default visualization
    /// for the type, if one was asked for, has been requested: emit
    /// `vis_input_type` and pass the type on to the visualization chooser.
    pub fn output_vis_input_type(&mut self, input_type: Option<String>)
        requires
            old(self)@.pending_input_type == Some(input_type_view(input_type)),
            !old(self)@.awaiting_type_default,
        ensures
            final(self)@ == after_input(
                old(self)@,
                FrpInput::OutputVisInputType(input_type_view(input_type)),
            ),
    {
        self.vis_input_type = input_type;
        self.pending_input_type = None;
        self.record(ContainerAction::OutputVisInputType);
        self.record(ContainerAction::ForwardInputTypeToChooser);
        proof {
            assert(self@.model.actions =~= old(self)@.model.actions + seq![
                ContainerAction::OutputVisInputType,
                ContainerAction::ForwardInputTypeToChooser,
            ]);
        }
    }

    /// A visualization was picked in the action bar: its icons are hidden, and
    /// the picked definition is requested.
    pub fn select_from_action_bar(&mut self)
        ensures
            final(self)@ == after_input(old(self)@, FrpInput::SelectFromActionBar),
    {
        self.record(ContainerAction::HideActionBarIcons);
    }

    /// The input type whose valid visualizations are cycled through: the last
    /// value of the `vis_input_type` output, or `any_type`, the type of all
    /// values, when there is none.
    pub fn cycle_input_type(&self, any_type: String) -> (input_type: String)
        ensures
            input_type@ == cycle_type(self@, any_type@),
    {
        match &self.vis_input_type {
            Some(t) => t.clone(),
            None => any_type,
        }
    }

    /// Input `cycle_visualization`: the visualization to request next, cycling
    /// from the current one through `valid_sources`, the visualizations that
    /// the registry offers for the type that `cycle_input_type` gives.
    pub fn cycle_visualization(&self, valid_sources: &Vec<Definition>) -> (next: Option<Definition>)
        ensures
            definition_view(next) == next_in_list(
                definition_views(valid_sources@),
                self@.visualisation,
            ),
    {
        next_visualization(&self.visualisation, valid_sources)
    }

    /// A visualization is requested. Returns whether it differs from the one
    /// requested before (or is the first request); only then is it
    /// instantiated, when it is some, and `visualization_switched` due. Any
    /// default visualization awaited for an input type counts as requested.
    pub fn switch_visualization(&mut self, definition: &Option<Definition>) -> (changed: bool)
        ensures
            changed == (old(self)@.last_definition != Some(definition_view(*definition))),
            final(self)@ == after_input(
                old(self)@,
                FrpInput::SwitchVisualization(definition_view(*definition)),
            ),
    {
        let changed = match &self.last_definition {
            Some(last) => !same_definition(last, definition),
            None => true,
        };
        self.last_definition = Some(duplicate_option(definition));
        self.pending_switch = if changed {
            Some(duplicate_option(definition))
        } else {
            None
        };
        self.awaiting_type_default = false;
        changed
    }

    /// The visualization `definition`, which `switch_visualization` reported
    /// as changed, was instantiated successfully (`instantiated`) or not: a
    /// successful one is set and marked in the action bar; either way
    /// `visualisation` is emitted and the loading spinner shown.
    pub fn visualization_switched(&mut self, definition: Option<Definition>, instantiated: bool)
        requires
            frp_invariant(old(self)@),
            old(self)@.pending_switch == Some(definition_view(definition)),
        ensures
            final(self)@ == after_input(
                old(self)@,
                FrpInput::VisualizationSwitched(definition_view(definition), instantiated),
            ),
            frp_invariant(final(self)@),
    {
        if let Some(d) = &definition {
            if instantiated {
                self.model.set_visualization(d.duplicate());
                self.record(ContainerAction::SelectInActionBar);
            }
        }
        self.visualisation = definition;
        self.pending_switch = None;
        self.record(ContainerAction::OutputVisualisation);
        self.model.show_waiting_screen();
    }

    /// Input `set_data`: pass the data on to the visualization and hide the
    /// loading spinner.
    pub fn set_data(&mut self)
        ensures
            final(self)@ == after_input(old(self)@, FrpInput::SetData),
    {
        self.model.set_visualization_data();
        self.model.disable_waiting_screen();
    }

    /// Input `set_layer`: apply the layer to the visualization, if any, and to the view.
    pub fn set_layer(&mut self)
        ensures
            final(self)@ == after_input(old(self)@, FrpInput::SetLayer),
    {
        self.model.set_layer();
    }

    /// A mouse press on the scene, whose target is (`is_this_target`) or is not
    /// this container.
    pub fn mouse_down(&mut self, is_this_target: bool)
        ensures
            final(self)@ == after_input(old(self)@, FrpInput::MouseDown(is_this_target)),
    {
        let selected = self.model.select_by_click(is_this_target);
        if let Some(selected) = selected {
            self.record(ContainerAction::AnimateSelection(selected));
            self.select(selected);
        }
    }

    /// Input `enable_fullscreen`: the container becomes selected and shows its
    /// visualization fullscreen.
    pub fn enable_fullscreen(&mut self)
        requires
            frp_invariant(old(self)@),
        ensures
            final(self)@ == after_input(old(self)@, FrpInput::EnableFullscreen),
            frp_invariant(final(self)@),
    {
        self.select(true);
        self.model.enable_fullscreen();
    }

    /// Input `disable_fullscreen`: the container becomes deselected and shows
    /// its visualization in its view again.
    pub fn disable_fullscreen(&mut self)
        requires
            frp_invariant(old(self)@),
        ensures
            final(self)@ == after_input(old(self)@, FrpInput::DisableFullscreen),
            frp_invariant(final(self)@),
    {
        self.select(false);
        self.model.disable_fullscreen();
    }
}

/// The same selection signal twice emits `is_selected` at most once: the
/// second changes nothing.
pub proof fn lemma_select_idempotent(s: FrpState, selected: bool)
    ensures
        after_select(after_select(s, selected), selected) == after_select(s, selected),
        after_select(s, selected).is_selected == selected,
{
}

/// A missing input type is cycled through as the type of all values.
pub proof fn lemma_missing_type_is_any(s: FrpState, any_type: Seq<char>)
    requires
        s.vis_input_type is None,
    ensures
        cycle_type(s, any_type) == cycle_type(
            FrpState { vis_input_type: Some(any_type), ..s },
            any_type,
        ),
{
}

} // verus!
