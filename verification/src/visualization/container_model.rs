//! The display hierarchy of a visualization container: where the
//! visualization, the action bar and the loading spinner are displayed. The
//! display objects themselves live outside this library: every operation
//! records the display changes it decides on as `ContainerAction`s, which the
//! owner drains with `take_actions` and performs in order.

use vstd::prelude::*;

use crate::visualization::definition::{
    definition_view, definition_views, duplicate_option, next_in_list, next_visualization,
    Definition, PathView,
};

verus! {

/// The display object that holds the visualization.
#[derive(Clone, Copy, Debug, PartialEq, Eq, Structural)]
pub enum VisualizationParent {
    /// The container's own view.
    View,
    /// The fullscreen panel.
    FullscreenPanel,
}

/// A layer of the scene's DOM that can manage the visualization's root DOM element.
#[derive(Clone, Copy, Debug, PartialEq, Eq, Structural)]
pub enum DomLayer {
    /// The layer of fullscreen visualizations.
    FullscreenVis,
    /// The back layer.
    Back,
}

/// A change of the display that the container has decided on, to be performed
/// by its owner on the display objects, in the order recorded.
#[derive(Clone, Copy, Debug, PartialEq, Eq, Structural)]
pub enum ContainerAction {
    /// Make the action bar a child of the view.
    AttachActionBar,
    /// Remove the action bar from its parent.
    DetachActionBar,
    /// Make the view a child of the drag root.
    AttachView,
    /// Remove the view from the drag root.
    DetachView,
    /// Make the loading spinner a child of the view.
    ShowSpinner,
    /// Remove the loading spinner from its parent.
    HideSpinner,
    /// Send the container's current size to the visualization.
    SendSizeToVisualization,
    /// Connect the visualization's preprocessor changes to the container's
    /// preprocessor output, and emit the visualization's current preprocessor.
    ConnectPreprocessor,
    /// Make the visualization a child of the given display object.
    AttachVisualization(VisualizationParent),
    /// Let the given DOM layer manage the visualization's root DOM element, if it has one.
    ManageVisualizationDom(DomLayer),
    /// Emit the visualization's `activate` input.
    ActivateVisualization,
    /// Emit the visualization's `deactivate` input.
    DeactivateVisualization,
    /// Send the data that came in to the visualization.
    SendDataToVisualization,
    /// Send the requested layer to the visualization.
    SetVisualizationLayer,
    /// Apply the requested layer to the view's HTML background.
    SetViewLayer,
    /// Mark the new visualization's path as selected in the action bar.
    SelectInActionBar,
    /// Hide the action bar's icons.
    HideActionBarIcons,
    /// Forward the new input type to the visualization chooser.
    ForwardInputTypeToChooser,
    /// Animate the selection highlight towards selected (`true`) or not (`false`).
    AnimateSelection(bool),
    /// Emit the `visible` output with the given value.
    OutputVisible(bool),
    /// Emit the `is_selected` output with the given value.
    OutputIsSelected(bool),
    /// Emit the `visualisation` output with the container's current definition.
    OutputVisualisation,
    /// Emit the `vis_input_type` output with the container's current input type.
    OutputVisInputType,
}

/// The abstract state of a `ContainerModel`.
pub struct ContainerState {
    pub is_fullscreen: bool,
    /// Whether the view is a child of the drag root, that is, shown.
    pub view_visible: bool,
    /// Whether the action bar is a child of the view.
    pub action_bar_attached: bool,
    /// Whether the loading spinner is a child of the view.
    pub spinner_shown: bool,
    /// The path of the visualization that is set, if any.
    pub visualization: Option<PathView>,
    /// Where that visualization is displayed.
    pub visualization_parent: Option<VisualizationParent>,
    /// The display changes decided on and not yet taken by the owner.
    pub actions: Seq<ContainerAction>,
}

/// Where the visualization belongs: in the fullscreen panel exactly when the
/// container is fullscreen.
pub open spec fn parent_for(is_fullscreen: bool) -> VisualizationParent {
    if is_fullscreen {
        VisualizationParent::FullscreenPanel
    } else {
        VisualizationParent::View
    }
}

/// The visualization, if any, is displayed where `parent_for` says.
pub open spec fn visualization_placed(s: ContainerState) -> bool {
    s.visualization_parent == (if s.visualization is Some {
        Some(parent_for(s.is_fullscreen))
    } else {
        None
    })
}

/// The invariant of a container model: the action bar is shown exactly when
/// the view is, and the visualization is where it belongs.
pub open spec fn container_invariant(s: ContainerState) -> bool {
    &&& s.action_bar_attached == s.view_visible
    &&& visualization_placed(s)
}

/// `s` with the given actions recorded.
pub open spec fn record(s: ContainerState, actions: Seq<ContainerAction>) -> ContainerState {
    ContainerState { actions: s.actions + actions, ..s }
}

/// The state after showing the visualization, if any, where it belongs.
pub open spec fn after_show_visualisation(s: ContainerState) -> ContainerState {
    if s.visualization is Some {
        let parent = parent_for(s.is_fullscreen);
        ContainerState {
            visualization_parent: Some(parent),
            ..record(s, seq![ContainerAction::AttachVisualization(parent)])
        }
    } else {
        s
    }
}

/// The state after `set_visibility(visibility)`.
pub open spec fn after_set_visibility(s: ContainerState, visibility: bool) -> ContainerState {
    if visibility {
        after_show_visualisation(
            ContainerState {
                action_bar_attached: true,
                view_visible: true,
                ..record(s, seq![ContainerAction::AttachActionBar, ContainerAction::AttachView])
            },
        )
    } else {
        ContainerState {
            action_bar_attached: false,
            view_visible: false,
            ..record(s, seq![ContainerAction::DetachActionBar, ContainerAction::DetachView])
        }
    }
}

/// The state after `toggle_visibility()`.
pub open spec fn after_toggle_visibility(s: ContainerState) -> ContainerState {
    after_set_visibility(s, !s.view_visible)
}

/// The state after `enable_fullscreen()`.
pub open spec fn after_enable_fullscreen(s: ContainerState) -> ContainerState {
    if s.visualization is Some {
        ContainerState {
            is_fullscreen: true,
            visualization_parent: Some(VisualizationParent::FullscreenPanel),
            ..record(
                s,
                seq![
                    ContainerAction::AttachVisualization(VisualizationParent::FullscreenPanel),
                    ContainerAction::ManageVisualizationDom(DomLayer::FullscreenVis),
                    ContainerAction::ActivateVisualization,
                ],
            )
        }
    } else {
        ContainerState { is_fullscreen: true, ..s }
    }
}

/// The state after `disable_fullscreen()`.
pub open spec fn after_disable_fullscreen(s: ContainerState) -> ContainerState {
    if s.visualization is Some {
        ContainerState {
            is_fullscreen: false,
            visualization_parent: Some(VisualizationParent::View),
            ..record(
                s,
                seq![
                    ContainerAction::AttachVisualization(VisualizationParent::View),
                    ContainerAction::ManageVisualizationDom(DomLayer::Back),
                    ContainerAction::DeactivateVisualization,
                ],
            )
        }
    } else {
        ContainerState { is_fullscreen: false, ..s }
    }
}

/// The state after `set_visualization` with a definition whose path is `path`.
pub open spec fn after_set_visualization(s: ContainerState, path: PathView) -> ContainerState {
    let parent = parent_for(s.is_fullscreen);
    ContainerState {
        visualization: Some(path),
        visualization_parent: Some(parent),
        ..record(
            s,
            seq![
                ContainerAction::SendSizeToVisualization,
                ContainerAction::ConnectPreprocessor,
                ContainerAction::AttachVisualization(parent),
            ],
        )
    }
}

/// The state after `set_visualization_data()`.
pub open spec fn after_set_visualization_data(s: ContainerState) -> ContainerState {
    if s.visualization is Some {
        record(s, seq![ContainerAction::SendDataToVisualization])
    } else {
        s
    }
}

/// The state after `set_layer()`.
pub open spec fn after_set_layer(s: ContainerState) -> ContainerState {
    if s.visualization is Some {
        record(s, seq![ContainerAction::SetVisualizationLayer, ContainerAction::SetViewLayer])
    } else {
        record(s, seq![ContainerAction::SetViewLayer])
    }
}

/// The state after showing the loading spinner.
pub open spec fn after_show_waiting_screen(s: ContainerState) -> ContainerState {
    ContainerState { spinner_shown: true, ..record(s, seq![ContainerAction::ShowSpinner]) }
}

/// The state after hiding the loading spinner.
pub open spec fn after_disable_waiting_screen(s: ContainerState) -> ContainerState {
    ContainerState { spinner_shown: false, ..record(s, seq![ContainerAction::HideSpinner]) }
}

/// What a mouse press decides about selection: pressing on the container
/// selects it, pressing elsewhere deselects it unless it is fullscreen; either
/// only when a visualization is set.
pub open spec fn click_selection(s: ContainerState, is_this_target: bool) -> Option<bool> {
    if s.visualization is None {
        None
    } else if is_this_target {
        Some(true)
    } else if !s.is_fullscreen {
        Some(false)
    } else {
        None
    }
}

/// The state after a mouse press: the visualization is activated or
/// deactivated as `click_selection` decides.
pub open spec fn after_click(s: ContainerState, is_this_target: bool) -> ContainerState {
    match click_selection(s, is_this_target) {
        Some(true) => record(s, seq![ContainerAction::ActivateVisualization]),
        Some(false) => record(s, seq![ContainerAction::DeactivateVisualization]),
        None => s,
    }
}

/// Internal data of a `Container`: the state of its display hierarchy.
pub struct ContainerModel {
    is_fullscreen: bool,
    view_visible: bool,
    action_bar_attached: bool,
    spinner_shown: bool,
    visualization: Option<Definition>,
    visualization_parent: Option<VisualizationParent>,
    actions: Vec<ContainerAction>,
}

impl View for ContainerModel {
    type V = ContainerState;

    closed spec fn view(&self) -> ContainerState {
        ContainerState {
            is_fullscreen: self.is_fullscreen,
            view_visible: self.view_visible,
            action_bar_attached: self.action_bar_attached,
            spinner_shown: self.spinner_shown,
            visualization: definition_view(self.visualization),
            visualization_parent: self.visualization_parent,
            actions: self.actions@,
        }
    }
}

/// The state of a freshly built container model: hidden, not fullscreen,
/// without visualization, with the loading spinner shown.
pub open spec fn initial_state() -> ContainerState {
    ContainerState {
        is_fullscreen: false,
        view_visible: false,
        action_bar_attached: false,
        spinner_shown: true,
        visualization: None,
        visualization_parent: None,
        actions: seq![
            ContainerAction::ShowSpinner,
            ContainerAction::AttachActionBar,
            ContainerAction::AttachActionBar,
            ContainerAction::AttachView,
            ContainerAction::DetachActionBar,
            ContainerAction::DetachView,
            ContainerAction::ShowSpinner,
        ],
    }
}

impl ContainerModel {
    /// Constructor. The view shows its loading spinner and holds the action bar;
    /// showing and then hiding the container settles the display hierarchy, and
    /// the spinner is shown until data arrives.
    pub fn new() -> (model: ContainerModel)
        ensures
            model@ == initial_state(),
            container_invariant(model@),
    {
        let mut model = ContainerModel {
            is_fullscreen: false,
            view_visible: false,
            action_bar_attached: false,
            spinner_shown: false,
            visualization: None,
            visualization_parent: None,
            actions: Vec::new(),
        };
        model.show_waiting_screen();
        model.action_bar_attached = true;
        model.record(ContainerAction::AttachActionBar);
        model.set_visibility(true);
        model.set_visibility(false);
        model.show_waiting_screen();
        proof {
            assert(model@.actions =~= initial_state().actions);
        }
        model
    }

    pub(crate) fn record(&mut self, action: ContainerAction)
        ensures
            final(self)@ == record(old(self)@, seq![action]),
    {
        self.actions.push(action);
        proof {
            assert(self.actions@ =~= old(self)@.actions + seq![action]);
        }
    }

    /// Indicates whether the visualization container is visible and active.
    pub fn is_active(&self) -> (active: bool)
        ensures
            active == self@.view_visible,
    {
        self.view_visible
    }

    /// Whether the container is shown fullscreen.
    pub fn is_fullscreen(&self) -> (fullscreen: bool)
        ensures
            fullscreen == self@.is_fullscreen,
    {
        self.is_fullscreen
    }

    /// Whether the loading spinner is shown.
    pub fn spinner_shown(&self) -> (shown: bool)
        ensures
            shown == self@.spinner_shown,
    {
        self.spinner_shown
    }

    /// Whether a visualization is set.
    pub fn has_visualization(&self) -> (has: bool)
        ensures
            has == self@.visualization is Some,
    {
        self.visualization.is_some()
    }

    /// The definition of the visualization that is set, if any.
    pub fn visualization(&self) -> (vis: Option<Definition>)
        ensures
            definition_view(vis) == self@.visualization,
    {
        duplicate_option(&self.visualization)
    }

    /// Hands over the display changes decided on so far, oldest first, and forgets them.
    pub fn take_actions(&mut self) -> (actions: Vec<ContainerAction>)
        ensures
            actions@ == old(self)@.actions,
            final(self)@ == (ContainerState { actions: Seq::empty(), ..old(self)@ }),
    {
        let mut taken: Vec<ContainerAction> = Vec::new();
        std::mem::swap(&mut taken, &mut self.actions);
        proof {
            assert(self@ == (ContainerState { actions: Seq::empty(), ..old(self)@ }));
        }
        taken
    }

    /// Show the loading spinner.
    pub fn show_waiting_screen(&mut self)
        ensures
            final(self)@ == after_show_waiting_screen(old(self)@),
    {
        self.spinner_shown = true;
        self.record(ContainerAction::ShowSpinner);
    }

    /// Hide the loading spinner.
    pub fn disable_waiting_screen(&mut self)
        ensures
            final(self)@ == after_disable_waiting_screen(old(self)@),
    {
        self.spinner_shown = false;
        self.record(ContainerAction::HideSpinner);
    }

    /// Show or hide the container. The action bar is removed while hidden, so
    /// that it receives no mouse events.
    pub fn set_visibility(&mut self, visibility: bool)
        requires
            visualization_placed(old(self)@),
        ensures
            final(self)@ == after_set_visibility(old(self)@, visibility),
            container_invariant(final(self)@),
    {
        if visibility {
            self.action_bar_attached = true;
            self.record(ContainerAction::AttachActionBar);
        } else {
            self.action_bar_attached = false;
            self.record(ContainerAction::DetachActionBar);
        }
        if visibility {
            self.view_visible = true;
            self.record(ContainerAction::AttachView);
            self.show_visualisation();
        } else {
            self.view_visible = false;
            self.record(ContainerAction::DetachView);
        }
        proof {
            let s = old(self)@;
            if visibility {
                assert(record(record(s, seq![ContainerAction::AttachActionBar]), seq![
                    ContainerAction::AttachView,
                ]).actions =~= s.actions + seq![
                    ContainerAction::AttachActionBar,
                    ContainerAction::AttachView,
                ]);
            } else {
                assert(record(record(s, seq![ContainerAction::DetachActionBar]), seq![
                    ContainerAction::DetachView,
                ]).actions =~= s.actions + seq![
                    ContainerAction::DetachActionBar,
                    ContainerAction::DetachView,
                ]);
            }
        }
    }

    /// Show the container if it is hidden, hide it if it is shown.
    pub fn toggle_visibility(&mut self)
        requires
            container_invariant(old(self)@),
        ensures
            final(self)@ == after_toggle_visibility(old(self)@),
            container_invariant(final(self)@),
    {
        let visible = self.is_active();
        self.set_visibility(!visible);
    }

    /// Display the visualization, if any, where it belongs.
    fn show_visualisation(&mut self)
        ensures
            final(self)@ == after_show_visualisation(old(self)@),
    {
        if self.visualization.is_some() {
            let parent = if self.is_fullscreen {
                VisualizationParent::FullscreenPanel
            } else {
                VisualizationParent::View
            };
            self.visualization_parent = Some(parent);
            self.record(ContainerAction::AttachVisualization(parent));
        }
    }

    /// Move the visualization, if any, to the fullscreen panel and activate it.
    pub fn enable_fullscreen(&mut self)
        requires
            container_invariant(old(self)@),
        ensures
            final(self)@ == after_enable_fullscreen(old(self)@),
            container_invariant(final(self)@),
    {
        self.is_fullscreen = true;
        if self.visualization.is_some() {
            self.visualization_parent = Some(VisualizationParent::FullscreenPanel);
            self.record(ContainerAction::AttachVisualization(VisualizationParent::FullscreenPanel));
            self.record(ContainerAction::ManageVisualizationDom(DomLayer::FullscreenVis));
            self.record(ContainerAction::ActivateVisualization);
            proof {
                assert(self@.actions =~= after_enable_fullscreen(old(self)@).actions);
            }
        }
    }

    /// Move the visualization, if any, back to the view and deactivate it.
    pub fn disable_fullscreen(&mut self)
        requires
            container_invariant(old(self)@),
        ensures
            final(self)@ == after_disable_fullscreen(old(self)@),
            container_invariant(final(self)@),
    {
        self.is_fullscreen = false;
        if self.visualization.is_some() {
            self.visualization_parent = Some(VisualizationParent::View);
            self.record(ContainerAction::AttachVisualization(VisualizationParent::View));
            self.record(ContainerAction::ManageVisualizationDom(DomLayer::Back));
            self.record(ContainerAction::DeactivateVisualization);
            proof {
                assert(self@.actions =~= after_disable_fullscreen(old(self)@).actions);
            }
        }
    }

    /// Set the visualization instantiated from `definition`: it gets the
    /// container's size and preprocessor connection and is displayed where it
    /// belongs.
    pub fn set_visualization(&mut self, definition: Definition)
        requires
            container_invariant(old(self)@),
        ensures
            final(self)@ == after_set_visualization(old(self)@, definition@),
            container_invariant(final(self)@),
    {
        self.record(ContainerAction::SendSizeToVisualization);
        self.record(ContainerAction::ConnectPreprocessor);
        let parent = if self.is_fullscreen {
            VisualizationParent::FullscreenPanel
        } else {
            VisualizationParent::View
        };
        self.record(ContainerAction::AttachVisualization(parent));
        self.visualization = Some(definition);
        self.visualization_parent = Some(parent);
        proof {
            assert(self@.actions =~= after_set_visualization(old(self)@, definition@).actions);
        }
    }

    /// Pass new data on to the visualization, if any.
    pub fn set_visualization_data(&mut self)
        ensures
            final(self)@ == after_set_visualization_data(old(self)@),
    {
        if self.visualization.is_some() {
            self.record(ContainerAction::SendDataToVisualization);
        }
    }

    /// Apply a new layer to the visualization, if any, and to the view.
    pub fn set_layer(&mut self)
        ensures
            final(self)@ == after_set_layer(old(self)@),
    {
        if self.visualization.is_some() {
            self.record(ContainerAction::SetVisualizationLayer);
            self.record(ContainerAction::SetViewLayer);
            proof {
                assert(self@.actions =~= after_set_layer(old(self)@).actions);
            }
        } else {
            self.record(ContainerAction::SetViewLayer);
        }
    }

    /// Decide on a mouse press whose target is (`is_this_target`) or is not the
    /// container: activate or deactivate the visualization, and say whether the
    /// container becomes selected (`Some(true)`), deselected (`Some(false)`) or
    /// neither.
    pub fn select_by_click(&mut self, is_this_target: bool) -> (selected: Option<bool>)
        ensures
            selected == click_selection(old(self)@, is_this_target),
            final(self)@ == after_click(old(self)@, is_this_target),
    {
        if self.visualization.is_none() {
            None
        } else if is_this_target {
            self.record(ContainerAction::ActivateVisualization);
            Some(true)
        } else if !self.is_fullscreen {
            self.record(ContainerAction::DeactivateVisualization);
            Some(false)
        } else {
            None
        }
    }

    /// The visualization to switch to when cycling from `current_vis` through
    /// `vis_list`, the visualizations that the registry offers for the input type.
    pub fn next_visualization(&self, current_vis: &Option<Definition>, vis_list: &Vec<Definition>) -> (next: Option<Definition>)
        ensures
            definition_view(next) == next_in_list(definition_views(vis_list@), definition_view(
                *current_vis,
            )),
    {
        next_visualization(current_vis, vis_list)
    }
}

/// After `set_visibility(v)` the container is active exactly when `v`, and
/// the action bar is shown exactly when the container is.
pub proof fn lemma_set_visibility_shows(s: ContainerState, visibility: bool)
    requires
        visualization_placed(s),
    ensures
        after_set_visibility(s, visibility).view_visible == visibility,
        after_set_visibility(s, visibility).action_bar_attached == visibility,
        container_invariant(after_set_visibility(s, visibility)),
{
}

/// Toggling the visibility twice gives back the visibility, the action bar,
/// the spinner, the fullscreen mode and the visualization and its place.
pub proof fn lemma_toggle_twice(s: ContainerState)
    requires
        container_invariant(s),
    ensures
        ({
            let t = after_toggle_visibility(after_toggle_visibility(s));
            &&& t.view_visible == s.view_visible
            &&& t.action_bar_attached == s.action_bar_attached
            &&& t.spinner_shown == s.spinner_shown
            &&& t.is_fullscreen == s.is_fullscreen
            &&& t.visualization == s.visualization
            &&& t.visualization_parent == s.visualization_parent
        }),
{
}

/// Entering and then leaving fullscreen gives back the state before, but for
/// the recorded actions.
pub proof fn lemma_fullscreen_round_trip(s: ContainerState)
    requires
        container_invariant(s),
        !s.is_fullscreen,
    ensures
        ({
            let t = after_disable_fullscreen(after_enable_fullscreen(s));
            t == (ContainerState { actions: t.actions, ..s })
        }),
{
}

/// Every operation on the model keeps its invariant: the action bar is shown
/// exactly when the view is, and the visualization is in the fullscreen panel
/// exactly when the container is fullscreen.
pub proof fn lemma_invariant_kept(
    s: ContainerState,
    visibility: bool,
    path: PathView,
    is_this_target: bool,
)
    requires
        container_invariant(s),
    ensures
        container_invariant(after_set_visibility(s, visibility)),
        container_invariant(after_toggle_visibility(s)),
        container_invariant(after_enable_fullscreen(s)),
        container_invariant(after_disable_fullscreen(s)),
        container_invariant(after_set_visualization(s, path)),
        container_invariant(after_set_visualization_data(s)),
        container_invariant(after_set_layer(s)),
        container_invariant(after_show_waiting_screen(s)),
        container_invariant(after_disable_waiting_screen(s)),
        container_invariant(after_click(s, is_this_target)),
{
}

/// While fullscreen, a press outside the container never deselects it.
pub proof fn lemma_fullscreen_keeps_selection(s: ContainerState)
    requires
        s.is_fullscreen,
    ensures
        click_selection(s, false) is None,
{
}

} // verus!
