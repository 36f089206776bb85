use lib::visualization::container::{Container, VisualizationRequest};
use lib::visualization::container_model::{
    ContainerAction, ContainerModel, DomLayer, VisualizationParent,
};
use lib::visualization::definition::{next_visualization, Definition, Path};

fn definition(name: &str) -> Definition {
    Definition::new(Path::new("Standard.Visualization".to_string(), name.to_string()))
}

fn name_of(d: &Option<Definition>) -> Option<String> {
    d.as_ref().map(|d| d.path.name.clone())
}

#[test]
fn new_model_settles_hidden_with_spinner() {
    let mut model = ContainerModel::new();
    assert!(!model.is_active());
    assert!(!model.is_fullscreen());
    assert!(!model.has_visualization());
    assert_eq!(
        model.take_actions(),
        vec![
            ContainerAction::ShowSpinner,
            ContainerAction::AttachActionBar,
            ContainerAction::AttachActionBar,
            ContainerAction::AttachView,
            ContainerAction::DetachActionBar,
            ContainerAction::DetachView,
            ContainerAction::ShowSpinner,
        ]
    );
    assert!(model.take_actions().is_empty());
}

#[test]
fn showing_attaches_action_bar_view_and_visualization() {
    let mut model = ContainerModel::new();
    model.set_visualization(definition("Table"));
    model.take_actions();
    model.set_visibility(true);
    assert!(model.is_active());
    assert_eq!(
        model.take_actions(),
        vec![
            ContainerAction::AttachActionBar,
            ContainerAction::AttachView,
            ContainerAction::AttachVisualization(VisualizationParent::View),
        ]
    );
    model.set_visibility(false);
    assert!(!model.is_active());
    assert_eq!(
        model.take_actions(),
        vec![ContainerAction::DetachActionBar, ContainerAction::DetachView]
    );
}

#[test]
fn toggling_twice_restores_visibility() {
    let mut model = ContainerModel::new();
    model.toggle_visibility();
    assert!(model.is_active());
    model.toggle_visibility();
    assert!(!model.is_active());
}

#[test]
fn set_visualization_goes_where_the_mode_says() {
    let mut model = ContainerModel::new();
    model.take_actions();
    model.set_visualization(definition("Table"));
    assert_eq!(
        model.take_actions(),
        vec![
            ContainerAction::SendSizeToVisualization,
            ContainerAction::ConnectPreprocessor,
            ContainerAction::AttachVisualization(VisualizationParent::View),
        ]
    );
    model.enable_fullscreen();
    model.take_actions();
    model.set_visualization(definition("Scatter Plot"));
    assert_eq!(
        model.take_actions(),
        vec![
            ContainerAction::SendSizeToVisualization,
            ContainerAction::ConnectPreprocessor,
            ContainerAction::AttachVisualization(VisualizationParent::FullscreenPanel),
        ]
    );
    assert_eq!(name_of(&model.visualization()), Some("Scatter Plot".to_string()));
}

#[test]
fn fullscreen_round_trip_moves_visualization_and_back() {
    let mut model = ContainerModel::new();
    model.set_visualization(definition("Table"));
    model.take_actions();
    model.enable_fullscreen();
    assert!(model.is_fullscreen());
    assert_eq!(
        model.take_actions(),
        vec![
            ContainerAction::AttachVisualization(VisualizationParent::FullscreenPanel),
            ContainerAction::ManageVisualizationDom(DomLayer::FullscreenVis),
            ContainerAction::ActivateVisualization,
        ]
    );
    model.disable_fullscreen();
    assert!(!model.is_fullscreen());
    assert_eq!(
        model.take_actions(),
        vec![
            ContainerAction::AttachVisualization(VisualizationParent::View),
            ContainerAction::ManageVisualizationDom(DomLayer::Back),
            ContainerAction::DeactivateVisualization,
        ]
    );
}

#[test]
fn fullscreen_without_visualization_only_changes_mode() {
    let mut model = ContainerModel::new();
    model.take_actions();
    model.enable_fullscreen();
    assert!(model.is_fullscreen());
    assert!(model.take_actions().is_empty());
}

#[test]
fn data_and_layer_reach_only_a_set_visualization() {
    let mut model = ContainerModel::new();
    model.take_actions();
    model.set_visualization_data();
    model.set_layer();
    assert_eq!(model.take_actions(), vec![ContainerAction::SetViewLayer]);
    model.set_visualization(definition("Table"));
    model.take_actions();
    model.set_visualization_data();
    model.set_layer();
    assert_eq!(
        model.take_actions(),
        vec![
            ContainerAction::SendDataToVisualization,
            ContainerAction::SetVisualizationLayer,
            ContainerAction::SetViewLayer,
        ]
    );
}

#[test]
fn click_selection_rules() {
    let mut model = ContainerModel::new();
    model.take_actions();
    assert_eq!(model.select_by_click(true), None);
    assert_eq!(model.select_by_click(false), None);
    model.set_visualization(definition("Table"));
    model.take_actions();
    assert_eq!(model.select_by_click(true), Some(true));
    assert_eq!(model.take_actions(), vec![ContainerAction::ActivateVisualization]);
    assert_eq!(model.select_by_click(false), Some(false));
    assert_eq!(model.take_actions(), vec![ContainerAction::DeactivateVisualization]);
    model.enable_fullscreen();
    model.take_actions();
    assert_eq!(model.select_by_click(false), None);
    assert!(model.take_actions().is_empty());
}

#[test]
fn cycling_moves_to_the_next_and_wraps() {
    let list = vec![definition("Table"), definition("Scatter Plot"), definition("JSON")];
    assert_eq!(name_of(&next_visualization(&None, &list)), Some("Table".to_string()));
    assert_eq!(
        name_of(&next_visualization(&Some(definition("Table")), &list)),
        Some("Scatter Plot".to_string())
    );
    assert_eq!(
        name_of(&next_visualization(&Some(definition("Scatter Plot")), &list)),
        Some("JSON".to_string())
    );
    assert_eq!(
        name_of(&next_visualization(&Some(definition("JSON")), &list)),
        Some("Table".to_string())
    );
    assert_eq!(
        name_of(&next_visualization(&Some(definition("Heatmap")), &list)),
        Some("Table".to_string())
    );
    assert_eq!(name_of(&next_visualization(&Some(definition("Table")), &Vec::new())), None);
}

#[test]
fn cycling_compares_the_whole_path() {
    let other = Definition::new(Path::new("Local.Project".to_string(), "Table".to_string()));
    let list = vec![definition("Table"), definition("JSON")];
    assert_eq!(name_of(&next_visualization(&Some(other), &list)), Some("Table".to_string()));
}

#[test]
fn cycling_after_first_occurrence() {
    let list = vec![definition("A"), definition("B"), definition("A"), definition("C")];
    assert_eq!(name_of(&next_visualization(&Some(definition("A")), &list)), Some("B".to_string()));
}

#[test]
fn container_visibility_outputs() {
    let mut container = Container::new();
    container.take_actions();
    container.set_visibility(true);
    assert!(container.visible());
    assert_eq!(
        container.take_actions(),
        vec![
            ContainerAction::AttachActionBar,
            ContainerAction::AttachView,
            ContainerAction::OutputVisible(true),
        ]
    );
    container.toggle_visibility();
    assert!(!container.visible());
    assert_eq!(
        container.take_actions(),
        vec![
            ContainerAction::DetachActionBar,
            ContainerAction::DetachView,
            ContainerAction::OutputVisible(false),
        ]
    );
}

#[test]
fn container_selection_changes_are_emitted_once() {
    let mut container = Container::new();
    container.take_actions();
    container.enable_fullscreen();
    assert!(container.is_selected());
    assert_eq!(container.take_actions(), vec![ContainerAction::OutputIsSelected(true)]);
    container.enable_fullscreen();
    assert!(container.take_actions().is_empty());
    container.disable_fullscreen();
    assert!(!container.is_selected());
    assert_eq!(container.take_actions(), vec![ContainerAction::OutputIsSelected(false)]);
}

#[test]
fn container_click_selects_and_animates() {
    let mut container = Container::new();
    assert!(container.switch_visualization(&Some(definition("Table"))));
    container.visualization_switched(Some(definition("Table")), true);
    container.take_actions();
    container.mouse_down(true);
    assert!(container.is_selected());
    assert_eq!(
        container.take_actions(),
        vec![
            ContainerAction::ActivateVisualization,
            ContainerAction::AnimateSelection(true),
            ContainerAction::OutputIsSelected(true),
        ]
    );
    container.mouse_down(false);
    assert!(!container.is_selected());
    assert_eq!(
        container.take_actions(),
        vec![
            ContainerAction::DeactivateVisualization,
            ContainerAction::AnimateSelection(false),
            ContainerAction::OutputIsSelected(false),
        ]
    );
}

#[test]
fn container_switching_visualizations() {
    let mut container = Container::new();
    container.take_actions();
    assert_eq!(
        container.set_visualization(&None),
        vec![VisualizationRequest::RegistryDefault, VisualizationRequest::Given]
    );
    assert!(container.switch_visualization(&Some(definition("Table"))));
    container.visualization_switched(Some(definition("Table")), true);
    assert_eq!(name_of(&container.visualisation()), Some("Table".to_string()));
    assert_eq!(
        container.take_actions(),
        vec![
            ContainerAction::SendSizeToVisualization,
            ContainerAction::ConnectPreprocessor,
            ContainerAction::AttachVisualization(VisualizationParent::View),
            ContainerAction::SelectInActionBar,
            ContainerAction::OutputVisualisation,
            ContainerAction::ShowSpinner,
        ]
    );
    assert!(!container.switch_visualization(&Some(definition("Table"))));
    assert!(container.switch_visualization(&None));
    container.visualization_switched(None, false);
    assert_eq!(container.visualisation().is_none(), true);
    container.take_actions();
    assert!(container.switch_visualization(&Some(definition("JSON"))));
    container.visualization_switched(Some(definition("JSON")), false);
    assert_eq!(name_of(&container.visualisation()), Some("JSON".to_string()));
    assert_eq!(name_of(&container.model().visualization()), Some("Table".to_string()));
    assert_eq!(
        container.take_actions(),
        vec![ContainerAction::OutputVisualisation, ContainerAction::ShowSpinner]
    );
    let valid = vec![definition("Table"), definition("JSON"), definition("Heatmap")];
    assert_eq!(name_of(&container.cycle_visualization(&valid)), Some("Heatmap".to_string()));
}

#[test]
fn container_input_type_lookup_only_while_uninitialised() {
    let mut container = Container::new();
    container.take_actions();
    let table = Some("Table".to_string());
    assert_eq!(container.set_vis_input_type(&table), None);
    assert!(container.take_actions().is_empty());
    container.output_vis_input_type(table);
    assert_eq!(container.vis_input_type(), Some("Table".to_string()));
    assert_eq!(
        container.take_actions(),
        vec![ContainerAction::OutputVisInputType, ContainerAction::ForwardInputTypeToChooser]
    );
    container.set_visualization(&None);
    let integer = Some("Integer".to_string());
    assert_eq!(container.set_vis_input_type(&integer), Some("Integer".to_string()));
    assert_eq!(container.set_vis_input_type(&integer), None);
    assert_eq!(container.set_vis_input_type(&None), None);
    assert_eq!(
        container.set_visualization(&Some(definition("Table"))),
        vec![VisualizationRequest::Given]
    );
    assert_eq!(container.set_vis_input_type(&Some("Text".to_string())), None);
}

#[test]
fn container_input_type_lookup_comes_before_output() {
    let mut container = Container::new();
    container.set_visualization(&None);
    container.take_actions();
    let integer = Some("Integer".to_string());
    assert_eq!(container.set_vis_input_type(&integer), Some("Integer".to_string()));
    assert!(container.switch_visualization(&Some(definition("Table"))));
    container.visualization_switched(Some(definition("Table")), true);
    container.output_vis_input_type(integer);
    let actions = container.take_actions();
    assert_eq!(
        &actions[actions.len() - 4..],
        &[
            ContainerAction::OutputVisualisation,
            ContainerAction::ShowSpinner,
            ContainerAction::OutputVisInputType,
            ContainerAction::ForwardInputTypeToChooser,
        ]
    );
}

#[test]
fn cycling_uses_any_type_without_input_type() {
    let mut container = Container::new();
    assert_eq!(container.cycle_input_type("Standard.Base.Any.Any".to_string()), "Standard.Base.Any.Any");
    container.output_vis_input_type(Some("Integer".to_string()));
    assert_eq!(container.cycle_input_type("Standard.Base.Any.Any".to_string()), "Integer");
}

#[test]
fn container_data_hides_spinner() {
    let mut container = Container::new();
    assert!(container.switch_visualization(&Some(definition("Table"))));
    container.visualization_switched(Some(definition("Table")), true);
    container.take_actions();
    container.set_data();
    assert_eq!(
        container.take_actions(),
        vec![ContainerAction::SendDataToVisualization, ContainerAction::HideSpinner]
    );
    container.set_layer();
    container.select_from_action_bar();
    assert_eq!(
        container.take_actions(),
        vec![
            ContainerAction::SetVisualizationLayer,
            ContainerAction::SetViewLayer,
            ContainerAction::HideActionBarIcons,
        ]
    );
}

#[test]
fn spinner_shown_from_visualisation_output_until_data() {
    let mut container = Container::new();
    assert!(container.model().spinner_shown());
    container.set_data();
    assert!(!container.model().spinner_shown());
    container.set_visibility(true);
    container.mouse_down(true);
    assert!(!container.model().spinner_shown());
    assert!(container.switch_visualization(&Some(definition("Table"))));
    container.visualization_switched(Some(definition("Table")), true);
    assert!(container.model().spinner_shown());
    container.set_layer();
    container.enable_fullscreen();
    assert!(container.model().spinner_shown());
    container.set_data();
    assert!(!container.model().spinner_shown());
}
