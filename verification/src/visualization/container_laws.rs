//! Laws of the container over sequences of inputs: when `is_selected` is
//! emitted, and when the loading spinner is shown.

use vstd::prelude::*;

use crate::visualization::container::{
    after_input, after_inputs, after_select, cycle_type, record_frp, type_default_lookup, FrpInput,
    FrpState,
};
use crate::visualization::container_model::{
    after_click, after_disable_fullscreen, after_disable_waiting_screen, after_enable_fullscreen,
    after_set_layer, after_set_visibility, after_set_visualization, after_set_visualization_data,
    after_show_visualisation, after_show_waiting_screen, after_toggle_visibility,
    click_selection, parent_for, record, ContainerAction, ContainerState, DomLayer,
    VisualizationParent,
};
use crate::visualization::definition::PathView;

verus! {

/// Whether every `is_selected` emission among `actions` differs from the value
/// the output held just before, starting from `current`.
pub open spec fn emits_only_changes(actions: Seq<ContainerAction>, current: bool) -> bool
    decreases actions.len(),
{
    if actions.len() == 0 {
        true
    } else {
        match actions[0] {
            ContainerAction::OutputIsSelected(b) => b != current && emits_only_changes(
                actions.drop_first(),
                b,
            ),
            _ => emits_only_changes(actions.drop_first(), current),
        }
    }
}

/// The value of the `is_selected` output after the emissions among `actions`,
/// starting from `current`.
pub open spec fn selection_after(actions: Seq<ContainerAction>, current: bool) -> bool
    decreases actions.len(),
{
    if actions.len() == 0 {
        current
    } else {
        match actions[0] {
            ContainerAction::OutputIsSelected(b) => selection_after(actions.drop_first(), b),
            _ => selection_after(actions.drop_first(), current),
        }
    }
}

/// No `is_selected` emission among `actions`.
pub open spec fn no_selection_output(actions: Seq<ContainerAction>) -> bool {
    forall|k: int| 0 <= k < actions.len() ==> !(actions[k] is OutputIsSelected)
}

/// `a` is `b` with actions added at the end.
pub open spec fn extends(a: Seq<ContainerAction>, b: Seq<ContainerAction>) -> bool {
    b.len() <= a.len() && a.take(b.len() as int) == b
}

/// `a` is `b` with actions added at the end, none of them an `is_selected` emission.
pub open spec fn clean_extension(a: Seq<ContainerAction>, b: Seq<ContainerAction>) -> bool {
    extends(a, b) && no_selection_output(a.skip(b.len() as int))
}

/// The actions that an input adds.
pub open spec fn added_actions(s: FrpState, input: FrpInput) -> Seq<ContainerAction> {
    after_input(s, input).model.actions.skip(s.model.actions.len() as int)
}

/// Whether an input is one of those that can emit `is_selected`.
pub open spec fn is_selection_input(input: FrpInput) -> bool {
    input is MouseDown || input is EnableFullscreen || input is DisableFullscreen
}

proof fn lemma_emits_concat(a: Seq<ContainerAction>, b: Seq<ContainerAction>, c: bool)
    ensures
        emits_only_changes(a + b, c) == (emits_only_changes(a, c) && emits_only_changes(
            b,
            selection_after(a, c),
        )),
        selection_after(a + b, c) == selection_after(b, selection_after(a, c)),
    decreases a.len(),
{
    if a.len() == 0 {
        assert(a + b =~= b);
    } else {
        assert((a + b).drop_first() =~= a.drop_first() + b);
        assert((a + b)[0] == a[0]);
        let c1 = match a[0] {
            ContainerAction::OutputIsSelected(x) => x,
            _ => c,
        };
        lemma_emits_concat(a.drop_first(), b, c1);
    }
}

proof fn lemma_clean_emits(a: Seq<ContainerAction>, c: bool)
    requires
        no_selection_output(a),
    ensures
        emits_only_changes(a, c),
        selection_after(a, c) == c,
    decreases a.len(),
{
    if a.len() > 0 {
        assert(!(a[0] is OutputIsSelected));
        assert forall|k: int| 0 <= k < a.drop_first().len() implies !(
        #[trigger] a.drop_first()[k] is OutputIsSelected) by {
            assert(a.drop_first()[k] == a[k + 1]);
        }
        lemma_clean_emits(a.drop_first(), c);
    }
}

proof fn lemma_record_clean(m: ContainerState, a: Seq<ContainerAction>)
    requires
        no_selection_output(a),
    ensures
        clean_extension(record(m, a).actions, m.actions),
{
    let n = record(m, a).actions;
    assert(n.take(m.actions.len() as int) =~= m.actions);
    assert(n.skip(m.actions.len() as int) =~= a);
}

proof fn lemma_clean_refl(a: Seq<ContainerAction>)
    ensures
        clean_extension(a, a),
{
    assert(a.take(a.len() as int) =~= a);
    assert(a.skip(a.len() as int) =~= Seq::<ContainerAction>::empty());
}

proof fn lemma_extends_chain(a: Seq<ContainerAction>, b: Seq<ContainerAction>, c: Seq<ContainerAction>)
    requires
        extends(b, a),
        extends(c, b),
    ensures
        extends(c, a),
        c.skip(a.len() as int) == b.skip(a.len() as int) + c.skip(b.len() as int),
{
    assert forall|k: int| 0 <= k < a.len() implies c[k] == a[k] by {
        assert(c.take(b.len() as int)[k] == b[k]);
        assert(b.take(a.len() as int)[k] == a[k]);
    }
    assert(c.take(a.len() as int) =~= a);
    assert forall|k: int| 0 <= k < b.len() - a.len() implies #[trigger] c.skip(a.len() as int)[k]
        == b.skip(a.len() as int)[k] by {
        assert(c.take(b.len() as int)[a.len() + k] == b[a.len() + k]);
    }
    assert(c.skip(a.len() as int) =~= b.skip(a.len() as int) + c.skip(b.len() as int));
}

proof fn lemma_clean_chain(a: Seq<ContainerAction>, b: Seq<ContainerAction>, c: Seq<ContainerAction>)
    requires
        clean_extension(b, a),
        clean_extension(c, b),
    ensures
        clean_extension(c, a),
{
    lemma_extends_chain(a, b, c);
    let x = b.skip(a.len() as int);
    let y = c.skip(b.len() as int);
    assert forall|k: int| 0 <= k < (x + y).len() implies !(#[trigger] (x + y)[k] is OutputIsSelected) by {
        if k < x.len() {
            assert((x + y)[k] == x[k]);
        } else {
            assert((x + y)[k] == y[k - x.len()]);
        }
    }
}

proof fn lemma_show_visualisation_clean(m: ContainerState)
    ensures
        clean_extension(after_show_visualisation(m).actions, m.actions),
{
    if m.visualization is Some {
        lemma_record_clean(m, seq![ContainerAction::AttachVisualization(parent_for(m.is_fullscreen))]);
    } else {
        lemma_clean_refl(m.actions);
    }
}

/// None of the model's operations emits `is_selected`.
proof fn lemma_model_clean(m: ContainerState, visibility: bool, path: PathView, target: bool)
    ensures
        clean_extension(after_set_visibility(m, visibility).actions, m.actions),
        clean_extension(after_toggle_visibility(m).actions, m.actions),
        clean_extension(after_enable_fullscreen(m).actions, m.actions),
        clean_extension(after_disable_fullscreen(m).actions, m.actions),
        clean_extension(after_set_visualization(m, path).actions, m.actions),
        clean_extension(after_set_visualization_data(m).actions, m.actions),
        clean_extension(after_set_layer(m).actions, m.actions),
        clean_extension(after_show_waiting_screen(m).actions, m.actions),
        clean_extension(after_disable_waiting_screen(m).actions, m.actions),
        clean_extension(after_click(m, target).actions, m.actions),
{
    lemma_clean_refl(m.actions);
    assert forall|v: bool| #[trigger] clean_extension(after_set_visibility(m, v).actions, m.actions) by {
        if v {
            let a = seq![ContainerAction::AttachActionBar, ContainerAction::AttachView];
            let r = ContainerState { action_bar_attached: true, view_visible: true, ..record(m, a) };
            lemma_record_clean(m, a);
            lemma_show_visualisation_clean(r);
            lemma_clean_chain(m.actions, r.actions, after_show_visualisation(r).actions);
        } else {
            lemma_record_clean(m, seq![ContainerAction::DetachActionBar, ContainerAction::DetachView]);
        }
    }
    if m.visualization is Some {
        lemma_record_clean(
            m,
            seq![
                ContainerAction::AttachVisualization(
                    VisualizationParent::FullscreenPanel,
                ),
                ContainerAction::ManageVisualizationDom(
                    DomLayer::FullscreenVis,
                ),
                ContainerAction::ActivateVisualization,
            ],
        );
        lemma_record_clean(
            m,
            seq![
                ContainerAction::AttachVisualization(
                    VisualizationParent::View,
                ),
                ContainerAction::ManageVisualizationDom(
                    DomLayer::Back,
                ),
                ContainerAction::DeactivateVisualization,
            ],
        );
        lemma_record_clean(m, seq![ContainerAction::SendDataToVisualization]);
        lemma_record_clean(
            m,
            seq![ContainerAction::SetVisualizationLayer, ContainerAction::SetViewLayer],
        );
    } else {
        lemma_record_clean(m, seq![ContainerAction::SetViewLayer]);
    }
    lemma_record_clean(
        m,
        seq![
            ContainerAction::SendSizeToVisualization,
            ContainerAction::ConnectPreprocessor,
            ContainerAction::AttachVisualization(
                parent_for(m.is_fullscreen),
            ),
        ],
    );
    lemma_record_clean(m, seq![ContainerAction::ShowSpinner]);
    lemma_record_clean(m, seq![ContainerAction::HideSpinner]);
    lemma_record_clean(m, seq![ContainerAction::ActivateVisualization]);
    lemma_record_clean(m, seq![ContainerAction::DeactivateVisualization]);
}

proof fn lemma_select_step(s: FrpState, selected: bool)
    ensures
        extends(after_select(s, selected).model.actions, s.model.actions),
        emits_only_changes(
            after_select(s, selected).model.actions.skip(s.model.actions.len() as int),
            s.is_selected,
        ),
        selection_after(
            after_select(s, selected).model.actions.skip(s.model.actions.len() as int),
            s.is_selected,
        ) == selected,
        after_select(s, selected).is_selected == selected,
{
    let t = after_select(s, selected);
    let n = s.model.actions.len() as int;
    if selected != s.is_selected {
        assert(t.model.actions.take(n) =~= s.model.actions);
        let added = t.model.actions.skip(n);
        assert(added =~= seq![ContainerAction::OutputIsSelected(selected)]);
        assert(added.drop_first() =~= Seq::<ContainerAction>::empty());
        assert(emits_only_changes(added.drop_first(), selected));
        assert(selection_after(added.drop_first(), selected) == selected);
        assert(added[0] == ContainerAction::OutputIsSelected(selected));
    } else {
        lemma_clean_refl(s.model.actions);
        let added = t.model.actions.skip(n);
        assert(added =~= Seq::<ContainerAction>::empty());
        assert(emits_only_changes(added, s.is_selected));
        assert(selection_after(added, s.is_selected) == s.is_selected);
    }
}

/// What one input does to `is_selected`: it extends the recorded actions, every
/// `is_selected` emission among those it adds differs from the value before,
/// and the output ends with the value last emitted. Only a mouse press and
/// entering or leaving fullscreen emit it; every other input leaves it alone.
pub proof fn lemma_input_selection(s: FrpState, input: FrpInput)
    ensures
        extends(after_input(s, input).model.actions, s.model.actions),
        emits_only_changes(added_actions(s, input), s.is_selected),
        selection_after(added_actions(s, input), s.is_selected) == after_input(
            s,
            input,
        ).is_selected,
        !is_selection_input(input) ==> no_selection_output(added_actions(s, input))
            && after_input(s, input).is_selected == s.is_selected,
{
    let t = after_input(s, input);
    let a = s.model.actions;
    let n = a.len() as int;
    let m = s.model;
    match input {
        FrpInput::MouseDown(target) => {
            lemma_model_clean(m, false, (Seq::empty(), Seq::empty()), target);
            let t0 = FrpState { model: after_click(m, target), ..s };
            match click_selection(m, target) {
                Some(selected) => {
                    let t1 = record_frp(t0, seq![ContainerAction::AnimateSelection(selected)]);
                    lemma_record_clean(t0.model, seq![ContainerAction::AnimateSelection(selected)]);
                    lemma_clean_chain(a, t0.model.actions, t1.model.actions);
                    lemma_select_step(t1, selected);
                    lemma_extends_chain(a, t1.model.actions, t.model.actions);
                    let x = t1.model.actions.skip(n);
                    let y = t.model.actions.skip(t1.model.actions.len() as int);
                    lemma_clean_emits(x, s.is_selected);
                    lemma_emits_concat(x, y, s.is_selected);
                },
                None => {
                    lemma_clean_emits(t.model.actions.skip(n), s.is_selected);
                },
            }
        },
        FrpInput::EnableFullscreen => {
            let t1 = after_select(s, true);
            lemma_select_step(s, true);
            lemma_model_clean(t1.model, false, (Seq::empty(), Seq::empty()), false);
            lemma_extends_chain(a, t1.model.actions, t.model.actions);
            let x = t1.model.actions.skip(n);
            let y = t.model.actions.skip(t1.model.actions.len() as int);
            lemma_clean_emits(y, true);
            lemma_emits_concat(x, y, s.is_selected);
        },
        FrpInput::DisableFullscreen => {
            let t1 = after_select(s, false);
            lemma_select_step(s, false);
            lemma_model_clean(t1.model, false, (Seq::empty(), Seq::empty()), false);
            lemma_extends_chain(a, t1.model.actions, t.model.actions);
            let x = t1.model.actions.skip(n);
            let y = t.model.actions.skip(t1.model.actions.len() as int);
            lemma_clean_emits(y, false);
            lemma_emits_concat(x, y, s.is_selected);
        },
        _ => {
            assert(clean_extension(t.model.actions, a)) by {
                match input {
                    FrpInput::SetVisibility(v) => {
                        lemma_model_clean(m, v, (Seq::empty(), Seq::empty()), false);
                        let r = after_set_visibility(m, v);
                        lemma_record_clean(r, seq![ContainerAction::OutputVisible(v)]);
                        lemma_clean_chain(a, r.actions, t.model.actions);
                    },
                    FrpInput::ToggleVisibility => {
                        lemma_model_clean(m, false, (Seq::empty(), Seq::empty()), false);
                        let r = after_toggle_visibility(m);
                        lemma_record_clean(r, seq![ContainerAction::OutputVisible(!m.view_visible)]);
                        lemma_clean_chain(a, r.actions, t.model.actions);
                    },
                    FrpInput::OutputVisInputType(_) => {
                        lemma_record_clean(
                            m,
                            seq![
                                ContainerAction::OutputVisInputType,
                                ContainerAction::ForwardInputTypeToChooser,
                            ],
                        );
                    },
                    FrpInput::SelectFromActionBar => {
                        lemma_record_clean(m, seq![ContainerAction::HideActionBarIcons]);
                    },
                    FrpInput::VisualizationSwitched(d, instantiated) => {
                        let m1 = match d {
                            Some(path) => if instantiated {
                                record(
                                    after_set_visualization(m, path),
                                    seq![ContainerAction::SelectInActionBar],
                                )
                            } else {
                                m
                            },
                            None => m,
                        };
                        match d {
                            Some(path) => if instantiated {
                                lemma_model_clean(m, false, path, false);
                                let r = after_set_visualization(m, path);
                                lemma_record_clean(r, seq![ContainerAction::SelectInActionBar]);
                                lemma_clean_chain(a, r.actions, m1.actions);
                            } else {
                                lemma_clean_refl(a);
                            },
                            None => {
                                lemma_clean_refl(a);
                            },
                        }
                        let m2 = record(m1, seq![ContainerAction::OutputVisualisation]);
                        lemma_record_clean(m1, seq![ContainerAction::OutputVisualisation]);
                        lemma_clean_chain(a, m1.actions, m2.actions);
                        lemma_model_clean(m2, false, (Seq::empty(), Seq::empty()), false);
                        lemma_clean_chain(a, m2.actions, t.model.actions);
                    },
                    FrpInput::SetData => {
                        lemma_model_clean(m, false, (Seq::empty(), Seq::empty()), false);
                        let r = after_set_visualization_data(m);
                        lemma_model_clean(r, false, (Seq::empty(), Seq::empty()), false);
                        lemma_clean_chain(a, r.actions, t.model.actions);
                    },
                    FrpInput::SetLayer => {
                        lemma_model_clean(m, false, (Seq::empty(), Seq::empty()), false);
                    },
                    _ => {
                        lemma_clean_refl(a);
                    },
                }
            }
            lemma_clean_emits(t.model.actions.skip(n), s.is_selected);
        },
    }
}

/// Over any sequence of inputs, `is_selected` is emitted only on a real
/// change: every emission differs from the value the output held just
/// before, and the output ends with the value last emitted.
pub proof fn lemma_is_selected_only_on_change(s: FrpState, inputs: Seq<FrpInput>)
    ensures
        extends(after_inputs(s, inputs).model.actions, s.model.actions),
        emits_only_changes(
            after_inputs(s, inputs).model.actions.skip(s.model.actions.len() as int),
            s.is_selected,
        ),
        selection_after(
            after_inputs(s, inputs).model.actions.skip(s.model.actions.len() as int),
            s.is_selected,
        ) == after_inputs(s, inputs).is_selected,
    decreases inputs.len(),
{
    let t = after_inputs(s, inputs);
    if inputs.len() == 0 {
        lemma_clean_refl(s.model.actions);
        lemma_clean_emits(Seq::<ContainerAction>::empty(), s.is_selected);
        assert(t.model.actions.skip(s.model.actions.len() as int) =~= Seq::<ContainerAction>::empty());
    } else {
        let s1 = after_input(s, inputs[0]);
        lemma_input_selection(s, inputs[0]);
        lemma_is_selected_only_on_change(s1, inputs.drop_first());
        lemma_extends_chain(s.model.actions, s1.model.actions, t.model.actions);
        let x = s1.model.actions.skip(s.model.actions.len() as int);
        let y = t.model.actions.skip(s1.model.actions.len() as int);
        lemma_emits_concat(x, y, s.is_selected);
    }
}

/// Whether the loading spinner is shown after the inputs, when it was
/// `shown` before: an emission of `visualisation` shows it, data hides it, and
/// no other input touches it.
pub open spec fn spinner_after_inputs(inputs: Seq<FrpInput>, shown: bool) -> bool
    decreases inputs.len(),
{
    if inputs.len() == 0 {
        shown
    } else {
        spinner_after_inputs(
            inputs.drop_first(),
            match inputs[0] {
                FrpInput::VisualizationSwitched(_, _) => true,
                FrpInput::SetData => false,
                _ => shown,
            },
        )
    }
}

/// Over any sequence of inputs, the loading spinner is shown exactly when no
/// data has arrived since the last `visualisation` output (a fresh container
/// shows it, as after such an output).
pub proof fn lemma_spinner_shown_until_data(s: FrpState, inputs: Seq<FrpInput>)
    ensures
        after_inputs(s, inputs).model.spinner_shown == spinner_after_inputs(
            inputs,
            s.model.spinner_shown,
        ),
    decreases inputs.len(),
{
    if inputs.len() > 0 {
        lemma_spinner_shown_until_data(after_input(s, inputs[0]), inputs.drop_first());
    }
}


/// A press on the container itself, when a visualization is set, activates
/// the visualization and selects the container, in fullscreen and out of it.
pub proof fn lemma_press_on_container_selects(s: FrpState)
    requires
        s.model.visualization is Some,
    ensures
        click_selection(s.model, true) == Some(true),
        after_click(s.model, true).actions == s.model.actions.push(
            ContainerAction::ActivateVisualization,
        ),
        after_input(s, FrpInput::MouseDown(true)).is_selected,
        after_input(s, FrpInput::MouseDown(true)).model.actions.contains(
            ContainerAction::ActivateVisualization,
        ),
{
    let n = s.model.actions.len();
    assert(after_click(s.model, true).actions =~= s.model.actions.push(
        ContainerAction::ActivateVisualization,
    ));
    let t = after_input(s, FrpInput::MouseDown(true));
    let t1 = record_frp(
        FrpState { model: after_click(s.model, true), ..s },
        seq![ContainerAction::AnimateSelection(true)],
    );
    assert(t1.model.actions[n as int] == ContainerAction::ActivateVisualization);
    lemma_select_step(t1, true);
    assert(t.model.actions.take(t1.model.actions.len() as int)[n as int]
        == ContainerAction::ActivateVisualization);
    assert(t.model.actions[n as int] == ContainerAction::ActivateVisualization);
}

/// A press elsewhere deselects a container that is not fullscreen and has a
/// visualization, and leaves a fullscreen one as it is.
pub proof fn lemma_press_elsewhere(s: FrpState)
    requires
        s.model.visualization is Some,
    ensures
        click_selection(s.model, false) == (if s.model.is_fullscreen {
            None
        } else {
            Some(false)
        }),
        !s.model.is_fullscreen ==> !after_input(s, FrpInput::MouseDown(false)).is_selected,
        s.model.is_fullscreen ==> after_input(s, FrpInput::MouseDown(false)).is_selected
            == s.is_selected,
{
}

/// Every request is remembered, none included: the request after it is
/// compared with exactly it.
pub proof fn lemma_switch_remembers_request(s: FrpState, d: Option<PathView>)
    ensures
        after_input(s, FrpInput::SwitchVisualization(d)).last_definition == Some(d),
{
}

/// Requesting `a`, then something else `b` (none included), then `a` again
/// reports the third request as a change: it is instantiated again.
pub proof fn lemma_switch_back_is_change(s: FrpState, a: Option<PathView>, b: Option<PathView>)
    requires
        a != b,
    ensures
        ({
            let s2 = after_input(
                after_input(s, FrpInput::SwitchVisualization(a)),
                FrpInput::SwitchVisualization(b),
            );
            &&& s2.last_definition != Some(a)
            &&& after_input(s2, FrpInput::SwitchVisualization(a)).pending_switch == Some(a)
        }),
{
}

/// Every input type that comes in is remembered, whether or not the container
/// is uninitialised.
pub proof fn lemma_input_type_remembered(s: FrpState, t: Option<Seq<char>>)
    ensures
        after_input(s, FrpInput::SetVisInputType(t)).last_input_type == Some(t),
{
}

/// Once the container is uninitialised, a type that differs from the one that
/// came in just before asks for its default visualization, whatever the
/// container was when that one came in; the same type again asks for nothing.
pub proof fn lemma_new_type_asks_for_default(
    s: FrpState,
    before: Option<Seq<char>>,
    t: Seq<char>,
)
    ensures
        ({
            let s2 = after_input(
                after_input(s, FrpInput::SetVisInputType(before)),
                FrpInput::SetVisualization(None),
            );
            &&& before != Some(t) ==> type_default_lookup(s2, Some(t)) == Some(t)
            &&& before == Some(t) ==> type_default_lookup(s2, Some(t)) is None
        }),
{
}

/// While the container is not uninitialised, no input type asks for a default.
pub proof fn lemma_initialised_asks_nothing(s: FrpState, t: Option<Seq<char>>)
    requires
        !s.uninitialised,
    ensures
        type_default_lookup(s, t) is None,
{
}

/// The `vis_input_type` output after emitting `t` is `t`, none included, and
/// cycling then goes through the visualizations valid for `t`, or for the type
/// of all values when `t` is none.
pub proof fn lemma_output_input_type(s: FrpState, t: Option<Seq<char>>, any_type: Seq<char>)
    ensures
        after_input(s, FrpInput::OutputVisInputType(t)).vis_input_type == t,
        cycle_type(after_input(s, FrpInput::OutputVisInputType(t)), any_type) == (match t {
            Some(x) => x,
            None => any_type,
        }),
{
}

/// Only `set_visualization` decides whether the container is uninitialised:
/// it is exactly when the visualization given is none, and no other input
/// changes it.
pub proof fn lemma_only_set_visualization_initialises(s: FrpState, input: FrpInput)
    ensures
        match input {
            FrpInput::SetVisualization(d) => after_input(s, input).uninitialised == (d is None),
            _ => after_input(s, input).uninitialised == s.uninitialised,
        },
{
}

/// Over a sequence of inputs without `set_visualization`, the container stays
/// as uninitialised as it was.
pub proof fn lemma_uninitialised_kept(s: FrpState, inputs: Seq<FrpInput>)
    requires
        forall|i: int| 0 <= i < inputs.len() ==> !(#[trigger] inputs[i] is SetVisualization),
    ensures
        after_inputs(s, inputs).uninitialised == s.uninitialised,
    decreases inputs.len(),
{
    if inputs.len() > 0 {
        lemma_only_set_visualization_initialises(s, inputs[0]);
        assert(!(inputs[0] is SetVisualization));
        let rest = inputs.drop_first();
        assert forall|i: int| 0 <= i < rest.len() implies !(#[trigger] rest[i] is SetVisualization) by {
            assert(rest[i] == inputs[i + 1]);
        }
        lemma_uninitialised_kept(after_input(s, inputs[0]), rest);
    }
}

} // verus!
