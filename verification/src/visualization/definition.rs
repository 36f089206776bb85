//! Visualization definitions as far as the container reads them, and the
//! order in which the container cycles through them.

use vstd::prelude::*;

verus! {

/// The abstract value of a visualization path: its project and its name.
pub type PathView = (Seq<char>, Seq<char>);

/// The path that identifies a visualization: the project that defines it and its name.
#[derive(Clone, Debug)]
pub struct Path {
    pub project: String,
    pub name: String,
}

impl View for Path {
    type V = PathView;

    open spec fn view(&self) -> PathView {
        (self.project@, self.name@)
    }
}

impl Path {
    /// A path with the given project and name.
    pub fn new(project: String, name: String) -> (path: Path)
        ensures
            path@ == (project@, name@),
    {
        Path { project, name }
    }

    /// Whether two paths name the same visualization.
    pub fn same_as(&self, other: &Path) -> (same: bool)
        ensures
            same == (self@ == other@),
    {
        self.project == other.project && self.name == other.name
    }

    /// A copy of this path.
    pub fn duplicate(&self) -> (copy: Path)
        ensures
            copy@ == self@,
    {
        Path { project: self.project.clone(), name: self.name.clone() }
    }
}

/// What the container reads of a visualization definition: the path in its signature.
#[derive(Clone, Debug)]
pub struct Definition {
    pub path: Path,
}

impl View for Definition {
    type V = PathView;

    open spec fn view(&self) -> PathView {
        self.path@
    }
}

impl Definition {
    /// The definition of the visualization with the given path.
    pub fn new(path: Path) -> (definition: Definition)
        ensures
            definition@ == path@,
    {
        Definition { path }
    }

    /// A copy of this definition.
    pub fn duplicate(&self) -> (copy: Definition)
        ensures
            copy@ == self@,
    {
        Definition { path: self.path.duplicate() }
    }
}

/// The abstract value of an optional definition.
pub open spec fn definition_view(d: Option<Definition>) -> Option<PathView> {
    match d {
        Some(d) => Some(d@),
        None => None,
    }
}

/// The abstract values of a list of definitions.
pub open spec fn definition_views(list: Seq<Definition>) -> Seq<PathView> {
    list.map_values(|d: Definition| d@)
}

/// A copy of an optional definition.
pub(crate) fn duplicate_option(d: &Option<Definition>) -> (copy: Option<Definition>)
    ensures
        definition_view(copy) == definition_view(*d),
{
    match d {
        Some(d) => Some(d.duplicate()),
        None => None,
    }
}

/// Whether two optional definitions name the same visualization.
pub(crate) fn same_definition(a: &Option<Definition>, b: &Option<Definition>) -> (same: bool)
    ensures
        same == (definition_view(*a) == definition_view(*b)),
{
    match (a, b) {
        (Some(a), Some(b)) => a.path.same_as(&b.path),
        (None, None) => true,
        _ => false,
    }
}

/// The visualization that follows `current` in `list`: the one after the
/// first entry with the same path, or the first entry of the list when
/// `current` is absent, not in the list, or in its last place.
pub open spec fn next_in_list(list: Seq<PathView>, current: Option<PathView>) -> Option<PathView> {
    if list.len() == 0 {
        None
    } else {
        match current {
            Some(p) => match list.index_of_first(p) {
                Some(k) => if k + 1 < list.len() {
                    Some(list[k + 1])
                } else {
                    Some(list[0])
                },
                None => Some(list[0]),
            },
            None => Some(list[0]),
        }
    }
}

/// The visualization to switch to when cycling from `current` through the
/// visualizations in `vis_list` (those valid for the input type).
pub fn next_visualization(current_vis: &Option<Definition>, vis_list: &Vec<Definition>) -> (next:
    Option<Definition>)
    ensures
        definition_view(next) == next_in_list(definition_views(vis_list@), definition_view(
            *current_vis,
        )),
{
    let ghost views = definition_views(vis_list@);
    if vis_list.len() == 0 {
        return None;
    }
    match current_vis {
        None => Some(vis_list[0].duplicate()),
        Some(vis) => {
            let ghost p = vis@;
            proof {
                views.index_of_first_ensures(p);
            }
            let mut k: usize = 0;
            while k < vis_list.len() && !vis.path.same_as(&vis_list[k].path)
                invariant
                    k <= vis_list@.len(),
                    views == definition_views(vis_list@),
                    p == vis@,
                    forall|j: int| 0 <= j < k ==> views[j] != p,
                decreases vis_list@.len() - k,
            {
                k = k + 1;
            }
            if k < vis_list.len() {
                proof {
                    assert(vis_list@[k as int]@ == p);
                    assert(views[k as int] == p);
                    assert(views.contains(p));
                    let i = views.index_of_first(p).unwrap();
                    assert(i == k);
                }
                if k + 1 < vis_list.len() {
                    Some(vis_list[k + 1].duplicate())
                } else {
                    Some(vis_list[0].duplicate())
                }
            } else {
                proof {
                    if views.contains(p) {
                        let j = choose|j: int| 0 <= j < views.len() && views[j] == p;
                        assert(views[j] == p);
                    }
                }
                Some(vis_list[0].duplicate())
            }
        },
    }
}

/// Cycling through a list of distinct visualizations moves from each entry to
/// the one after it, and from the last back to the first.
pub proof fn lemma_cycle_distinct(list: Seq<PathView>, i: int)
    requires
        0 <= i < list.len(),
        forall|j: int, k: int| 0 <= j < k < list.len() ==> list[j] != list[k],
    ensures
        next_in_list(list, Some(list[i])) == Some(list[(i + 1) % (list.len() as int)]),
{
    list.index_of_first_ensures(list[i]);
    let k = list.index_of_first(list[i]).unwrap();
    assert(k == i);
    let n = list.len() as int;
    if i + 1 < n {
        assert((i + 1) % n == i + 1) by (nonlinear_arith)
            requires
                0 <= i + 1 < n,
        ;
    } else {
        assert((i + 1) % n == 0) by (nonlinear_arith)
            requires
                i + 1 == n,
                n > 0,
        ;
    }
}

/// Cycling gives nothing exactly when there is nothing to cycle through, and
/// otherwise one of the offered visualizations.
pub proof fn lemma_cycle_member(list: Seq<PathView>, current: Option<PathView>)
    ensures
        next_in_list(list, current) is None <==> list.len() == 0,
        next_in_list(list, current) matches Some(p) ==> list.contains(p),
{
    if list.len() > 0 {
        if let Some(p) = current {
            list.index_of_first_ensures(p);
        }
        let n = next_in_list(list, current).unwrap();
        if n == list[0] {
            assert(list.contains(n));
        } else {
            let k = list.index_of_first(current.unwrap()).unwrap();
            assert(list[k + 1] == n);
            assert(list.contains(n));
        }
    }
}

} // verus!
