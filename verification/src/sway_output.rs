//! The sway provider's output: the workspaces and outputs of the sway
//! session, its binding modes and the active one.
use vstd::prelude::*;

use crate::text::{optional_text, optional_texts_equal, text_views, texts_equal};

verus! {

/// A sway output (a monitor), carried through unread.
#[verifier::external_type_specification]
#[verifier::external_body]
pub struct ExOutput(swayipc_async::Output);

/// The bounds of a workspace.
#[derive(Debug, Clone, Copy, PartialEq, Eq, Structural)]
pub struct SwayRect {
    pub x: i32,
    pub y: i32,
    pub width: i32,
    pub height: i32,
}

/// A sway workspace, with the fields that sway reports for it.
#[derive(Debug, Clone)]
pub struct SwayWorkspace {
    pub id: i64,
    /// The workspace number, or -1 for a workspace whose name does not
    /// start with a number.
    pub num: i32,
    pub name: String,
    pub layout: String,
    /// Whether the workspace is visible on some output.
    pub visible: bool,
    /// Whether the workspace has the focus of the default seat.
    pub focused: bool,
    /// Whether a view on the workspace has the urgent flag set.
    pub urgent: bool,
    pub representation: Option<String>,
    pub orientation: String,
    pub rect: SwayRect,
    /// The name of the output the workspace is on.
    pub output: String,
    pub focus: Vec<i64>,
}

/// What a [`SwayWorkspace`] holds.
#[verifier::ext_equal]
pub struct SwayWorkspaceView {
    pub id: i64,
    pub num: i32,
    pub name: Seq<char>,
    pub layout: Seq<char>,
    pub visible: bool,
    pub focused: bool,
    pub urgent: bool,
    pub representation: Option<Seq<char>>,
    pub orientation: Seq<char>,
    pub rect: SwayRect,
    pub output: Seq<char>,
    pub focus: Seq<i64>,
}

impl View for SwayWorkspace {
    type V = SwayWorkspaceView;

    open spec fn view(&self) -> SwayWorkspaceView {
        SwayWorkspaceView {
            id: self.id,
            num: self.num,
            name: self.name@,
            layout: self.layout@,
            visible: self.visible,
            focused: self.focused,
            urgent: self.urgent,
            representation: optional_text(self.representation),
            orientation: self.orientation@,
            rect: self.rect,
            output: self.output@,
            focus: self.focus@,
        }
    }
}

/// Whether two workspaces agree on every field but the orientation.
pub open spec fn workspaces_match(a: SwayWorkspaceView, b: SwayWorkspaceView) -> bool {
    &&& a.id == b.id
    &&& a.num == b.num
    &&& a.name == b.name
    &&& a.layout == b.layout
    &&& a.visible == b.visible
    &&& a.focused == b.focused
    &&& a.urgent == b.urgent
    &&& a.representation == b.representation
    &&& a.rect == b.rect
    &&& a.output == b.output
    &&& a.focus == b.focus
}

/// Whether two lists of window ids are equal.
fn ids_equal(a: &Vec<i64>, b: &Vec<i64>) -> (res: bool)
    ensures
        res == (a@ == b@),
{
    if a.len() != b.len() {
        return false;
    }
    let n = a.len();
    let mut i: usize = 0;
    while i < n
        invariant
            n == a@.len(),
            n == b@.len(),
            i <= n,
            forall|j: int| 0 <= j < i ==> #[trigger] a@[j] == b@[j],
        decreases n - i,
    {
        if a[i] != b[i] {
            return false;
        }
        i = i + 1;
    }
    proof {
        assert(a@ =~= b@);
    }
    true
}

/// Whether two workspaces are the same, comparing every field but the
/// orientation.
pub fn workspace_eq(a: &SwayWorkspace, b: &SwayWorkspace) -> (res: bool)
    ensures
        res == workspaces_match(a@, b@),
{
    a.id == b.id && a.num == b.num && a.name == b.name && a.layout == b.layout && a.visible
        == b.visible && a.focused == b.focused && a.urgent == b.urgent && optional_texts_equal(
        &a.representation,
        &b.representation,
    ) && a.rect == b.rect && a.output == b.output && ids_equal(&a.focus, &b.focus)
}

/// Workspaces match pairwise as far as both lists go: the longer list's
/// extra workspaces are not compared.
pub open spec fn workspaces_match_pairwise(a: Seq<SwayWorkspaceView>, b: Seq<SwayWorkspaceView>) -> bool {
    forall|i: int| 0 <= i < a.len() && 0 <= i < b.len() ==> #[trigger] workspaces_match(a[i], b[i])
}

/// The views of a sequence of workspaces.
pub open spec fn workspace_views(workspaces: Seq<SwayWorkspace>) -> Seq<SwayWorkspaceView> {
    workspaces.map_values(|w: SwayWorkspace| w@)
}

/// The state of the sway session that the provider reports.
#[derive(Debug, Clone)]
pub struct SwayOutput {
    /// Workspaces across all monitors.
    pub all_workspaces: Vec<SwayWorkspace>,
    /// All monitors.
    pub all_outputs: Vec<swayipc_async::Output>,
    /// The available binding modes.
    pub binding_modes: Vec<String>,
    /// The active binding mode, if it has a name.
    pub active_binding_mode: Option<String>,
}

/// What a [`SwayOutput`] holds.
#[verifier::ext_equal]
pub struct SwayOutputView {
    pub all_workspaces: Seq<SwayWorkspaceView>,
    pub all_outputs: Seq<swayipc_async::Output>,
    pub binding_modes: Seq<Seq<char>>,
    pub active_binding_mode: Option<Seq<char>>,
}

impl View for SwayOutput {
    type V = SwayOutputView;

    open spec fn view(&self) -> SwayOutputView {
        SwayOutputView {
            all_workspaces: workspace_views(self.all_workspaces@),
            all_outputs: self.all_outputs@,
            binding_modes: text_views(self.binding_modes@),
            active_binding_mode: optional_text(self.active_binding_mode),
        }
    }
}

/// When two outputs count as equal: their workspaces match pairwise as far
/// as both lists go, and their binding modes and active binding mode are
/// equal. The monitors are not compared.
pub open spec fn sway_outputs_equal(a: SwayOutputView, b: SwayOutputView) -> bool {
    &&& workspaces_match_pairwise(a.all_workspaces, b.all_workspaces)
    &&& a.binding_modes == b.binding_modes
    &&& a.active_binding_mode == b.active_binding_mode
}

/// The active binding mode from the name sway reports: none for an empty
/// name.
pub open spec fn active_mode_of(binding_state: Seq<char>) -> Option<Seq<char>> {
    if binding_state.len() == 0 {
        None
    } else {
        Some(binding_state)
    }
}

impl SwayOutput {
    /// The output built from what sway reports: its workspaces, its
    /// monitors, its binding modes and the name of the current binding
    /// state, which counts as active only when it is not empty.
    pub fn new(
        all_workspaces: Vec<SwayWorkspace>,
        all_outputs: Vec<swayipc_async::Output>,
        binding_modes: Vec<String>,
        binding_state: String,
    ) -> (res: SwayOutput)
        ensures
            res@.all_workspaces == workspace_views(all_workspaces@),
            res@.all_outputs == all_outputs@,
            res@.binding_modes == text_views(binding_modes@),
            res@.active_binding_mode == active_mode_of(binding_state@),
    {
        let active_binding_mode = if binding_state.as_str().is_empty() {
            None
        } else {
            Some(binding_state)
        };
        SwayOutput { all_workspaces, all_outputs, binding_modes, active_binding_mode }
    }

    /// Whether the workspaces of two outputs match pairwise as far as both
    /// lists go.
    fn workspaces_eq(&self, other: &SwayOutput) -> (res: bool)
        ensures
            res == workspaces_match_pairwise(self@.all_workspaces, other@.all_workspaces),
    {
        let n = if self.all_workspaces.len() < other.all_workspaces.len() {
            self.all_workspaces.len()
        } else {
            other.all_workspaces.len()
        };
        let mut i: usize = 0;
        while i < n
            invariant
                n <= self@.all_workspaces.len(),
                n <= other@.all_workspaces.len(),
                n == self@.all_workspaces.len() || n == other@.all_workspaces.len(),
                i <= n,
                forall|j: int|
                    0 <= j < i ==> #[trigger] workspaces_match(
                        self@.all_workspaces[j],
                        other@.all_workspaces[j],
                    ),
            decreases n - i,
        {
            proof {
                assert(self@.all_workspaces[i as int] == self.all_workspaces@[i as int]@);
                assert(other@.all_workspaces[i as int] == other.all_workspaces@[i as int]@);
            }
            if !workspace_eq(&self.all_workspaces[i], &other.all_workspaces[i]) {
                return false;
            }
            i = i + 1;
        }
        true
    }
}

impl PartialEq for SwayOutput {
    fn eq(&self, other: &SwayOutput) -> (res: bool) {
        self.workspaces_eq(other) && texts_equal(&self.binding_modes, &other.binding_modes)
            && optional_texts_equal(&self.active_binding_mode, &other.active_binding_mode)
    }

    fn ne(&self, other: &SwayOutput) -> (res: bool) {
        !self.eq(other)
    }
}

impl vstd::std_specs::cmp::PartialEqSpecImpl for SwayOutput {
    open spec fn obeys_eq_spec() -> bool {
        true
    }

    open spec fn eq_spec(&self, other: &SwayOutput) -> bool {
        sway_outputs_equal(self@, other@)
    }
}

/// Every output equals itself, and equality does not depend on the order of
/// the two sides.
pub proof fn lemma_sway_output_eq_reflexive_symmetric(a: SwayOutputView, b: SwayOutputView)
    ensures
        sway_outputs_equal(a, a),
        sway_outputs_equal(a, b) == sway_outputs_equal(b, a),
{
    if workspaces_match_pairwise(a.all_workspaces, b.all_workspaces) {
        assert forall|i: int|
            0 <= i < b.all_workspaces.len() && 0 <= i < a.all_workspaces.len() implies #[trigger] workspaces_match(
            b.all_workspaces[i],
            a.all_workspaces[i],
        ) by {
            assert(workspaces_match(a.all_workspaces[i], b.all_workspaces[i]));
        }
    }
    if workspaces_match_pairwise(b.all_workspaces, a.all_workspaces) {
        assert forall|i: int|
            0 <= i < a.all_workspaces.len() && 0 <= i < b.all_workspaces.len() implies #[trigger] workspaces_match(
            a.all_workspaces[i],
            b.all_workspaces[i],
        ) by {
            assert(workspaces_match(b.all_workspaces[i], a.all_workspaces[i]));
        }
    }
}

/// Every workspace matches itself, and matching does not depend on the order
/// of the two sides.
pub proof fn lemma_workspace_eq_reflexive_symmetric(a: SwayWorkspaceView, b: SwayWorkspaceView)
    ensures
        workspaces_match(a, a),
        workspaces_match(a, b) == workspaces_match(b, a),
{
}

/// Two workspaces match exactly when they are equal in every field but the
/// orientation: a difference in any other field, the urgent flag included,
/// makes them differ.
pub proof fn lemma_workspaces_match_is_equality_but_orientation(
    a: SwayWorkspaceView,
    b: SwayWorkspaceView,
)
    ensures
        workspaces_match(a, b) <==> a == (SwayWorkspaceView { orientation: a.orientation, ..b }),
{
    if workspaces_match(a, b) {
        assert(a =~= (SwayWorkspaceView { orientation: a.orientation, ..b }));
    }
}

/// Two outputs are equal exactly when their binding modes and active mode
/// are equal and each workspace both have is equal in every field but the
/// orientation.
pub proof fn lemma_sway_outputs_equal_fields(a: SwayOutputView, b: SwayOutputView)
    ensures
        sway_outputs_equal(a, b) <==> {
            &&& a.binding_modes == b.binding_modes
            &&& a.active_binding_mode == b.active_binding_mode
            &&& forall|i: int|
                0 <= i < a.all_workspaces.len() && 0 <= i < b.all_workspaces.len()
                    ==> #[trigger] a.all_workspaces[i] == (SwayWorkspaceView {
                    orientation: a.all_workspaces[i].orientation,
                    ..b.all_workspaces[i]
                })
        },
{
    assert forall|i: int|
        0 <= i < a.all_workspaces.len() && 0 <= i < b.all_workspaces.len() implies (workspaces_match(
        #[trigger] a.all_workspaces[i],
        b.all_workspaces[i],
    ) <==> a.all_workspaces[i] == (SwayWorkspaceView {
        orientation: a.all_workspaces[i].orientation,
        ..b.all_workspaces[i]
    })) by {
        lemma_workspaces_match_is_equality_but_orientation(a.all_workspaces[i], b.all_workspaces[i]);
    }
}

} // verus!
