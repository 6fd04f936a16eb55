//! The steps that bring the application up, in the order they are taken.

use vstd::prelude::*;

verus! {

/// The plugin set a program is built with.
#[derive(Clone, Copy, Debug, PartialEq, Eq, Structural)]
pub enum Variant {
    /// No plugin.
    Plain,
    /// The native file-dialog plugin.
    WithDialog,
}

/// A plugin the runtime can be extended with.
#[derive(Clone, Copy, Debug, PartialEq, Eq, Structural)]
pub enum Plugin {
    /// Native open and save dialogs.
    Dialog,
}

/// One step of bringing the application up.
#[derive(Clone, Copy, Debug, PartialEq, Eq, Structural)]
pub enum Step {
    /// Register a plugin with the runtime.
    RegisterPlugin(Plugin),
    /// Install the table of commands offered to the rendered interface.
    InstallCommands,
    /// Initialise the runtime from what was registered. This is the step
    /// that can fail; the event loop is not started by it.
    Initialize,
    /// Run the event loop of the initialised runtime until it ends.
    Run,
}

/// The plugins of a variant, in registration order.
pub open spec fn plugins_of(variant: Variant) -> Seq<Plugin> {
    match variant {
        Variant::Plain => Seq::empty(),
        Variant::WithDialog => seq![Plugin::Dialog],
    }
}

/// The startup steps of a variant: its plugins, then the commands, then the
/// initialisation of the runtime, then the run.
pub open spec fn plan_of(variant: Variant) -> Seq<Step> {
    plugins_of(variant).map_values(|p: Plugin| Step::RegisterPlugin(p)) + seq![
        Step::InstallCommands,
        Step::Initialize,
        Step::Run,
    ]
}

/// The plugins that a variant registers, in registration order.
pub fn plugins(variant: Variant) -> (list: Vec<Plugin>)
    ensures
        list@ == plugins_of(variant),
{
    let mut list: Vec<Plugin> = Vec::new();
    match variant {
        Variant::Plain => {},
        Variant::WithDialog => {
            list.push(Plugin::Dialog);
        },
    }
    list
}

/// The startup steps of a variant, in the order they are taken.
pub fn startup_plan(variant: Variant) -> (steps: Vec<Step>)
    ensures
        steps@ == plan_of(variant),
{
    let list = plugins(variant);
    let mut steps: Vec<Step> = Vec::new();
    let mut i: usize = 0;
    while i < list.len()
        invariant
            i <= list.len(),
            list@ == plugins_of(variant),
            steps@ == list@.take(i as int).map_values(|p: Plugin| Step::RegisterPlugin(p)),
        decreases list.len() - i,
    {
        steps.push(Step::RegisterPlugin(list[i]));
        i += 1;
    }
    steps.push(Step::InstallCommands);
    steps.push(Step::Initialize);
    steps.push(Step::Run);
    steps
}

/// A plan is its plugins' registrations, each in its place, followed by the
/// installation of the commands, the initialisation and, last of all, the run.
pub proof fn lemma_plan_shape(variant: Variant)
    ensures
        ({
            let plan = plan_of(variant);
            let list = plugins_of(variant);
            let n = list.len() as int;
            &&& plan.len() == n + 3
            &&& forall|i: int| 0 <= i < n ==> #[trigger] plan[i] == Step::RegisterPlugin(list[i])
            &&& plan[n] == Step::InstallCommands
            &&& plan[n + 1] == Step::Initialize
            &&& plan[n + 2] == Step::Run
        }),
{
}

/// Wherever a plan registers a plugin, installs the commands, initialises
/// and runs, it does so in that order, and the run is its last step.
pub proof fn lemma_plan_order(variant: Variant, i: int, j: int, k: int, l: int)
    requires
        0 <= i < plan_of(variant).len(),
        0 <= j < plan_of(variant).len(),
        0 <= k < plan_of(variant).len(),
        0 <= l < plan_of(variant).len(),
        plan_of(variant)[i] is RegisterPlugin,
        plan_of(variant)[j] == Step::InstallCommands,
        plan_of(variant)[k] == Step::Initialize,
        plan_of(variant)[l] == Step::Run,
    ensures
        i < j < k < l,
        l == plan_of(variant).len() - 1,
{
    lemma_plan_shape(variant);
}

/// In a plan the commands are installed exactly once, the runtime is
/// initialised exactly once, and it runs exactly once.
pub proof fn lemma_plan_once(variant: Variant, i: int, j: int)
    requires
        0 <= i < plan_of(variant).len(),
        0 <= j < plan_of(variant).len(),
        plan_of(variant)[i] == plan_of(variant)[j],
        !(plan_of(variant)[i] is RegisterPlugin),
    ensures
        i == j,
        plan_of(variant).contains(Step::InstallCommands),
        plan_of(variant).contains(Step::Initialize),
        plan_of(variant).contains(Step::Run),
{
    lemma_plan_shape(variant);
    let n = plugins_of(variant).len() as int;
    assert(plan_of(variant)[n] == Step::InstallCommands);
    assert(plan_of(variant)[n + 1] == Step::Initialize);
    assert(plan_of(variant)[n + 2] == Step::Run);
}

/// The dialog plugin is registered by the variant that carries it and by no
/// other.
pub proof fn lemma_dialog_only_where_carried(variant: Variant)
    ensures
        plan_of(variant).contains(Step::RegisterPlugin(Plugin::Dialog)) <==> variant
            == Variant::WithDialog,
{
    lemma_plan_shape(variant);
    if variant == Variant::WithDialog {
        assert(plan_of(variant)[0] == Step::RegisterPlugin(Plugin::Dialog));
    }
}

} // verus!
