//! The reload pipeline, one settled cycle per watched artifact: the parse
//! result of the changed file either replaces the published document and
//! yields the reconciliation or broadcast work, or — on any load failure —
//! leaves the shared state untouched and yields a failure notice. The notice
//! is fire-and-forget: showing it can fail without affecting the outcome.

use vstd::prelude::*;
use vstd::string::StringExecFns;
use crate::broadcast::{style_broadcast_plan, BarEvent, BroadcastPlan};
use crate::events::Artifact;
use crate::model::{BarDef, ConfigDoc, LoadError, StyleDoc, unique_keys};
use crate::reconcile::{good_plan, reconcile, WindowAction};
use crate::state::{ConfigCell, StylesCell};

verus! {

/// The file a toast names for each artifact.
pub open spec fn artifact_filename(artifact: Artifact) -> Seq<char> {
    match artifact {
        Artifact::Config => "config.yaml"@,
        Artifact::Styles => "styles.css"@,
    }
}

/// The on-disk name of a watched artifact.
pub fn filename_of(artifact: Artifact) -> (name: &'static str)
    ensures
        name@ == artifact_filename(artifact),
{
    match artifact {
        Artifact::Config => "config.yaml",
        Artifact::Styles => "styles.css",
    }
}

/// The title of the toast shown after a successful reload, naming the file
/// that was applied.
pub fn success_title(artifact: Artifact) -> (title: String)
    ensures
        title@ == "Successfully updated bar(s) with "@ + artifact_filename(artifact),
{
    let mut title = String::from_str("Successfully updated bar(s) with ");
    title.append(filename_of(artifact));
    title
}

/// The body of the toast shown after a failed reload, directing the user to
/// the log file.
pub fn failure_body() -> (body: String)
    ensures
        body@ == "Failed to update bars due to error. Please check "@ + "yasb.log"@
            + " for details."@,
{
    let mut body = String::from_str("Failed to update bars due to error. Please check ");
    body.append("yasb.log");
    body.append(" for details.");
    body
}

/// The user-facing outcome of one settled reload cycle. A success names the
/// artifact that was applied; a failure carries the load error for the log.
#[derive(Debug)]
pub enum Notice {
    Success { artifact: Artifact, path: String },
    Failure { artifact: Artifact, path: String, error: LoadError },
}

/// What one settled configuration cycle hands back: the window actions to
/// issue and the notice to show.
pub struct ConfigOutcome {
    pub plan: Vec<WindowAction>,
    pub notice: Notice,
}

/// What one settled styles cycle hands back: the broadcast to deliver, if
/// the reload succeeded, and the notice to show.
pub struct StylesOutcome {
    pub broadcast: Option<BroadcastPlan>,
    pub notice: Notice,
}

/// The configuration published after a settled cycle with the given parse
/// result: the new document on success, the previous one on failure.
pub open spec fn config_after(current: ConfigDoc, parsed: Result<ConfigDoc, LoadError>) -> ConfigDoc {
    match parsed {
        Ok(doc) => doc,
        Err(_) => current,
    }
}

/// The stylesheet published after a settled cycle with the given parse
/// result.
pub open spec fn styles_after(current: StyleDoc, parsed: Result<StyleDoc, LoadError>) -> StyleDoc {
    match parsed {
        Ok(doc) => doc,
        Err(_) => current,
    }
}

/// Runs one settled change cycle for the configuration artifact. On a
/// successful parse the new document is published and the open windows are
/// reconciled against it; on a failed parse the shared state is left
/// untouched, no window action is issued, and a failure notice is returned.
///
/// Bar identities are derived from the configuration, so a well-formed
/// document carries distinct keys, and every open window was created by
/// this engine from such a document — hence the two premises.
pub fn process_config_event(
    cell: &mut ConfigCell,
    open_windows: &Vec<BarDef>,
    path: String,
    parsed: Result<ConfigDoc, LoadError>,
) -> (outcome: ConfigOutcome)
    requires
        unique_keys(open_windows@),
        parsed matches Ok(doc) ==> doc.wf(),
    ensures
        final(cell).snapshot() == config_after(old(cell).snapshot(), parsed),
        match parsed {
            Ok(doc) => good_plan(open_windows@, doc.bars@, outcome.plan@) && outcome.notice
                == (Notice::Success { artifact: Artifact::Config, path }),
            Err(error) => final(cell).snapshot() == old(cell).snapshot() && outcome.plan@
                == Seq::<WindowAction>::empty() && outcome.notice == (Notice::Failure {
                artifact: Artifact::Config,
                path,
                error,
            }),
        },
{
    match parsed {
        Ok(doc) => {
            let plan = reconcile(&doc.bars, open_windows);
            cell.replace_config(doc);
            ConfigOutcome { plan, notice: Notice::Success { artifact: Artifact::Config, path } }
        },
        Err(error) => {
            let plan: Vec<WindowAction> = Vec::new();
            assert(plan@ =~= Seq::<WindowAction>::empty());
            ConfigOutcome {
                plan,
                notice: Notice::Failure { artifact: Artifact::Config, path, error },
            }
        },
    }
}

/// Runs one settled change cycle for the styles artifact. On a successful
/// parse the new stylesheet is published and broadcast to every open window
/// exactly once; no window is created or destroyed either way. On a failed
/// parse the shared state is left untouched and a failure notice is
/// returned.
pub fn process_styles_event(
    cell: &mut StylesCell,
    open_windows: &Vec<BarDef>,
    path: String,
    parsed: Result<StyleDoc, LoadError>,
) -> (outcome: StylesOutcome)
    ensures
        final(cell).snapshot() == styles_after(old(cell).snapshot(), parsed),
        match parsed {
            Ok(doc) => outcome.broadcast matches Some(b) && b.event == BarEvent::StylesChanged
                && b.payload.css@ == doc.css@ && b.targets@.len() == open_windows@.len() && (
            forall|i: int|
                0 <= i < open_windows@.len() ==> b.targets@[i] == (
                #[trigger] open_windows@[i]).key) && outcome.notice == (Notice::Success {
                artifact: Artifact::Styles,
                path,
            }),
            Err(error) => final(cell).snapshot() == old(cell).snapshot() && outcome.broadcast
                is None && outcome.notice == (Notice::Failure {
                artifact: Artifact::Styles,
                path,
                error,
            }),
        },
{
    match parsed {
        Ok(doc) => {
            let plan = style_broadcast_plan(open_windows, &doc);
            cell.replace_styles(doc);
            StylesOutcome {
                broadcast: Some(plan),
                notice: Notice::Success { artifact: Artifact::Styles, path },
            }
        },
        Err(error) => StylesOutcome {
            broadcast: None,
            notice: Notice::Failure { artifact: Artifact::Styles, path, error },
        },
    }
}

/// The pair of published documents, configuration first.
pub open spec fn shared_after_config(
    state: (ConfigDoc, StyleDoc),
    parsed: Result<ConfigDoc, LoadError>,
) -> (ConfigDoc, StyleDoc) {
    (config_after(state.0, parsed), state.1)
}

/// The pair of published documents after a settled styles cycle.
pub open spec fn shared_after_styles(
    state: (ConfigDoc, StyleDoc),
    parsed: Result<StyleDoc, LoadError>,
) -> (ConfigDoc, StyleDoc) {
    (state.0, styles_after(state.1, parsed))
}

/// Law: a settled configuration cycle and a settled styles cycle write
/// disjoint cells of the shared state, so two concurrent cycles, one per
/// artifact, publish the same pair of documents whichever completes first.
pub proof fn lemma_cycles_commute(
    state: (ConfigDoc, StyleDoc),
    parsed_config: Result<ConfigDoc, LoadError>,
    parsed_styles: Result<StyleDoc, LoadError>,
)
    ensures
        shared_after_styles(shared_after_config(state, parsed_config), parsed_styles)
            == shared_after_config(shared_after_styles(state, parsed_styles), parsed_config),
{
}

} // verus!
