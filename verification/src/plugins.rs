//! Installing plugins on servers and switching them on and off.

use crate::text::{appended, ends_in, ends_with, texts};
use crate::validation::{derive_plugins_dir, join, joined, plugins_dir_of};
use vstd::prelude::*;
use vstd::string::StrSliceExecFns;

verus! {

/// What the name of a plugin's folder ends in while the plugin is switched off.
pub const DISABLED_SUFFIX: &'static str = "_OFF";

/// The name given to a plugin whose folder has no name that can be read.
pub const UNKNOWN_NAME: &'static str = "Unknown";

/// A plugin that can be installed: a folder in the source directory.
#[derive(Debug)]
pub struct SourcePlugin {
    pub name: String,
    pub path: String,
}

/// A server that plugins can be installed on.
#[derive(Debug)]
pub struct DestinationServer {
    pub name: String,
    pub path: String,
    pub plugin_path: String,
}

/// What an installation did.
#[derive(Debug)]
pub struct InstallResult {
    pub files_copied: usize,
    pub files_overwritten: usize,
    pub errors: Vec<String>,
}

/// A plugin folder that was asked to be installed, as it was found on disk.
#[derive(Debug)]
pub struct PluginSource {
    pub path: String,
    /// The last segment of the path; `None` where the path has none that can be read.
    pub name: Option<String>,
    pub exists: bool,
}

/// One step of an installation.
#[derive(Debug)]
pub enum InstallStep {
    /// The source folder is missing; nothing is copied from it.
    Missing { source: String },
    /// Copy the folder `source`, with all below it, to the folder `target`, which lies in
    /// the plugins directory `destination`.
    Copy { plugin_name: String, source: String, destination: String, target: String },
}

/// How one step of an installation went.
#[derive(Debug)]
pub enum CopyReport {
    SourceMissing { source: String },
    Copied { files_copied: usize, files_overwritten: usize },
    Failed { plugin_name: String, destination: String, error: String },
}

/// A step as plain values.
pub enum InstallStepView {
    Missing { source: Seq<char> },
    Copy { plugin_name: Seq<char>, source: Seq<char>, destination: Seq<char>, target: Seq<char> },
}

impl View for InstallStep {
    type V = InstallStepView;

    open spec fn view(&self) -> InstallStepView {
        match self {
            InstallStep::Missing { source } => InstallStepView::Missing { source: source@ },
            InstallStep::Copy { plugin_name, source, destination, target } => InstallStepView::Copy {
                plugin_name: plugin_name@,
                source: source@,
                destination: destination@,
                target: target@,
            },
        }
    }
}

/// The views of a sequence of steps.
pub open spec fn step_views(steps: Seq<InstallStep>) -> Seq<InstallStepView> {
    steps.map_values(|step: InstallStep| step@)
}

/// The name under which a source is installed.
pub open spec fn installed_name(source: PluginSource) -> Seq<char> {
    match source.name {
        Some(name) => name@,
        None => UNKNOWN_NAME@,
    }
}

/// The copy of one source to one destination.
pub open spec fn copy_step(source: PluginSource, destination: Seq<char>) -> InstallStepView {
    InstallStepView::Copy {
        plugin_name: installed_name(source),
        source: source.path@,
        destination,
        target: joined(destination, installed_name(source)),
    }
}

/// The steps for one source: one copy for each destination, in their order, or the one
/// finding that the source is missing.
pub open spec fn steps_of_source(source: PluginSource, destinations: Seq<String>) -> Seq<
    InstallStepView,
> {
    if source.exists {
        Seq::new(destinations.len(), |k: int| copy_step(source, destinations[k]@))
    } else {
        seq![InstallStepView::Missing { source: source.path@ }]
    }
}

/// The steps of an installation: those of each source, in the sources' order.
pub open spec fn install_steps(sources: Seq<PluginSource>, destinations: Seq<String>) -> Seq<
    InstallStepView,
>
    decreases sources.len(),
{
    if sources.len() == 0 {
        Seq::empty()
    } else {
        install_steps(sources.drop_last(), destinations) + steps_of_source(
            sources.last(),
            destinations,
        )
    }
}

/// The number of files that the reports say were copied anew.
pub open spec fn copied_total(reports: Seq<CopyReport>) -> nat
    decreases reports.len(),
{
    if reports.len() == 0 {
        0
    } else {
        copied_total(reports.drop_last()) + match reports.last() {
            CopyReport::Copied { files_copied, .. } => files_copied as nat,
            _ => 0,
        }
    }
}

/// The number of files that the reports say were written over.
pub open spec fn overwritten_total(reports: Seq<CopyReport>) -> nat
    decreases reports.len(),
{
    if reports.len() == 0 {
        0
    } else {
        overwritten_total(reports.drop_last()) + match reports.last() {
            CopyReport::Copied { files_overwritten, .. } => files_overwritten as nat,
            _ => 0,
        }
    }
}

/// The text of the error that a report stands for, if it stands for one.
pub open spec fn report_error(report: CopyReport) -> Option<Seq<char>> {
    match report {
        CopyReport::SourceMissing { source } => Some("Source plugin not found: "@ + source@),
        CopyReport::Copied { .. } => None,
        CopyReport::Failed { plugin_name, destination, error } => Some(
            "Failed to copy "@ + plugin_name@ + " to "@ + destination@ + ": "@ + error@,
        ),
    }
}

/// The errors that the reports stand for, in the reports' order.
pub open spec fn reported_errors(reports: Seq<CopyReport>) -> Seq<Seq<char>>
    decreases reports.len(),
{
    if reports.len() == 0 {
        Seq::empty()
    } else {
        let earlier = reported_errors(reports.drop_last());
        match report_error(reports.last()) {
            Some(text) => earlier.push(text),
            None => earlier,
        }
    }
}

/// Whether the name of a plugin's folder says that the plugin is switched off.
pub open spec fn is_disabled(name: Seq<char>) -> bool {
    ends_in(name, DISABLED_SUFFIX@)
}

/// The name of a plugin's folder without the mark of being switched off.
pub open spec fn base_name_of(name: Seq<char>) -> Seq<char> {
    if is_disabled(name) {
        name.subrange(0, name.len() - DISABLED_SUFFIX@.len())
    } else {
        name
    }
}

/// The name of a plugin's folder after the plugin was switched: off if it was on, on if it
/// was off.
pub open spec fn toggled(name: Seq<char>) -> Seq<char> {
    if is_disabled(name) {
        base_name_of(name)
    } else {
        name + DISABLED_SUFFIX@
    }
}

/// The name that a plugin's folder has in the wanted state.
pub open spec fn wanted_name(base: Seq<char>, disabled: bool) -> Seq<char> {
    if disabled {
        base + DISABLED_SUFFIX@
    } else {
        base
    }
}

/// Switching a plugin twice gives its folder the name it had, unless the name bore the
/// mark twice over.
pub proof fn lemma_toggled_twice(name: Seq<char>)
    requires
        !is_disabled(base_name_of(name)),
    ensures
        toggled(toggled(name)) == name,
        is_disabled(toggled(name)) != is_disabled(name),
{
    let mark = DISABLED_SUFFIX@;
    if is_disabled(name) {
        let base = base_name_of(name);
        assert(base + mark =~= name);
    } else {
        let off = name + mark;
        assert(off.subrange(off.len() - mark.len(), off.len() as int) =~= mark);
        assert(off.subrange(0, off.len() - mark.len()) =~= name);
    }
}

/// The steps of an installation of `sources` on `destinations`: for each source that
/// exists, one copy into each destination's plugins directory, into a folder of the
/// source's name.
pub fn plan_install(sources: &Vec<PluginSource>, destinations: &Vec<String>) -> (steps: Vec<
    InstallStep,
>)
    ensures
        step_views(steps@) == install_steps(sources@, destinations@),
{
    let mut steps: Vec<InstallStep> = Vec::new();
    let mut i: usize = 0;
    while i < sources.len()
        invariant
            i <= sources.len(),
            step_views(steps@) == install_steps(sources@.take(i as int), destinations@),
        decreases sources.len() - i,
    {
        let source = &sources[i];
        let ghost before = step_views(steps@);
        proof {
            assert(sources@.take(i + 1).drop_last() =~= sources@.take(i as int));
        }
        if !source.exists {
            steps.push(InstallStep::Missing { source: source.path.clone() });
        } else {
            let mut k: usize = 0;
            while k < destinations.len()
                invariant
                    k <= destinations.len(),
                    source.exists,
                    step_views(steps@) == before + steps_of_source(*source, destinations@).take(
                        k as int,
                    ),
                decreases destinations.len() - k,
            {
                let plugin_name = match &source.name {
                    Some(name) => name.clone(),
                    None => UNKNOWN_NAME.to_owned(),
                };
                let target = join(destinations[k].as_str(), plugin_name.as_str());
                let ghost so_far = step_views(steps@);
                steps.push(
                    InstallStep::Copy {
                        plugin_name,
                        source: source.path.clone(),
                        destination: destinations[k].clone(),
                        target,
                    },
                );
                proof {
                    let all = steps_of_source(*source, destinations@);
                    assert(step_views(steps@) =~= so_far.push(all[k as int]));
                }
                k += 1;
            }
        }
        i += 1;
    }
    proof {
        assert(sources@.take(i as int) =~= sources@);
    }
    steps
}

/// What an installation did, from how its steps went: the files copied anew and written
/// over, summed up, and an error for every missing source and every copy that failed, in
/// the order of the steps.
pub fn install_plugins(reports: &Vec<CopyReport>) -> (r: InstallResult)
    requires
        copied_total(reports@) <= usize::MAX,
        overwritten_total(reports@) <= usize::MAX,
    ensures
        r.files_copied == copied_total(reports@),
        r.files_overwritten == overwritten_total(reports@),
        texts(r.errors@) == reported_errors(reports@),
{
    let mut files_copied: usize = 0;
    let mut files_overwritten: usize = 0;
    let mut errors: Vec<String> = Vec::new();
    let mut i: usize = 0;
    while i < reports.len()
        invariant
            i <= reports.len(),
            copied_total(reports@) <= usize::MAX,
            overwritten_total(reports@) <= usize::MAX,
            files_copied == copied_total(reports@.take(i as int)),
            files_overwritten == overwritten_total(reports@.take(i as int)),
            texts(errors@) == reported_errors(reports@.take(i as int)),
        decreases reports.len() - i,
    {
        proof {
            assert(reports@.take(i + 1).drop_last() =~= reports@.take(i as int));
            lemma_totals_grow(reports@, i + 1);
        }
        match &reports[i] {
            CopyReport::SourceMissing { source } => {
                errors.push(appended("Source plugin not found: ", source.as_str()));
            },
            CopyReport::Copied { files_copied: copied, files_overwritten: overwritten } => {
                files_copied = files_copied + *copied;
                files_overwritten = files_overwritten + *overwritten;
            },
            CopyReport::Failed { plugin_name, destination, error } => {
                let a = appended("Failed to copy ", plugin_name.as_str());
                let b = appended(a.as_str(), " to ");
                let c = appended(b.as_str(), destination.as_str());
                let d = appended(c.as_str(), ": ");
                errors.push(appended(d.as_str(), error.as_str()));
            },
        }
        i += 1;
    }
    proof {
        assert(reports@.take(i as int) =~= reports@);
    }
    InstallResult { files_copied, files_overwritten, errors }
}

/// The totals of the first reports are no larger than the totals of all.
pub proof fn lemma_totals_grow(reports: Seq<CopyReport>, n: int)
    requires
        0 <= n <= reports.len(),
    ensures
        copied_total(reports.take(n)) <= copied_total(reports),
        overwritten_total(reports.take(n)) <= overwritten_total(reports),
    decreases reports.len() - n,
{
    if n == reports.len() {
        assert(reports.take(n) =~= reports);
    } else {
        lemma_totals_grow(reports, n + 1);
        assert(reports.take(n + 1).drop_last() =~= reports.take(n));
    }
}

/// The server that lies in the folder `path`, with its plugins directory.
pub fn destination_server(name: String, path: String) -> (r: DestinationServer)
    ensures
        r.name@ == name@,
        r.path@ == path@,
        r.plugin_path@ == plugins_dir_of(path@),
{
    let plugin_path = derive_plugins_dir(path.as_str());
    DestinationServer { name, path, plugin_path }
}

/// Whether the name of a plugin's folder says that the plugin is switched off.
pub fn is_disabled_folder(name: &str) -> (r: bool)
    ensures
        r == is_disabled(name@),
{
    ends_with(name, DISABLED_SUFFIX)
}

/// The name of a plugin's folder without the mark of being switched off.
pub fn base_folder_name(name: &str) -> (r: String)
    ensures
        r@ == base_name_of(name@),
{
    if is_disabled_folder(name) {
        proof {
            reveal_strlit("_OFF");
        }
        let n = name.unicode_len();
        name.substring_char(0, n - 4).to_owned()
    } else {
        name.to_owned()
    }
}

/// The name of a plugin's folder after the plugin was switched.
pub fn toggled_folder_name(name: &str) -> (r: String)
    ensures
        r@ == toggled(name@),
{
    if is_disabled_folder(name) {
        base_folder_name(name)
    } else {
        appended(name, DISABLED_SUFFIX)
    }
}

/// How the folder of the plugin `base` is renamed to bring it into the wanted state, given
/// which of its two names exist: from the first name to the second. `None` where the folder
/// bears the wanted name already, or the plugin has no folder.
pub fn toggle_rename(base: &str, disabled: bool, plain_exists: bool, off_exists: bool) -> (r:
    Option<(String, String)>)
    ensures
        match r {
            Some((from, to)) => {
                &&& from@ == wanted_name(base@, !disabled)
                &&& to@ == wanted_name(base@, disabled)
                &&& if disabled {
                    plain_exists && !off_exists
                } else {
                    off_exists && !plain_exists
                }
            },
            None => if disabled {
                off_exists || !plain_exists
            } else {
                plain_exists || !off_exists
            },
        },
{
    let off = appended(base, DISABLED_SUFFIX);
    if disabled {
        if off_exists || !plain_exists {
            None
        } else {
            Some((base.to_owned(), off))
        }
    } else {
        if plain_exists || !off_exists {
            None
        } else {
            Some((off, base.to_owned()))
        }
    }
}

} // verus!
