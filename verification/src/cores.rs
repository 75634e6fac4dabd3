//! The Browser Cores page: which cores are registered and what each binary is.
use crate::components::{is_badge, status_badge, Badge, Tone, ROW_HEIGHT};
use crate::proxies::{usage_cell, usage_cell_of, UsageCell};
use crate::text::{blank, decimal, is_blank, numbered};
use crate::theme::Palette;
use vstd::prelude::*;

verus! {

/// The version a core's binary answered, or the word for "unknown" when it
/// answered nothing but white space - in the warning colour.
pub struct VersionCell {
    pub id: String,
    /// `None` shows the word for an unknown version.
    pub label: Option<String>,
    pub colour: u32,
}

pub fn version_cell(id: u64, version: &str, p: Palette) -> (c: VersionCell)
    ensures
        c.id@ == "core-version-"@ + decimal(id as nat),
        !is_blank(version@) ==> (c.label matches Some(l) && l@ == version@ && c.colour == p.text_soft),
        is_blank(version@) ==> (c.label is None && c.colour == p.warning),
{
    let known = !blank(version);
    VersionCell {
        id: numbered("core-version-", id),
        label: if known { Some(String::from_str(version)) } else { None },
        colour: if known { p.text_soft } else { p.warning },
    }
}

/// Which switch generation a core belongs to, and whether it honours the
/// spoofing exclusions.
pub enum Compatibility {
    Generation { generation: String, honoured: bool },
    /// No version could be read.
    NoVersion,
}

/// The compatibility column: drawn from the capability table rather than
/// from any language's words for it - success when the exclusions are
/// honoured, a warning when they are not, danger when nothing was read.
pub fn compatibility_cell(parts: Option<(String, bool)>, p: Palette) -> (r: (Compatibility, u32))
    ensures
        match (parts, r.0) {
            (Some((g, h)), Compatibility::Generation { generation, honoured }) => generation@ == g@
                && honoured == h && r.1 == (if h { p.success } else { p.warning }),
            (None, Compatibility::NoVersion) => r.1 == p.danger,
            _ => false,
        },
{
    match parts {
        Some((generation, honoured)) => (
            Compatibility::Generation { generation, honoured },
            if honoured { p.success } else { p.warning },
        ),
        None => (Compatibility::NoVersion, p.danger),
    }
}

/// The label beside a core's name when its binary is gone: a reason a launch
/// is refused, so a danger badge rather than a shade of grey.
pub fn missing_badge(id: u64, present: bool, label: &str, p: Palette) -> (b: Option<Badge>)
    ensures
        present ==> b is None,
        !present ==> (b matches Some(b) && is_badge(b, "core-missing-"@ + decimal(id as nat),
            Tone::Danger, label@, label@, p)),
{
    if present {
        None
    } else {
        Some(status_badge(numbered("core-missing-", id), Tone::Danger, String::from_str(label), String::from_str(label), p))
    }
}

/// How a core row is laid out.
#[derive(Clone, Copy, PartialEq, Eq, Debug, Structural)]
pub struct CoreLayout {
    pub min_height: u32,
    /// Whether version and usage sit under the name instead of in columns.
    pub metadata_under_name: bool,
}

/// A narrow window puts the version and the usage under the name, in a taller
/// row, instead of squeezing the name away or pushing the controls off.
pub fn core_layout(compact: bool) -> (l: CoreLayout)
    ensures
        l.metadata_under_name == compact,
        l.min_height == (if compact { 112 } else { ROW_HEIGHT }),
{
    CoreLayout { min_height: if compact { 112 } else { ROW_HEIGHT }, metadata_under_name: compact }
}

/// What saving the core form asks for.
#[derive(Clone, Copy, PartialEq, Eq, Debug, Structural)]
pub enum CorePlan {
    /// Store the edited core.
    Update,
    /// Register a new binary, which the service probes for its version.
    Add,
    /// A new core with no executable path is refused in the form.
    RefuseEmptyPath,
}

pub fn core_plan(editing: bool, path_empty: bool) -> (r: CorePlan)
    ensures
        r == (if editing {
            CorePlan::Update
        } else if path_empty {
            CorePlan::RefuseEmptyPath
        } else {
            CorePlan::Add
        }),
{
    if editing {
        CorePlan::Update
    } else if path_empty {
        CorePlan::RefuseEmptyPath
    } else {
        CorePlan::Add
    }
}

} // verus!

verus! {

/// One core as the page lists it, with the words its cells need in the
/// language in force.
pub struct CoreEntry {
    pub id: u64,
    pub name: String,
    /// Where its executable is.
    pub path: String,
    /// Whether the executable is still there.
    pub present: bool,
    /// What the binary answered when asked for its version.
    pub version: String,
    /// The switch generation and whether it honours the exclusions, when a
    /// version could be read.
    pub compatibility: Option<(String, bool)>,
    /// The profiles launched with it.
    pub used_by: Vec<String>,
    pub usage_label: String,
    /// The word for a missing executable.
    pub missing_label: String,
}

/// A core's executable path under its name, muted, with the button that
/// copies it.
pub struct PathLine {
    pub id: String,
    pub text: String,
    pub colour: u32,
    pub copy_id: String,
}

/// One row of the Cores list as it is painted.
pub struct CoreRowView {
    pub id: String,
    pub layout: CoreLayout,
    pub name_id: String,
    pub name: String,
    pub missing: Option<Badge>,
    pub path: PathLine,
    pub version: VersionCell,
    pub compatibility_id: String,
    pub compatibility: (Compatibility, u32),
    pub usage: UsageCell,
    pub redetect_id: String,
    pub menu_id: String,
}

/// What the row at `index` holds for the core it stands for.
pub open spec fn core_row_of(v: CoreRowView, e: CoreEntry, index: int, compact: bool, p: Palette) -> bool {
    &&& v.id@ == "core-"@ + decimal(index as nat)
    &&& v.layout.metadata_under_name == compact
    &&& v.layout.min_height == (if compact { 112 } else { ROW_HEIGHT })
    &&& v.name_id@ == "core-name-"@ + decimal(e.id as nat)
    &&& v.name@ == e.name@
    &&& (if e.present {
        v.missing is None
    } else {
        v.missing matches Some(b) && is_badge(b, "core-missing-"@ + decimal(e.id as nat), Tone::Danger,
            e.missing_label@, e.missing_label@, p)
    })
    &&& v.path.id@ == "core-path-"@ + decimal(index as nat)
    &&& v.path.text@ == e.path@
    &&& v.path.colour == p.muted
    &&& v.path.copy_id@ == "copy-core-path-"@ + decimal(index as nat)
    &&& v.version.id@ == "core-version-"@ + decimal(e.id as nat)
    &&& (!is_blank(e.version@) ==> (v.version.label matches Some(l) && l@ == e.version@ && v.version.colour
        == p.text_soft))
    &&& (is_blank(e.version@) ==> (v.version.label is None && v.version.colour == p.warning))
    &&& v.compatibility_id@ == "core-compatibility-"@ + decimal(e.id as nat)
    &&& match (e.compatibility, v.compatibility.0) {
        (Some((g, h)), Compatibility::Generation { generation, honoured }) => generation@ == g@ && honoured
            == h && v.compatibility.1 == (if h { p.success } else { p.warning }),
        (None, Compatibility::NoVersion) => v.compatibility.1 == p.danger,
        _ => false,
    }
    &&& usage_cell_of(v.usage, "core-usage-"@ + decimal(e.id as nat), e.usage_label@, e.used_by@, p)
    &&& v.redetect_id@ == "redetect-core-"@ + decimal(index as nat)
    &&& v.menu_id@ == "more-core-"@ + decimal(index as nat)
}

/// The Cores list: one row per core, in the order given, addressed by
/// place; the cells are addressed by the core's own id.
pub fn core_list(rows: &Vec<CoreEntry>, compact: bool, p: Palette) -> (views: Vec<CoreRowView>)
    ensures
        views@.len() == rows@.len(),
        forall|i: int| 0 <= i < rows@.len() ==> core_row_of(#[trigger] views@[i], rows@[i], i, compact, p),
{
    let mut views: Vec<CoreRowView> = Vec::new();
    let mut i: usize = 0;
    while i < rows.len()
        invariant
            i <= rows@.len(),
            views@.len() == i,
            forall|j: int| 0 <= j < i ==> core_row_of(#[trigger] views@[j], rows@[j], j, compact, p),
        decreases rows@.len() - i,
    {
        let e = &rows[i];
        let parts: Option<(String, bool)> = match &e.compatibility {
            Some((g, h)) => Some((g.clone(), *h)),
            None => None,
        };
        let view = CoreRowView {
            id: numbered("core-", i as u64),
            layout: core_layout(compact),
            name_id: numbered("core-name-", e.id),
            name: e.name.clone(),
            missing: missing_badge(e.id, e.present, e.missing_label.as_str(), p),
            path: PathLine {
                id: numbered("core-path-", i as u64),
                text: e.path.clone(),
                colour: p.muted,
                copy_id: numbered("copy-core-path-", i as u64),
            },
            version: version_cell(e.id, e.version.as_str(), p),
            compatibility_id: numbered("core-compatibility-", e.id),
            compatibility: compatibility_cell(parts, p),
            usage: usage_cell(numbered("core-usage-", e.id), e.usage_label.clone(), &e.used_by, p),
            redetect_id: numbered("redetect-core-", i as u64),
            menu_id: numbered("more-core-", i as u64),
        };
        views.push(view);
        i = i + 1;
    }
    views
}

} // verus!
