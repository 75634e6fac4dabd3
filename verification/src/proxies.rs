//! The Proxies page: the list, and the reading a test left on a row.
use crate::text::{decimal, join, joined, numbered, texts};
use crate::theme::Palette;
use vstd::prelude::*;

verus! {

/// What came back through a proxy that answered.
#[derive(Clone, Copy, PartialEq, Eq, Debug, Structural)]
pub struct Reading {
    /// Whether the engine probed was already carrying a profile's traffic,
    /// rather than started for the test.
    pub live: bool,
    pub elapsed_ms: u64,
}

/// The last test of one proxy.
pub enum ProxyTest {
    Running,
    Passed(Reading),
    /// The class of failure, in the engine's own words.
    Failed(String),
}

/// Whether a test is in flight.
pub open spec fn testing(test: Option<&ProxyTest>) -> bool {
    test matches Some(ProxyTest::Running)
}

/// A finished test is only recorded while the row still waits for it: a
/// proxy deleted or edited while the test ran describes an upstream that is
/// no longer the one on the row.
pub fn accept_test_result(current: Option<&ProxyTest>) -> (b: bool)
    ensures
        b == testing(current),
{
    match current {
        Some(ProxyTest::Running) => true,
        _ => false,
    }
}

/// The row's Test button: while a test is in flight it carries the loading
/// mark and cannot be pressed a second time.
#[derive(Clone, Copy, PartialEq, Eq, Debug, Structural)]
pub struct TestButton {
    pub loading: bool,
    pub enabled: bool,
}

pub fn test_button(current: Option<&ProxyTest>) -> (b: TestButton)
    ensures
        b.loading == testing(current),
        b.enabled == !testing(current),
{
    let running = accept_test_result(current);
    TestButton { loading: running, enabled: !running }
}

/// A text that is either the word for "not tested" or a sentence of its own.
pub enum CellText {
    Untested,
    Text(String),
    /// The help line that points at the fault's own words.
    FaultHelp(String),
}

/// What the test column shows under the row.
pub enum CellBody {
    /// Never tested: its own state, not a blank.
    Untested { colour: u32 },
    /// A test in flight, with a spinner.
    Running { colour: u32 },
    /// The address the traffic left from, and how long it took.
    Passed { colour: u32, elapsed_ms: u64 },
    /// Which class failed, and the way to the log that has the rest.
    Failed { colour: u32, diagnostics_id: String },
}

/// The last test of one proxy, as its row shows it.
pub struct TestCell {
    pub id: String,
    pub aria: CellText,
    pub hint: CellText,
    pub body: CellBody,
}

/// The announced name of a tested cell: the row's word for the result, then
/// the whole reading behind it when there is more to say.
pub open spec fn cell_aria(label: Seq<char>, detail: Option<Seq<char>>) -> Seq<char> {
    match detail {
        Some(d) => label + " - "@ + d,
        None => label,
    }
}

/// The text of an optional string.
pub open spec fn opt_text(d: Option<&str>) -> Option<Seq<char>> {
    match d {
        Some(s) => Some(s@),
        None => None,
    }
}

/// What the test column of proxy `id` shows for its last test: "not tested"
/// as a state of its own, dim; otherwise the result's word and the reading
/// behind it as what is announced, and, by what the test found, a spinner, the
/// pass with its time, or the failure with the way to the log.
pub open spec fn test_cell_of(
    c: TestCell,
    test: Option<&ProxyTest>,
    id: u64,
    label: Seq<char>,
    detail: Option<Seq<char>>,
    p: Palette,
) -> bool {
    &&& c.id@ == "proxy-test-"@ + decimal(id as nat)
    &&& test is None ==> (c.aria matches CellText::Untested && c.hint matches CellText::Untested
        && c.body matches CellBody::Untested { colour } && colour == p.dim)
    &&& test is Some ==> (c.aria matches CellText::Text(a) && a@ == cell_aria(label, detail))
    &&& test matches Some(ProxyTest::Failed(fault)) ==> (c.hint matches CellText::FaultHelp(h) && h@
        == fault@)
    &&& (test is Some && !(test matches Some(ProxyTest::Failed(_)))) ==> (c.hint matches CellText::Text(h)
        && h@ == cell_aria(label, detail))
    &&& test matches Some(ProxyTest::Running) ==> (c.body matches CellBody::Running { colour } && colour
        == p.info)
    &&& test matches Some(ProxyTest::Passed(r)) ==> (c.body matches CellBody::Passed { colour, elapsed_ms }
        && colour == (if r.live { p.success } else { p.info }) && elapsed_ms == r.elapsed_ms)
    &&& test matches Some(ProxyTest::Failed(_)) ==> (c.body matches CellBody::Failed {
        colour,
        diagnostics_id,
    } && colour == p.danger && diagnostics_id@ == "proxy-diagnostics-"@ + decimal(id as nat))
}

/// The result of the last test of one proxy, or the state of never having
/// run one. `label` and `detail` are the result's words in the language in
/// force; they are only read for a proxy that was tested.
pub fn proxy_test_cell(test: Option<&ProxyTest>, id: u64, label: &str, detail: Option<&str>, p: Palette) -> (c: TestCell)
    ensures
        test_cell_of(c, test, id, label@, opt_text(detail), p),
{
    let cell_id = numbered("proxy-test-", id);
    let test = match test {
        None => {
            return TestCell {
                id: cell_id,
                aria: CellText::Untested,
                hint: CellText::Untested,
                body: CellBody::Untested { colour: p.dim },
            };
        },
        Some(test) => test,
    };
    let mut aria = String::from_str(label);
    match detail {
        Some(d) => {
            aria.append(" - ");
            aria.append(d);
        },
        None => {},
    }
    let (hint, body) = match test {
        ProxyTest::Running => (CellText::Text(aria.clone()), CellBody::Running { colour: p.info }),
        ProxyTest::Passed(reading) => (
            CellText::Text(aria.clone()),
            CellBody::Passed { colour: if reading.live { p.success } else { p.info }, elapsed_ms: reading.elapsed_ms },
        ),
        ProxyTest::Failed(fault) => (
            CellText::FaultHelp(fault.clone()),
            CellBody::Failed { colour: p.danger, diagnostics_id: numbered("proxy-diagnostics-", id) },
        ),
    };
    TestCell { id: cell_id, aria: CellText::Text(aria), hint, body }
}

/// The one-line reading of the single-column list.
#[derive(Clone, Copy, PartialEq, Eq, Debug, Structural)]
pub enum ReadingSummary {
    /// The test is running.
    Running,
    /// The result, and which engine was probed.
    Passed { live: bool },
    /// The result, pointing at the log for the evidence.
    Failed,
}

/// The one-line reading of a proxy's last test, coloured by what it found:
/// dim while it runs, success through an engine already carrying a profile,
/// information through one started for the test, danger for a failure.
pub fn proxy_test_reading(test: Option<&ProxyTest>, p: Palette) -> (r: Option<(ReadingSummary, u32)>)
    ensures
        test is None ==> r is None,
        test matches Some(ProxyTest::Running) ==> r == Some((ReadingSummary::Running, p.dim)),
        test matches Some(ProxyTest::Passed(reading)) ==> r == Some((
            ReadingSummary::Passed { live: reading.live },
            if reading.live { p.success } else { p.info },
        )),
        test matches Some(ProxyTest::Failed(_)) ==> r == Some((ReadingSummary::Failed, p.danger)),
{
    match test {
        None => None,
        Some(ProxyTest::Running) => Some((ReadingSummary::Running, p.dim)),
        Some(ProxyTest::Passed(reading)) => Some((
            ReadingSummary::Passed { live: reading.live },
            if reading.live { p.success } else { p.info },
        )),
        Some(ProxyTest::Failed(_)) => Some((ReadingSummary::Failed, p.danger)),
    }
}

/// The usage column: a used proxy or core in the success colour, an unused
/// one muted.
pub fn usage_colour(used: bool, p: Palette) -> (c: u32)
    ensures
        c == (if used { p.success } else { p.muted }),
{
    if used { p.success } else { p.muted }
}

} // verus!

verus! {

/// Who is using a proxy or a core: the word for it (named when there is room
/// for one name, counted otherwise), every user on the hover, and the success
/// colour while anything uses it.
pub struct UsageCell {
    pub id: String,
    pub label: String,
    pub tooltip: String,
    pub colour: u32,
}

/// What a usage cell holds.
pub open spec fn usage_cell_of(c: UsageCell, id: Seq<char>, label: Seq<char>, used_by: Seq<String>, p: Palette) -> bool {
    &&& c.id@ == id
    &&& c.label@ == label
    &&& c.tooltip@ == joined(texts(used_by), ", "@)
    &&& c.colour == (if used_by.len() > 0 { p.success } else { p.muted })
}

pub fn usage_cell(id: String, label: String, used_by: &Vec<String>, p: Palette) -> (c: UsageCell)
    ensures
        usage_cell_of(c, id@, label@, used_by@, p),
{
    UsageCell { id, label, tooltip: join(used_by, ", "), colour: usage_colour(used_by.len() > 0, p) }
}

/// One proxy as the page lists it, with its last test and that test's words
/// in the language in force.
pub struct ProxyEntry {
    pub id: u64,
    pub name: String,
    /// What the proxy dials; it carries no credentials.
    pub endpoint: String,
    /// The profiles whose traffic leaves through it.
    pub used_by: Vec<String>,
    pub usage_label: String,
    pub test: Option<ProxyTest>,
    pub test_label: String,
    pub test_detail: Option<String>,
}

/// The endpoint column: what the proxy dials, muted.
pub struct EndpointCell {
    pub id: String,
    pub text: String,
    pub colour: u32,
}

/// One row of the Proxies list as it is painted.
pub struct ProxyRowView {
    pub id: String,
    pub name: String,
    pub endpoint: EndpointCell,
    pub usage: UsageCell,
    pub test: TestCell,
    pub test_button_id: String,
    pub test_button: TestButton,
    pub menu_id: String,
}

/// A test as a reference.
pub open spec fn test_ref<'a>(t: &'a Option<ProxyTest>) -> Option<&'a ProxyTest> {
    match t {
        Some(t) => Some(&t),
        None => None,
    }
}

/// A text as an optional sequence.
pub open spec fn opt_string(d: Option<String>) -> Option<Seq<char>> {
    match d {
        Some(s) => Some(s@),
        None => None,
    }
}

/// What the row at `index` holds for the proxy it stands for.
pub open spec fn proxy_row_of(v: ProxyRowView, e: ProxyEntry, index: int, p: Palette) -> bool {
    &&& v.id@ == "proxy-"@ + decimal(index as nat)
    &&& v.name@ == e.name@
    &&& v.endpoint.id@ == "proxy-endpoint-"@ + decimal(e.id as nat)
    &&& v.endpoint.text@ == e.endpoint@
    &&& v.endpoint.colour == p.muted
    &&& usage_cell_of(v.usage, "proxy-usage-"@ + decimal(e.id as nat), e.usage_label@, e.used_by@, p)
    &&& test_cell_of(v.test, test_ref(&e.test), e.id, e.test_label@, opt_string(e.test_detail), p)
    &&& v.test_button_id@ == "test-proxy-"@ + decimal(index as nat)
    &&& v.test_button.loading == testing(test_ref(&e.test))
    &&& v.test_button.enabled == !testing(test_ref(&e.test))
    &&& v.menu_id@ == "more-proxy-"@ + decimal(index as nat)
}

/// The Proxies list: one row per proxy, in the order given, addressed by
/// place; the cells are addressed by the proxy's own id.
pub fn proxy_list(rows: &Vec<ProxyEntry>, p: Palette) -> (views: Vec<ProxyRowView>)
    ensures
        views@.len() == rows@.len(),
        forall|i: int| 0 <= i < rows@.len() ==> proxy_row_of(#[trigger] views@[i], rows@[i], i, p),
{
    let mut views: Vec<ProxyRowView> = Vec::new();
    let mut i: usize = 0;
    while i < rows.len()
        invariant
            i <= rows@.len(),
            views@.len() == i,
            forall|j: int| 0 <= j < i ==> proxy_row_of(#[trigger] views@[j], rows@[j], j, p),
        decreases rows@.len() - i,
    {
        let e = &rows[i];
        let test: Option<&ProxyTest> = match &e.test {
            Some(t) => Some(t),
            None => None,
        };
        let detail: Option<&str> = match &e.test_detail {
            Some(d) => Some(d.as_str()),
            None => None,
        };
        let view = ProxyRowView {
            id: numbered("proxy-", i as u64),
            name: e.name.clone(),
            endpoint: EndpointCell {
                id: numbered("proxy-endpoint-", e.id),
                text: e.endpoint.clone(),
                colour: p.muted,
            },
            usage: usage_cell(numbered("proxy-usage-", e.id), e.usage_label.clone(), &e.used_by, p),
            test: proxy_test_cell(test, e.id, e.test_label.as_str(), detail, p),
            test_button_id: numbered("test-proxy-", i as u64),
            test_button: test_button(test),
            menu_id: numbered("more-proxy-", i as u64),
        };
        views.push(view);
        i = i + 1;
    }
    views
}

} // verus!
