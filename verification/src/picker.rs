//! The two-level model picker (model first, then quant) and the model switch
//! that it drives: what each list shows, which quant is selected first, and
//! how the switch reacts to each status report of the supervisor.
use vstd::prelude::*;

use crate::text::{
    chars_of, concat2, concat3, decimal, decimal_string, has_visible_text, join, join_strings,
    str_eq, to_owned, trim, trim_end_char, trim_end_char_seq, trim_seq,
};

verus! {

/// One model of the catalog.
#[derive(Debug)]
pub struct LocalcodeGroup {
    pub key: String,
    pub display_name: String,
    pub maker: String,
    pub license: String,
    pub recommended: bool,
    pub current: bool,
}

/// The catalog: every model, and the machine's memory in GB.
#[derive(Debug)]
pub struct LocalcodeCatalog {
    pub ram_gb: u64,
    pub current: Option<String>,
    pub groups: Vec<LocalcodeGroup>,
}

/// One quant of a model. `size_gb` is its size in GB rendered with one decimal.
#[derive(Debug)]
pub struct LocalcodeQuant {
    pub filename: String,
    pub alias: String,
    pub label: String,
    pub size_gb: String,
    pub fit: String,
    pub tok_s: Option<u64>,
    pub recommended: bool,
    pub downloaded: bool,
    pub current: bool,
}

/// Every quant that the repository of a model ships.
#[derive(Debug)]
pub struct LocalcodeQuants {
    pub group: String,
    pub display_name: String,
    pub maker: String,
    pub license: String,
    pub ram_gb: u64,
    pub quants: Vec<LocalcodeQuant>,
}

/// A status report of the supervisor during a switch.
#[derive(Debug)]
pub struct LocalcodeStatus {
    pub state: String,
    pub model: Option<String>,
    pub detail: Option<String>,
    pub pct: Option<u64>,
}

/// A reasoning effort setting.
#[derive(Clone, Copy, Debug, PartialEq, Eq, Structural)]
pub enum ReasoningEffort {
    /// No reasoning at all.
    Disabled,
    Minimal,
    Low,
    Medium,
    High,
    XHigh,
}

/// The colour of a piece of text in a list.
#[derive(Clone, Copy, Debug, PartialEq, Eq, Structural)]
pub enum TextColor {
    Plain,
    Yellow,
    Green,
    Red,
}

/// A piece of text with a colour.
#[derive(Debug)]
pub struct StyledText {
    pub text: String,
    pub color: TextColor,
}

/// An event sent to the application.
#[derive(Debug)]
pub enum AppEvent {
    LocalcodeOpenQuants { group: String },
    LocalcodeSelectQuant { group: String, filename: String, alias: String, display: String },
    UpdateModel(String),
    UpdateReasoningEffort(Option<ReasoningEffort>),
    PersistModelSelection { model: String, effort: Option<ReasoningEffort> },
}

/// One row of a selection list.
#[derive(Debug)]
pub struct SelectionItem {
    pub name: String,
    pub name_prefix: Vec<StyledText>,
    pub description: Option<String>,
    pub is_current: bool,
    pub on_select: AppEvent,
    pub dismiss_on_select: bool,
    pub dismiss_parent_on_child_accept: bool,
    pub search_value: Option<String>,
}

/// A selection list with its header.
#[derive(Debug)]
pub struct SelectionView {
    pub view_id: String,
    pub title: String,
    pub subtitle: String,
    pub items: Vec<SelectionItem>,
    pub initial_selected_idx: Option<usize>,
    /// The list shows the standard popup key hints in its footer.
    pub standard_footer_hint: bool,
}

/// What the widget asks its surroundings to do.
#[derive(Debug)]
pub enum UiAction {
    /// Fetch the catalog from `url`.
    FetchCatalog { url: String },
    /// Fetch the quants of a model from `url`.
    FetchQuants { url: String },
    /// Show an information line in the history.
    InfoMessage(String),
    /// Show a list through the model menu.
    ShowModelSelection(SelectionView),
    /// Show a list in the bottom pane.
    ShowSelection(SelectionView),
    /// Make sure the status indicator is visible.
    EnsureStatusIndicator,
    /// Set the status indicator's header and details; the details keep
    /// their capitalisation when `preserve_capitalization` holds, and take at
    /// most `details_max_lines` lines.
    UpdateStatus {
        header: String,
        details: String,
        preserve_capitalization: bool,
        details_max_lines: usize,
    },
    /// Hide the status indicator.
    HideStatusIndicator,
    /// Post the selection of `group`/`filename` to `select_url`, then poll
    /// `status_url` and report each status until the switch is done.
    StartSwitch { select_url: String, status_url: String, group: String, filename: String },
    /// Send an event to the application.
    Send(AppEvent),
}

/// The state of the chat widget that the picker reads and changes: the
/// current model, the reasoning effort chosen by the user, and the alias
/// of the model being switched to, while a switch is in progress.
#[derive(Debug)]
pub struct ChatWidget {
    pub model: String,
    pub reasoning_effort: Option<ReasoningEffort>,
    pub localcode_switch: Option<String>,
}

/// A failure while talking to the supervisor.
#[derive(Debug)]
pub enum SupervisorFailure {
    /// The request could not be sent or answered.
    Unreachable(String),
    /// The supervisor answered with this non-success status.
    Status(String),
    /// The reply could not be decoded.
    BadReply(String),
}

// ---------------------------------------------------------------------------
// Specifications
// ---------------------------------------------------------------------------

/// The control URL: trimmed, without trailing slashes, and only when something is left.
pub open spec fn control_url_spec(raw: Option<Seq<char>>) -> Option<Seq<char>> {
    match raw {
        Some(s) => {
            let u = trim_end_char_seq(trim_seq(s), '/');
            if u.len() > 0 {
                Some(u)
            } else {
                None
            }
        },
        None => None,
    }
}

pub open spec fn fit_glyph_spec(fit: Seq<char>) -> Seq<char> {
    if fit == "fits"@ {
        "✓"@
    } else if fit == "tight"@ {
        "~"@
    } else if fit == "too_big"@ {
        "✗"@
    } else {
        "?"@
    }
}

pub open spec fn fit_words_spec(fit: Seq<char>) -> Seq<char> {
    if fit == "fits"@ {
        "fits"@
    } else if fit == "tight"@ {
        "tight"@
    } else if fit == "too_big"@ {
        "too big"@
    } else {
        Seq::empty()
    }
}

pub open spec fn glyph_color(fit: Seq<char>) -> TextColor {
    if fit == "fits"@ {
        TextColor::Green
    } else if fit == "tight"@ {
        TextColor::Yellow
    } else {
        TextColor::Red
    }
}

pub open spec fn star_text(on: bool) -> Seq<char> {
    if on {
        "★ "@
    } else {
        "  "@
    }
}

pub open spec fn star_color(on: bool) -> TextColor {
    if on {
        TextColor::Yellow
    } else {
        TextColor::Plain
    }
}

pub open spec fn middle_dot() -> Seq<char> {
    " · "@
}

/// The description of a model row: maker, then license when there is one.
pub open spec fn group_description(g: LocalcodeGroup) -> Seq<char> {
    if g.license@.len() == 0 {
        g.maker@
    } else {
        g.maker@ + middle_dot() + g.license@
    }
}

pub open spec fn styled_is(t: StyledText, text: Seq<char>, color: TextColor) -> bool {
    t.text@ == text && t.color == color
}

/// The row shown for model `g`.
pub open spec fn model_item_ok(item: SelectionItem, g: LocalcodeGroup) -> bool {
    &&& item.name@ == g.display_name@
    &&& item.name_prefix@.len() == 1
    &&& styled_is(item.name_prefix@[0], star_text(g.recommended), star_color(g.recommended))
    &&& item.description matches Some(d) && d@ == group_description(g)
    &&& item.is_current == g.current
    &&& item.on_select matches AppEvent::LocalcodeOpenQuants { group } && group@ == g.key@
    &&& !item.dismiss_on_select
    &&& item.dismiss_parent_on_child_accept
    &&& item.search_value matches Some(s) && s@ == g.display_name@ + " "@ + g.maker@
}

pub open spec fn catalog_subtitle(ram_gb: u64) -> Seq<char> {
    "Model first, then quant · "@ + decimal(ram_gb as nat) + " GB Mac · ★ recommended for you"@
}

/// The list of models shown for catalog `c`.
pub open spec fn catalog_view_ok(c: LocalcodeCatalog, v: SelectionView) -> bool {
    &&& v.view_id@ == "localcode-model"@
    &&& v.title@ == "Choose a model"@
    &&& v.subtitle@ == catalog_subtitle(c.ram_gb)
    &&& v.initial_selected_idx is None
    &&& v.standard_footer_hint
    &&& v.items@.len() == c.groups@.len()
    &&& forall|i: int| 0 <= i < c.groups@.len() ==> model_item_ok(#[trigger] v.items@[i], c.groups@[i])
}

/// The parts of a quant row's description: size, speed when known, and
/// either "downloaded" or how well the quant fits.
pub open spec fn quant_bits(q: LocalcodeQuant) -> Seq<Seq<char>> {
    let speed = match q.tok_s {
        Some(t) => seq!["~"@ + decimal(t as nat) + " tok/s"@],
        None => Seq::empty(),
    };
    let state = if q.downloaded {
        "downloaded"@
    } else {
        fit_words_spec(q.fit@)
    };
    seq![q.size_gb@ + " GB"@] + speed + seq![state]
}

pub open spec fn quant_description(q: LocalcodeQuant) -> Seq<char> {
    join(quant_bits(q), middle_dot())
}

/// The row shown for quant `quant` of model `qs`.
pub open spec fn quant_item_ok(item: SelectionItem, qs: LocalcodeQuants, quant: LocalcodeQuant) -> bool {
    &&& item.name@ == quant.label@
    &&& item.name_prefix@.len() == 2
    &&& styled_is(item.name_prefix@[0], star_text(quant.recommended), star_color(quant.recommended))
    &&& styled_is(item.name_prefix@[1], fit_glyph_spec(quant.fit@) + " "@, glyph_color(quant.fit@))
    &&& item.description matches Some(d) && d@ == quant_description(quant)
    &&& item.is_current == quant.current
    &&& item.on_select matches AppEvent::LocalcodeSelectQuant { group, filename, alias, display }
        && group@ == qs.group@ && filename@ == quant.filename@ && alias@ == quant.alias@ && display@
        == qs.display_name@ + " "@ + quant.label@
    &&& item.dismiss_on_select
    &&& !item.dismiss_parent_on_child_accept
    &&& item.search_value matches Some(s) && s@ == quant.label@
}

/// The row selected first, looking at the first `n` quants: the last
/// current quant; when none is current, the first recommended one; else none.
pub open spec fn initial_choice_upto(qs: Seq<LocalcodeQuant>, n: int, init: Option<usize>) -> bool {
    match init {
        Some(i) => {
            &&& 0 <= i < n
            &&& {
                ||| qs[i as int].current && forall|j: int| i < j < n ==> !(#[trigger] qs[j]).current
                ||| qs[i as int].recommended && (forall|j: int| 0 <= j < n ==> !(#[trigger] qs[j]).current)
                    && (forall|j: int| 0 <= j < i ==> !(#[trigger] qs[j]).recommended)
            }
        },
        None => forall|j: int| 0 <= j < n ==> !(#[trigger] qs[j]).current && !qs[j].recommended,
    }
}

pub open spec fn initial_choice(qs: Seq<LocalcodeQuant>, init: Option<usize>) -> bool {
    initial_choice_upto(qs, qs.len() as int, init)
}

pub open spec fn quants_title(q: LocalcodeQuants) -> Seq<char> {
    let base = q.display_name@ + middle_dot() + q.maker@;
    if q.license@.len() == 0 {
        base
    } else {
        base + middle_dot() + q.license@
    }
}

pub open spec fn quants_subtitle(ram_gb: u64) -> Seq<char> {
    "★ best@"@ + decimal(ram_gb as nat)
        + "GB · ✓ fits · ~ tight · ✗ too big · Enter → use (downloads if needed) · Esc ← back"@
}

/// The list of quants shown for `q`.
pub open spec fn quants_view_ok(q: LocalcodeQuants, v: SelectionView) -> bool {
    &&& v.view_id@ == "localcode-quant"@
    &&& v.title@ == quants_title(q)
    &&& v.subtitle@ == quants_subtitle(q.ram_gb)
    &&& initial_choice(q.quants@, v.initial_selected_idx)
    &&& v.standard_footer_hint
    &&& v.items@.len() == q.quants@.len()
    &&& forall|i: int|
        0 <= i < q.quants@.len() ==> quant_item_ok(#[trigger] v.items@[i], q, q.quants@[i])
}

pub open spec fn no_quants_text(display_name: Seq<char>) -> Seq<char> {
    "No quants found for "@ + display_name + ". Offline, or this repo ships no GGUF quants yet."@
}

/// The status report keeps the switch going: downloading or loading.
pub open spec fn switch_continues(result: Result<LocalcodeStatus, String>) -> bool {
    result matches Ok(s) && (s.state@ == "downloading"@ || s.state@ == "loading"@)
}

/// The switch after a status report: kept while it continues, ended otherwise.
pub open spec fn switch_after_status(
    switch: Option<String>,
    result: Result<LocalcodeStatus, String>,
) -> Option<String> {
    if switch_continues(result) {
        switch
    } else {
        None
    }
}

/// Polling stops at an unreachable supervisor or at a ready, error or idle state.
pub open spec fn poll_done_spec(result: Result<LocalcodeStatus, String>) -> bool {
    match result {
        Ok(s) => s.state@ == "ready"@ || s.state@ == "error"@ || s.state@ == "idle"@,
        Err(_) => true,
    }
}

/// The model a status report names, or the alias being switched to.
pub open spec fn status_model(alias: Seq<char>, s: LocalcodeStatus) -> Seq<char> {
    match s.model {
        Some(m) => m@,
        None => alias,
    }
}

/// The details shown while downloading: the supervisor's detail when it has
/// visible text, else the percentage, else "starting…".
pub open spec fn download_detail(s: LocalcodeStatus) -> Seq<char> {
    let d = match s.detail {
        Some(d) => d@,
        None => Seq::empty(),
    };
    if trim_seq(d).len() > 0 {
        d
    } else {
        match s.pct {
            Some(p) => decimal(p as nat) + "%"@,
            None => "starting…"@,
        }
    }
}

pub open spec fn failure_detail(s: LocalcodeStatus) -> Seq<char> {
    match s.detail {
        Some(d) => d@,
        None => "unknown error"@,
    }
}

/// The effort kept when the new model is ready: the user's, or none at all.
pub open spec fn effort_to_keep(effort: Option<ReasoningEffort>) -> ReasoningEffort {
    match effort {
        Some(e) => e,
        None => ReasoningEffort::Disabled,
    }
}

/// What the widget does on a status report while switching to `alias`.
pub open spec fn switch_actions_ok(
    alias: Seq<char>,
    effort: Option<ReasoningEffort>,
    result: Result<LocalcodeStatus, String>,
    acts: Seq<UiAction>,
) -> bool {
    match result {
        Err(e) => {
            &&& acts.len() == 2
            &&& acts[0] is HideStatusIndicator
            &&& acts[1] matches UiAction::InfoMessage(m) && m@ == "Model switch failed: "@ + e@
        },
        Ok(s) => {
            let model = status_model(alias, s);
            if s.state@ == "downloading"@ {
                &&& acts.len() == 1
                &&& acts[0] matches UiAction::UpdateStatus { header, details, preserve_capitalization, details_max_lines }
                    && preserve_capitalization && details_max_lines == 1 && header@
                    == "Downloading "@ + model && details@ == download_detail(s)
            } else if s.state@ == "loading"@ {
                &&& acts.len() == 1
                &&& acts[0] matches UiAction::UpdateStatus { header, details, preserve_capitalization, details_max_lines }
                    && preserve_capitalization && details_max_lines == 1 && header@
                    == "Loading "@ + model && details@ == "starting the local server…"@
            } else if s.state@ == "ready"@ {
                let keep = effort_to_keep(effort);
                &&& acts.len() == 4
                &&& acts[0] is HideStatusIndicator
                &&& acts[1] matches UiAction::Send(AppEvent::UpdateModel(m)) && m@ == model
                &&& acts[2] matches UiAction::Send(AppEvent::UpdateReasoningEffort(e)) && e
                    == Some(keep)
                &&& acts[3] matches UiAction::Send(AppEvent::PersistModelSelection { model: m, effort: e })
                    && m@ == model && e == Some(keep)
            } else {
                &&& acts.len() == 2
                &&& acts[0] is HideStatusIndicator
                &&& acts[1] matches UiAction::InfoMessage(m) && m@ == "Model switch to "@ + model
                    + " failed: "@ + failure_detail(s)
            }
        },
    }
}

/// A selection request starts a switch: nothing is in progress and the
/// alias is not the current model.
pub open spec fn select_accepted(switch: Option<String>, model: Seq<char>, alias: Seq<char>) -> bool {
    switch is None && alias != model
}

pub open spec fn supervisor_failure_text(f: SupervisorFailure) -> Seq<char> {
    match f {
        SupervisorFailure::Unreachable(e) => "localcode supervisor unreachable: "@ + e@,
        SupervisorFailure::Status(s) => "localcode supervisor returned "@ + s@,
        SupervisorFailure::BadReply(e) => "bad reply from localcode supervisor: "@ + e@,
    }
}

// ---------------------------------------------------------------------------
// Laws
// ---------------------------------------------------------------------------

/// The switch after a series of status reports, one after the other.
pub open spec fn switch_after_reports(
    switch: Option<String>,
    reports: Seq<Result<LocalcodeStatus, String>>,
) -> Option<String>
    decreases reports.len(),
{
    if reports.len() == 0 {
        switch
    } else {
        switch_after_reports(switch_after_status(switch, reports[0]), reports.drop_first())
    }
}

/// Only one quant can be the first selection: the rule that picks it
/// (last current quant, else first recommended, else none) has one answer.
pub proof fn lemma_initial_choice_unique(qs: Seq<LocalcodeQuant>, a: Option<usize>, b: Option<usize>)
    requires
        initial_choice(qs, a),
        initial_choice(qs, b),
    ensures
        a == b,
{
    let n = qs.len() as int;
    match (a, b) {
        (Some(i), Some(j)) => {
            if i < j {
                assert(!qs[j as int].current ==> qs[j as int].recommended && !qs[i as int].current);
            } else if j < i {
                assert(!qs[i as int].current ==> qs[i as int].recommended && !qs[j as int].current);
            }
        },
        (Some(i), None) => {
            assert(!qs[i as int].current && !qs[i as int].recommended);
        },
        (None, Some(j)) => {
            assert(!qs[j as int].current && !qs[j as int].recommended);
        },
        (None, None) => {},
    }
}

/// Polling the supervisor stops only at a report that ends the switch.
pub proof fn lemma_poll_stop_ends_switch(
    switch: Option<String>,
    result: Result<LocalcodeStatus, String>,
)
    requires
        poll_done_spec(result),
    ensures
        switch_after_status(switch, result) is None,
{
    reveal_strlit("ready");
    reveal_strlit("error");
    reveal_strlit("idle");
    reveal_strlit("downloading");
    reveal_strlit("loading");
    if let Ok(s) = result {
        if s.state@ == "ready"@ || s.state@ == "error"@ || s.state@ == "idle"@ {
            assert(s.state@.len() != "downloading"@.len());
            assert(s.state@[0] != "loading"@[0] || s.state@.len() != "loading"@.len());
        }
    }
}

/// A switch stays in progress, to the same alias, through every downloading
/// or loading report, and ends at the first report of any other kind (or
/// at an unreachable supervisor); while it is in progress every further
/// selection is refused.
pub proof fn lemma_switch_lasts_until_end_report(
    alias: String,
    reports: Seq<Result<LocalcodeStatus, String>>,
    model: Seq<char>,
    other_alias: Seq<char>,
)
    ensures
        (forall|i: int| 0 <= i < reports.len() ==> switch_continues(#[trigger] reports[i]))
            ==> switch_after_reports(Some(alias), reports) == Some(alias) && !select_accepted(
            switch_after_reports(Some(alias), reports),
            model,
            other_alias,
        ),
        (exists|i: int| 0 <= i < reports.len() && !switch_continues(#[trigger] reports[i]))
            ==> switch_after_reports(Some(alias), reports) is None,
    decreases reports.len(),
{
    if reports.len() > 0 {
        lemma_switch_lasts_until_end_report(alias, reports.drop_first(), model, other_alias);
        if switch_continues(reports[0]) {
            assert forall|i: int| 0 <= i < reports.drop_first().len() && (forall|k: int|
                0 <= k < reports.len() ==> switch_continues(#[trigger] reports[k])) implies switch_continues(
                #[trigger] reports.drop_first()[i],
            ) by {
                assert(reports.drop_first()[i] == reports[i + 1]);
            }
            if exists|i: int| 0 <= i < reports.len() && !switch_continues(#[trigger] reports[i]) {
                let i = choose|i: int| 0 <= i < reports.len() && !switch_continues(#[trigger] reports[i]);
                assert(i > 0);
                assert(reports.drop_first()[i - 1] == reports[i]);
            }
        } else {
            lemma_no_switch_stays_none(reports.drop_first());
        }
    }
}

/// Without a switch in progress, no report starts one.
pub proof fn lemma_no_switch_stays_none(reports: Seq<Result<LocalcodeStatus, String>>)
    ensures
        switch_after_reports(None, reports) is None,
    decreases reports.len(),
{
    if reports.len() > 0 {
        lemma_no_switch_stays_none(reports.drop_first());
    }
}

proof fn lemma_trim_end_char_last(s: Seq<char>, c: char)
    ensures
        trim_end_char_seq(s, c).len() > 0 ==> trim_end_char_seq(s, c).last() != c,
    decreases s.len(),
{
    if s.len() > 0 && s.last() == c {
        lemma_trim_end_char_last(s.drop_last(), c);
    }
}

/// A control URL, when there is one, is not empty and does not end with '/'.
pub proof fn lemma_control_url_shape(raw: Seq<char>)
    ensures
        control_url_spec(Some(raw)) matches Some(u) ==> u.len() > 0 && u.last() != '/',
{
    lemma_trim_end_char_last(trim_seq(raw), '/');
}

/// A selection starts a switch exactly when no switch is in progress and
/// the alias is not the current model: any alias that differs from the
/// model, even one that contains it or is contained in it, is accepted.
pub proof fn lemma_select_accepted_exactly(switch: Option<String>, model: Seq<char>, alias: Seq<char>)
    ensures
        select_accepted(switch, model, alias) <==> (switch is None && alias != model),
        select_accepted(None, model, alias) <==> alias != model,
        !select_accepted(None, model, model),
{
}

/// While downloading, the details show the supervisor's detail when it has
/// visible text; otherwise the percentage when one is reported (an absent
/// detail counts as an empty one); otherwise "starting…". The header names
/// the reported model, or the alias.
pub proof fn lemma_download_details(
    alias: Seq<char>,
    effort: Option<ReasoningEffort>,
    s: LocalcodeStatus,
    acts: Seq<UiAction>,
)
    requires
        s.state@ == "downloading"@,
        switch_actions_ok(alias, effort, Ok(s), acts),
    ensures
        acts.len() == 1,
        acts[0] matches UiAction::UpdateStatus { header, .. } && header@ == "Downloading "@ + (
        match s.model {
            Some(m) => m@,
            None => alias,
        }),
        (match s.detail {
            Some(d) => trim_seq(d@).len() > 0,
            None => false,
        }) ==> (acts[0] matches UiAction::UpdateStatus { details, .. } && details@
            == s.detail->0@),
        (match s.detail {
            Some(d) => trim_seq(d@).len() == 0,
            None => true,
        }) ==> match s.pct {
            Some(p) => (acts[0] matches UiAction::UpdateStatus { details, .. } && details@
                == decimal(p as nat) + "%"@),
            None => (acts[0] matches UiAction::UpdateStatus { details, .. } && details@
                == "starting…"@),
        },
{
    assert(trim_seq(Seq::<char>::empty()) =~= Seq::<char>::empty()) by {
        reveal_with_fuel(crate::text::trim_start_seq, 1);
        reveal_with_fuel(crate::text::trim_end_seq, 1);
    }
}

/// " · ~N tok/s" for a known speed of N tokens per second, else nothing.
pub open spec fn speed_part(tok_s: Option<u64>) -> Seq<char> {
    match tok_s {
        Some(t) => " · "@ + ("~"@ + decimal(t as nat) + " tok/s"@),
        None => Seq::empty(),
    }
}

/// "downloaded" for a downloaded quant, else the words for its fit.
pub open spec fn state_part(downloaded: bool, fit: Seq<char>) -> Seq<char> {
    if downloaded {
        "downloaded"@
    } else {
        fit_words_spec(fit)
    }
}

/// A quant row's description: the size in GB; then, when the speed is
/// known, "~N tok/s", whether or not the quant is downloaded; then
/// "downloaded" for a downloaded quant, else the words for its fit; the
/// parts separated by " · ".
pub proof fn lemma_quant_description_layout(q: LocalcodeQuant)
    ensures
        quant_description(q) == q.size_gb@ + " GB"@ + speed_part(q.tok_s) + " · "@ + state_part(
            q.downloaded,
            q.fit@,
        ),
{
    let bits = quant_bits(q);
    let size = q.size_gb@ + " GB"@;
    let state = if q.downloaded {
        "downloaded"@
    } else {
        fit_words_spec(q.fit@)
    };
    match q.tok_s {
        Some(t) => {
            let speed = "~"@ + decimal(t as nat) + " tok/s"@;
            assert(bits =~= seq![size, speed, state]);
            assert(bits.drop_last() =~= seq![size, speed]);
            assert(bits.drop_last().drop_last() =~= seq![size]);
            let two = bits.drop_last();
            let one = two.drop_last();
            assert(join(one, middle_dot()) == size);
            assert(join(two, middle_dot()) == join(one, middle_dot()) + middle_dot() + two.last());
            assert(two.last() == speed);
            assert(join(bits, middle_dot()) == join(two, middle_dot()) + middle_dot() + bits.last());
            assert(bits.last() == state);
            assert(quant_description(q) == size + middle_dot() + speed + middle_dot() + state);
            assert(size + middle_dot() + speed + middle_dot() + state =~= size + (middle_dot() + speed)
                + middle_dot() + state);
            assert(quant_description(q) == q.size_gb@ + " GB"@ + speed_part(q.tok_s) + " · "@ + state);
        },
        None => {
            assert(bits =~= seq![size, state]);
            assert(bits.drop_last() =~= seq![size]);
            let one = bits.drop_last();
            assert(join(one, middle_dot()) == size);
            assert(join(bits, middle_dot()) == join(one, middle_dot()) + middle_dot() + bits.last());
            assert(bits.last() == state);
            assert(size + Seq::<char>::empty() =~= size);
            assert(quant_description(q) == q.size_gb@ + " GB"@ + speed_part(q.tok_s) + " · "@ + state);
        },
    }
}

// ---------------------------------------------------------------------------
// Executable code
// ---------------------------------------------------------------------------

/// The supervisor's control URL from the raw value of its environment
/// variable: trimmed, trailing slashes removed, and absent when empty.
pub fn localcode_control_url(raw: Option<&str>) -> (r: Option<String>)
    ensures
        match raw {
            Some(s) => match control_url_spec(Some(s@)) {
                Some(u) => r matches Some(x) && x@ == u,
                None => r is None,
            },
            None => r is None,
        },
{
    match raw {
        Some(s) => {
            let t = trim(s);
            let u = trim_end_char(t.as_str(), '/');
            if chars_of(u.as_str()).len() > 0 {
                Some(u)
            } else {
                None
            }
        },
        None => None,
    }
}

/// The glyph shown for how well a quant fits in memory.
pub fn fit_glyph(fit: &str) -> (r: &'static str)
    ensures
        r@ == fit_glyph_spec(fit@),
{
    if str_eq(fit, "fits") {
        "✓"
    } else if str_eq(fit, "tight") {
        "~"
    } else if str_eq(fit, "too_big") {
        "✗"
    } else {
        "?"
    }
}

/// The words shown for how well a quant fits in memory.
pub fn fit_words(fit: &str) -> (r: &'static str)
    ensures
        r@ == fit_words_spec(fit@),
{
    if str_eq(fit, "fits") {
        "fits"
    } else if str_eq(fit, "tight") {
        "tight"
    } else if str_eq(fit, "too_big") {
        "too big"
    } else {
        proof {
            reveal_strlit("");
        }
        ""
    }
}

/// The message for a failure to talk to the supervisor.
pub fn supervisor_error(f: &SupervisorFailure) -> (r: String)
    ensures
        r@ == supervisor_failure_text(*f),
{
    match f {
        SupervisorFailure::Unreachable(e) => concat2(
            "localcode supervisor unreachable: ",
            e.as_str(),
        ),
        SupervisorFailure::Status(s) => concat2("localcode supervisor returned ", s.as_str()),
        SupervisorFailure::BadReply(e) => concat2(
            "bad reply from localcode supervisor: ",
            e.as_str(),
        ),
    }
}

/// The outcome of a POST to the supervisor: accepted on a success status;
/// otherwise refused with the reply's `error` text, or "request rejected".
pub fn post_reply(status_success: bool, error_text: Option<&str>) -> (r: Result<(), String>)
    ensures
        status_success ==> r is Ok,
        !status_success ==> match error_text {
            Some(e) => r matches Err(m) && m@ == e@,
            None => r matches Err(m) && m@ == "request rejected"@,
        },
{
    if status_success {
        Ok(())
    } else {
        match error_text {
            Some(e) => Err(to_owned(e)),
            None => Err(to_owned("request rejected")),
        }
    }
}

/// The first step of a switch, once the selection was posted: a refused or
/// failed post is the one failure to report, and the switch task stops
/// there without polling; an accepted post (`None`) starts the polling.
pub fn switch_after_post(post: Result<(), String>) -> (r: Option<String>)
    ensures
        match post {
            Ok(()) => r is None,
            Err(e) => r matches Some(m) && m@ == e@,
        },
{
    match post {
        Ok(()) => None,
        Err(e) => Some(e),
    }
}

/// Whether polling stops after this status report.
pub fn switch_poll_done(result: &Result<LocalcodeStatus, String>) -> (r: bool)
    ensures
        r == poll_done_spec(*result),
{
    match result {
        Ok(s) => str_eq(s.state.as_str(), "ready") || str_eq(s.state.as_str(), "error")
            || str_eq(s.state.as_str(), "idle"),
        Err(_) => true,
    }
}

fn styled(text: &str, color: TextColor) -> (r: StyledText)
    ensures
        styled_is(r, text@, color),
{
    StyledText { text: to_owned(text), color }
}

fn star(on: bool) -> (r: StyledText)
    ensures
        styled_is(r, star_text(on), star_color(on)),
{
    if on {
        styled("★ ", TextColor::Yellow)
    } else {
        styled("  ", TextColor::Plain)
    }
}

fn model_item(g: &LocalcodeGroup) -> (item: SelectionItem)
    ensures
        model_item_ok(item, *g),
{
    let description = if chars_of(g.license.as_str()).len() == 0 {
        g.maker.clone()
    } else {
        concat3(g.maker.as_str(), " · ", g.license.as_str())
    };
    let mut prefix: Vec<StyledText> = Vec::new();
    prefix.push(star(g.recommended));
    SelectionItem {
        name: g.display_name.clone(),
        name_prefix: prefix,
        description: Some(description),
        is_current: g.current,
        on_select: AppEvent::LocalcodeOpenQuants { group: g.key.clone() },
        dismiss_on_select: false,
        dismiss_parent_on_child_accept: true,
        search_value: Some(concat3(g.display_name.as_str(), " ", g.maker.as_str())),
    }
}

fn glyph(fit: &str) -> (r: StyledText)
    ensures
        styled_is(r, fit_glyph_spec(fit@) + " "@, glyph_color(fit@)),
{
    let text = concat2(fit_glyph(fit), " ");
    let color = if str_eq(fit, "fits") {
        TextColor::Green
    } else if str_eq(fit, "tight") {
        TextColor::Yellow
    } else {
        TextColor::Red
    };
    StyledText { text, color }
}

fn quant_description_text(quant: &LocalcodeQuant) -> (r: String)
    ensures
        r@ == quant_description(*quant),
{
    let mut bits: Vec<String> = Vec::new();
    bits.push(concat2(quant.size_gb.as_str(), " GB"));
    match quant.tok_s {
        Some(t) => {
            let n = decimal_string(t);
            bits.push(concat3("~", n.as_str(), " tok/s"));
        },
        None => {},
    }
    if quant.downloaded {
        bits.push(to_owned("downloaded"));
    } else {
        bits.push(to_owned(fit_words(quant.fit.as_str())));
    }
    let r = join_strings(&bits, " · ");
    assert(bits@.map_values(|p: String| p@) =~= quant_bits(*quant));
    r
}

fn quant_item(qs: &LocalcodeQuants, quant: &LocalcodeQuant) -> (item: SelectionItem)
    ensures
        quant_item_ok(item, *qs, *quant),
{
    let mut prefix: Vec<StyledText> = Vec::new();
    prefix.push(star(quant.recommended));
    prefix.push(glyph(quant.fit.as_str()));
    SelectionItem {
        name: quant.label.clone(),
        name_prefix: prefix,
        description: Some(quant_description_text(quant)),
        is_current: quant.current,
        on_select: AppEvent::LocalcodeSelectQuant {
            group: qs.group.clone(),
            filename: quant.filename.clone(),
            alias: quant.alias.clone(),
            display: concat3(qs.display_name.as_str(), " ", quant.label.as_str()),
        },
        dismiss_on_select: true,
        dismiss_parent_on_child_accept: false,
        search_value: Some(quant.label.clone()),
    }
}

/// The row selected first among `quants`: the last current quant; when
/// none is current, the first recommended one.
pub fn initial_quant(quants: &Vec<LocalcodeQuant>) -> (r: Option<usize>)
    ensures
        initial_choice(quants@, r),
{
    let mut initial: Option<usize> = None;
    let mut i: usize = 0;
    while i < quants.len()
        invariant
            i <= quants.len(),
            initial_choice_upto(quants@, i as int, initial),
        decreases quants.len() - i,
    {
        let q = &quants[i];
        if q.current || (initial.is_none() && q.recommended) {
            initial = Some(i);
        }
        i = i + 1;
    }
    initial
}

impl ChatWidget {
    /// Level one: ask for the catalog at `base`.
    pub fn open_localcode_model_popup(&self, base: &str) -> (r: UiAction)
        ensures
            r matches UiAction::FetchCatalog { url } && url@ == base@ + "/catalog"@,
    {
        UiAction::FetchCatalog { url: concat2(base, "/catalog") }
    }

    /// The list of every model of the catalog, or a message when the catalog could not be had.
    pub fn on_localcode_catalog_loaded(&self, result: Result<LocalcodeCatalog, String>) -> (r:
        UiAction)
        ensures
            match result {
                Err(e) => r matches UiAction::InfoMessage(m) && m@ == "Could not list models: "@
                    + e@,
                Ok(c) => r matches UiAction::ShowModelSelection(v) && catalog_view_ok(c, v),
            },
    {
        let catalog = match result {
            Ok(c) => c,
            Err(e) => {
                return UiAction::InfoMessage(concat2("Could not list models: ", e.as_str()));
            },
        };
        let mut items: Vec<SelectionItem> = Vec::new();
        let mut i: usize = 0;
        while i < catalog.groups.len()
            invariant
                i <= catalog.groups.len(),
                items@.len() == i,
                forall|j: int|
                    0 <= j < i ==> model_item_ok(#[trigger] items@[j], catalog.groups@[j]),
            decreases catalog.groups.len() - i,
        {
            items.push(model_item(&catalog.groups[i]));
            i = i + 1;
        }
        let ram = decimal_string(catalog.ram_gb);
        let subtitle = concat3(
            "Model first, then quant · ",
            ram.as_str(),
            " GB Mac · ★ recommended for you",
        );
        UiAction::ShowModelSelection(
            SelectionView {
                view_id: to_owned("localcode-model"),
                title: to_owned("Choose a model"),
                subtitle,
                items,
                initial_selected_idx: None,
                standard_footer_hint: true,
            },
        )
    }

    /// Level two: ask for the quants of `group` at `base`.
    pub fn open_localcode_quants(&self, base: &str, group: &str) -> (r: UiAction)
        ensures
            r matches UiAction::FetchQuants { url } && url@ == base@ + "/quants?group="@ + group@,
    {
        UiAction::FetchQuants { url: concat3(base, "/quants?group=", group) }
    }

    /// The list of every quant of a model, or a message when there is none
    /// or the list could not be had.
    pub fn on_localcode_quants_loaded(&self, result: Result<LocalcodeQuants, String>) -> (r:
        UiAction)
        ensures
            match result {
                Err(e) => r matches UiAction::InfoMessage(m) && m@ == "Could not list quants: "@
                    + e@,
                Ok(q) => if q.quants@.len() == 0 {
                    r matches UiAction::InfoMessage(m) && m@ == no_quants_text(q.display_name@)
                } else {
                    r matches UiAction::ShowSelection(v) && quants_view_ok(q, v)
                },
            },
    {
        let q = match result {
            Ok(q) => q,
            Err(e) => {
                return UiAction::InfoMessage(concat2("Could not list quants: ", e.as_str()));
            },
        };
        if q.quants.len() == 0 {
            return UiAction::InfoMessage(
                concat3(
                    "No quants found for ",
                    q.display_name.as_str(),
                    ". Offline, or this repo ships no GGUF quants yet.",
                ),
            );
        }
        let mut items: Vec<SelectionItem> = Vec::new();
        let mut i: usize = 0;
        while i < q.quants.len()
            invariant
                i <= q.quants.len(),
                items@.len() == i,
                forall|j: int| 0 <= j < i ==> quant_item_ok(#[trigger] items@[j], q, q.quants@[j]),
            decreases q.quants.len() - i,
        {
            items.push(quant_item(&q, &q.quants[i]));
            i = i + 1;
        }
        let initial = initial_quant(&q.quants);
        let mut title = concat3(q.display_name.as_str(), " · ", q.maker.as_str());
        if chars_of(q.license.as_str()).len() > 0 {
            title.append(" · ");
            title.append(q.license.as_str());
        }
        let ram = decimal_string(q.ram_gb);
        let subtitle = concat3(
            "★ best@",
            ram.as_str(),
            "GB · ✓ fits · ~ tight · ✗ too big · Enter → use (downloads if needed) · Esc ← back",
        );
        UiAction::ShowSelection(
            SelectionView {
                view_id: to_owned("localcode-quant"),
                title,
                subtitle,
                items,
                initial_selected_idx: initial,
                standard_footer_hint: true,
            },
        )
    }

    /// A request to switch to quant `filename` of `group`, known as `alias`.
    /// Refused while a switch is in progress or when `alias` is already the
    /// current model; otherwise the switch starts: it is recorded, the status
    /// indicator says so, and the supervisor is asked to select the quant.
    pub fn localcode_select_quant(
        &mut self,
        base: &str,
        group: String,
        filename: String,
        alias: String,
        display: &str,
    ) -> (r: Vec<UiAction>)
        ensures
            final(self).model == old(self).model,
            final(self).reasoning_effort == old(self).reasoning_effort,
            old(self).localcode_switch is Some ==> {
                &&& final(self).localcode_switch == old(self).localcode_switch
                &&& r@.len() == 1
                &&& r@[0] matches UiAction::InfoMessage(m) && m@
                    == "A model switch is already in progress."@
            },
            old(self).localcode_switch is None && alias@ == old(self).model@ ==> {
                &&& final(self).localcode_switch is None
                &&& r@.len() == 1
                &&& r@[0] matches UiAction::InfoMessage(m) && m@ == display@
                    + " is already the current model."@
            },
            old(self).localcode_switch is None && alias@ != old(self).model@ ==> {
                &&& final(self).localcode_switch matches Some(a) && a@ == alias@
                &&& r@.len() == 3
                &&& r@[0] is EnsureStatusIndicator
                &&& r@[1] matches UiAction::UpdateStatus { header, details, preserve_capitalization, details_max_lines }
                    && preserve_capitalization && details_max_lines == 1 && header@
                    == "Switching to "@ + display@ && details@ == "contacting localcode…"@
                &&& r@[2] matches UiAction::StartSwitch { select_url, status_url, group: g, filename: f }
                    && select_url@ == base@ + "/select"@ && status_url@ == base@ + "/status"@
                    && g@ == group@ && f@ == filename@
            },
    {
        let mut acts: Vec<UiAction> = Vec::new();
        if self.localcode_switch.is_some() {
            acts.push(UiAction::InfoMessage(to_owned("A model switch is already in progress.")));
            return acts;
        }
        if str_eq(alias.as_str(), self.model.as_str()) {
            acts.push(UiAction::InfoMessage(concat2(display, " is already the current model.")));
            return acts;
        }
        self.localcode_switch = Some(alias);
        acts.push(UiAction::EnsureStatusIndicator);
        acts.push(
            UiAction::UpdateStatus {
                header: concat2("Switching to ", display),
                details: to_owned("contacting localcode…"),
                preserve_capitalization: true,
                details_max_lines: 1,
            },
        );
        acts.push(
            UiAction::StartSwitch {
                select_url: concat2(base, "/select"),
                status_url: concat2(base, "/status"),
                group,
                filename,
            },
        );
        acts
    }

    /// A status report of the supervisor during a switch. Ignored when no
    /// switch is in progress. Downloading and loading update the status
    /// indicator; ready ends the switch and makes the reported model (or
    /// the alias) current, keeping the user's reasoning effort or none;
    /// any other state, and an unreachable supervisor, end the switch with
    /// a failure message.
    pub fn on_localcode_switch_status(&mut self, result: Result<LocalcodeStatus, String>) -> (r:
        Vec<UiAction>)
        ensures
            final(self).model == old(self).model,
            final(self).reasoning_effort == old(self).reasoning_effort,
            final(self).localcode_switch == switch_after_status(old(self).localcode_switch, result),
            match old(self).localcode_switch {
                None => r@.len() == 0,
                Some(alias) => switch_actions_ok(alias@, old(self).reasoning_effort, result, r@),
            },
    {
        let mut acts: Vec<UiAction> = Vec::new();
        let alias = match &self.localcode_switch {
            Some(a) => a.clone(),
            None => {
                return acts;
            },
        };
        let status = match result {
            Ok(s) => s,
            Err(e) => {
                self.localcode_switch = None;
                acts.push(UiAction::HideStatusIndicator);
                acts.push(UiAction::InfoMessage(concat2("Model switch failed: ", e.as_str())));
                return acts;
            },
        };
        let model = match &status.model {
            Some(m) => m.clone(),
            None => alias.clone(),
        };
        if str_eq(status.state.as_str(), "downloading") {
            let detail = match &status.detail {
                Some(d) if has_visible_text(d.as_str()) => d.clone(),
                _ => match status.pct {
                    Some(p) => {
                        let n = decimal_string(p);
                        concat2(n.as_str(), "%")
                    },
                    None => to_owned("starting…"),
                },
            };
            acts.push(
                UiAction::UpdateStatus {
                    header: concat2("Downloading ", model.as_str()),
                    details: detail,
                    preserve_capitalization: true,
                    details_max_lines: 1,
                },
            );
        } else if str_eq(status.state.as_str(), "loading") {
            acts.push(
                UiAction::UpdateStatus {
                    header: concat2("Loading ", model.as_str()),
                    details: to_owned("starting the local server…"),
                    preserve_capitalization: true,
                    details_max_lines: 1,
                },
            );
        } else if str_eq(status.state.as_str(), "ready") {
            self.localcode_switch = None;
            acts.push(UiAction::HideStatusIndicator);
            let effort = match self.reasoning_effort {
                Some(e) => e,
                None => ReasoningEffort::Disabled,
            };
            acts.push(UiAction::Send(AppEvent::UpdateModel(model.clone())));
            acts.push(UiAction::Send(AppEvent::UpdateReasoningEffort(Some(effort))));
            acts.push(UiAction::Send(AppEvent::PersistModelSelection { model, effort: Some(effort) }));
        } else {
            self.localcode_switch = None;
            acts.push(UiAction::HideStatusIndicator);
            let detail = match &status.detail {
                Some(d) => d.clone(),
                None => to_owned("unknown error"),
            };
            let mut msg = concat3("Model switch to ", model.as_str(), " failed: ");
            msg.append(detail.as_str());
            acts.push(UiAction::InfoMessage(msg));
        }
        acts
    }
}

} // verus!
