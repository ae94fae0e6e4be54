//! What is said to the classifier and to the summarizer: the texts of the
//! requests, built from the records and the settings.

use crate::blob::{base64_encoded, data_url_head, decimal, decimal_text, image_data_url};
use crate::model::{prefer, RecordView, SettingsView, Text};
use crate::record::{text_of, TabRecord};
use crate::settings::{configured, configured_or, default_base_url, get_base_url, Settings};
use crate::storage::views;
use crate::text::{domain_of, extract_domain, truncate_str, truncated, unknown_domain};
use vstd::prelude::*;
use vstd::string::StringExecFns;

verus! {

/// The role that the classifier is given.
pub const CLASSIFIER_ROLE: &'static str =
    "You are a tab cleanup assistant. Classify and decide whether each tab should be kept, closed, or is unsure. Consider the user's context and work habits.";

/// The role that the summarizer is given.
pub const SUMMARIZER_ROLE: &'static str =
    "You summarize browsing activity as a daily report with key themes, tasks, and next actions. Be concise and actionable. Use markdown formatting. The input is grouped by domain, each tab has a title, active time, and optionally a category tag with content summary.";

/// How the request to the classifier opens.
pub const CLASSIFIER_TASK: &'static str =
    "Analyze these browser tabs and suggest which to keep or close.\n\n";

/// The categories that the classifier chooses from.
pub const TAB_CATEGORIES: &'static str =
    "\nCategories to classify tabs:\n- work: Work-related tasks, projects, documentation\n- research: Learning, tutorials, technical documentation\n- communication: Email, chat, social media\n- entertainment: Videos, games, news, casual browsing\n- shopping: E-commerce, product research\n- reference: Bookmarked pages, tools kept open for reference\n- utility: Settings, admin panels, dev tools\n";

/// The form of the answer that the classifier is asked for.
pub const CLASSIFIER_ANSWER_FORM: &'static str =
    "\n\nReturn JSON array only. Each item must have:\n- \"tabId\": number\n- \"category\": one of [work, research, communication, entertainment, shopping, reference, utility]\n- \"decision\": \"keep\" | \"close\" | \"unsure\"\n- \"reason\": brief explanation\n- \"digest\": a concise 1-2 sentence summary of the tab's content/purpose (in the same language as the page content)\n\nBase decisions on:\n1. Tab's relevance to user's current work/goals\n2. How recently it was active\n3. Whether the content is transient or worth keeping\n4. Category - entertainment tabs idle for long are good candidates to close";

/// What the summarizer's answer is where there is nothing to report on.
pub const NOTHING_TO_REPORT: &'static str = "No tabs to report on.";

/// The text that a present and non-empty user context adds to a request,
/// under the given heading; nothing where there is no such context.
pub open spec fn context_note(heading: Text, context: Option<Text>) -> Text {
    match configured(context) {
        Some(c) => heading + c,
        None => Seq::empty(),
    }
}

/// The note on the user's context, under `heading`.
pub fn user_context_note(heading: &str, settings: &Settings) -> (r: String)
    ensures
        r@ == context_note(heading@, settings@.user_context),
{
    proof {
        reveal_strlit("");
    }
    match &settings.user_context {
        Some(context) => {
            if !context.as_str().is_empty() {
                let mut out = String::from_str(heading);
                out.append(context.as_str());
                return out;
            }
        },
        None => {},
    }
    String::from_str("")
}

/// The request to the classifier, before the tabs.
pub open spec fn classifier_request(settings: SettingsView) -> Text {
    CLASSIFIER_TASK@ + TAB_CATEGORIES@ + "\n"@ + context_note(
        "\n\nUser's context and preferences:\n"@,
        settings.user_context,
    ) + CLASSIFIER_ANSWER_FORM@
}

/// The request to the classifier, before the tabs.
pub fn classification_prompt(settings: &Settings) -> (r: String)
    ensures
        r@ == classifier_request(settings@),
{
    let note = user_context_note("\n\nUser's context and preferences:\n", settings);
    let mut out = String::from_str(CLASSIFIER_TASK);
    out.append(TAB_CATEGORIES);
    out.append("\n");
    out.append(note.as_str());
    out.append(CLASSIFIER_ANSWER_FORM);
    out
}

/// The text of an optional piece of text, or `fallback`.
pub open spec fn text_or(value: Option<Text>, fallback: Text) -> Text {
    match value {
        Some(t) => t,
        None => fallback,
    }
}

/// An optional instant as the debug format writes it.
pub open spec fn debug_instant(value: Option<i64>) -> Text {
    match value {
        Some(t) => "Some("@ + decimal(t as int) + ")"@,
        None => "None"@,
    }
}

/// How many characters of a description the classifier is shown.
pub open spec fn classifier_excerpt() -> int {
    3000
}

/// What the classifier is told of one tab.
pub open spec fn tab_brief(r: RecordView) -> Text {
    "tabId: "@ + decimal(r.id as int) + "\ntitle: "@ + text_or(r.title, Seq::empty()) + "\nurl: "@
        + text_or(r.url, Seq::empty()) + "\ncreatedAt: "@ + decimal(r.created_at as int)
        + "\nlastActiveAt: "@ + debug_instant(r.last_active_at) + "\ntotalActiveMs: "@ + decimal(
        r.total_active_ms as int,
    ) + match r.description {
        Some(d) => "\ncontent: "@ + truncated(d, classifier_excerpt()),
        None => Seq::empty(),
    }
}

/// Appends an optional piece of text, if present.
fn append_present(out: &mut String, value: &Option<String>)
    ensures
        final(out)@ == old(out)@ + text_or(text_of(*value), Seq::empty()),
{
    match value {
        Some(t) => {
            out.append(t.as_str());
        },
        None => {
            assert(out@ + Seq::<char>::empty() =~= out@);
        },
    }
}

/// What the classifier is told of one tab.
pub fn format_tab_for_prompt(tab: &TabRecord) -> (r: String)
    ensures
        r@ == tab_brief(tab@),
{
    let mut out = String::from_str("tabId: ");
    out.append(decimal_text(tab.id).as_str());
    out.append("\ntitle: ");
    append_present(&mut out, &tab.title);
    out.append("\nurl: ");
    append_present(&mut out, &tab.url);
    out.append("\ncreatedAt: ");
    out.append(decimal_text(tab.created_at).as_str());
    out.append("\nlastActiveAt: ");
    match tab.last_active_at {
        Some(t) => {
            out.append("Some(");
            out.append(decimal_text(t).as_str());
            out.append(")");
            assert(out@ =~= "tabId: "@ + decimal(tab.id as int) + "\ntitle: "@ + text_or(
                tab@.title,
                Seq::empty(),
            ) + "\nurl: "@ + text_or(tab@.url, Seq::empty()) + "\ncreatedAt: "@ + decimal(
                tab.created_at as int,
            ) + "\nlastActiveAt: "@ + debug_instant(tab.last_active_at));
        },
        None => {
            out.append("None");
        },
    }
    out.append("\ntotalActiveMs: ");
    out.append(decimal_text(tab.total_active_ms).as_str());
    match &tab.description {
        Some(d) => {
            out.append("\ncontent: ");
            out.append(truncate_str(d.as_str(), 3000).as_str());
            assert(out@ =~= tab_brief(tab@));
        },
        None => {
            assert(out@ =~= tab_brief(tab@));
        },
    }
    out
}

/// The domain under which a tab is filed in the report.
pub open spec fn tab_domain(r: RecordView) -> Text {
    match r.url {
        Some(u) => domain_of(u),
        None => unknown_domain(),
    }
}

/// The domain under which a tab is filed in the report.
pub fn domain_of_tab(tab: &TabRecord) -> (r: String)
    ensures
        r@ == tab_domain(tab@),
{
    match &tab.url {
        Some(u) => extract_domain(u.as_str()),
        None => String::from_str("unknown"),
    }
}

/// How many characters of a digest or description the summarizer is shown.
pub open spec fn report_excerpt() -> int {
    300
}

/// What the report says of the content of a tab: its category and the
/// digest, or the description where there is no digest; without a
/// suggestion, the description alone.
pub open spec fn tab_summary(r: RecordView) -> Text {
    match r.suggestion {
        Some(s) => {
            let tag = "["@ + text_or(s.category, "uncategorized"@) + "]"@;
            let summary = match prefer(s.digest, r.description) {
                Some(d) => truncated(d, report_excerpt()),
                None => Seq::empty(),
            };
            if summary.len() == 0 {
                tag
            } else {
                tag + " "@ + summary
            }
        },
        None => match r.description {
            Some(d) => truncated(d, report_excerpt()),
            None => Seq::empty(),
        },
    }
}

/// A cut of an optional piece of text, or nothing.
fn excerpt(value: &Option<String>, max_chars: usize) -> (r: String)
    ensures
        r@ == match text_of(*value) {
            Some(d) => truncated(d, max_chars as int),
            None => Seq::empty(),
        },
{
    proof {
        reveal_strlit("");
    }
    match value {
        Some(d) => truncate_str(d.as_str(), max_chars),
        None => String::from_str(""),
    }
}

/// What the report says of the content of a tab.
pub fn summary_of_tab(tab: &TabRecord) -> (r: String)
    ensures
        r@ == tab_summary(tab@),
{
    match &tab.suggestion {
        Some(s) => {
            let summary = if s.digest.is_some() {
                excerpt(&s.digest, 300)
            } else {
                excerpt(&tab.description, 300)
            };
            let mut out = String::from_str("[");
            match &s.category {
                Some(c) => {
                    out.append(c.as_str());
                },
                None => {
                    out.append("uncategorized");
                },
            }
            out.append("]");
            if !summary.as_str().is_empty() {
                out.append(" ");
                out.append(summary.as_str());
            }
            out
        },
        None => excerpt(&tab.description, 300),
    }
}

/// The line of the report for one tab: title and active time, and below
/// them what is known of the content.
pub open spec fn report_line(r: RecordView) -> Text {
    "  - "@ + text_or(r.title, "Untitled"@) + " ("@ + decimal(r.total_active_ms as int) + "ms)"@
        + if tab_summary(r).len() == 0 {
        Seq::empty()
    } else {
        "\n    "@ + tab_summary(r)
    }
}

/// The line of the report for one tab.
pub fn line_of_tab(tab: &TabRecord) -> (r: String)
    ensures
        r@ == report_line(tab@),
{
    let mut out = String::from_str("  - ");
    match &tab.title {
        Some(t) => {
            out.append(t.as_str());
        },
        None => {
            out.append("Untitled");
        },
    }
    out.append(" (");
    out.append(decimal_text(tab.total_active_ms).as_str());
    out.append("ms)");
    let summary = summary_of_tab(tab);
    if !summary.as_str().is_empty() {
        out.append("\n    ");
        out.append(summary.as_str());
        assert(out@ =~= report_line(tab@));
    } else {
        assert(out@ =~= report_line(tab@));
    }
    out
}

/// The models of a run of texts.
pub open spec fn texts(parts: Seq<String>) -> Seq<Text> {
    Seq::new(parts.len(), |j: int| parts[j]@)
}

/// The parts in a row, with `sep` between each two.
pub open spec fn joined(parts: Seq<Text>, sep: Text) -> Text
    decreases parts.len(),
{
    if parts.len() == 0 {
        Seq::empty()
    } else if parts.len() == 1 {
        parts[0]
    } else {
        joined(parts.drop_last(), sep) + sep + parts.last()
    }
}

/// Puts the parts in a row, with `sep` between each two.
pub fn join_text(parts: &Vec<String>, sep: &str) -> (r: String)
    ensures
        r@ == joined(texts(parts@), sep@),
{
    proof {
        reveal_strlit("");
    }
    let mut out = String::from_str("");
    for i in 0..parts.len()
        invariant
            out@ == joined(texts(parts@).take(i as int), sep@),
    {
        let ghost sofar = texts(parts@).take(i as int);
        let ghost next = texts(parts@).take(i + 1);
        proof {
            assert(next.drop_last() =~= sofar);
            assert(next.last() == parts@[i as int]@);
        }
        if i > 0 {
            out.append(sep);
        }
        out.append(parts[i].as_str());
        proof {
            if i == 0 {
                assert(out@ =~= parts@[0]@);
                assert(next[0] == parts@[0]@);
            }
        }
    }
    assert(texts(parts@).take(parts@.len() as int) =~= texts(parts@));
    out
}

/// The domains of the tabs, each once, in the order in which they first
/// occur.
pub open spec fn domains(tabs: Seq<RecordView>) -> Seq<Text>
    decreases tabs.len(),
{
    if tabs.len() == 0 {
        Seq::empty()
    } else {
        let front = domains(tabs.drop_last());
        let d = tab_domain(tabs.last());
        if front.contains(d) {
            front
        } else {
            front.push(d)
        }
    }
}

/// The report lines of the tabs of one domain, in the order of the tabs.
pub open spec fn domain_lines(tabs: Seq<RecordView>, domain: Text) -> Seq<Text>
    decreases tabs.len(),
{
    if tabs.len() == 0 {
        Seq::empty()
    } else {
        let front = domain_lines(tabs.drop_last(), domain);
        if tab_domain(tabs.last()) == domain {
            front.push(report_line(tabs.last()))
        } else {
            front
        }
    }
}

/// The section of the report on one domain.
pub open spec fn domain_section(tabs: Seq<RecordView>, domain: Text) -> Text {
    "## "@ + domain + "\n"@ + joined(domain_lines(tabs, domain), "\n"@)
}

/// The sections of the report, one for each domain.
pub open spec fn sections(tabs: Seq<RecordView>) -> Seq<Text> {
    Seq::new(domains(tabs).len(), |j: int| domain_section(tabs, domains(tabs)[j]))
}

/// The browsing activity of the report: the tabs grouped by domain.
pub open spec fn activity(tabs: Seq<RecordView>) -> Text {
    joined(sections(tabs), "\n\n"@)
}

/// Whether `wanted` is among `parts`.
fn holds_text(parts: &Vec<String>, wanted: &String) -> (r: bool)
    ensures
        r == texts(parts@).contains(wanted@),
{
    for i in 0..parts.len()
        invariant
            forall|j: int| 0 <= j < i ==> texts(parts@)[j] != wanted@,
    {
        if parts[i] == *wanted {
            assert(texts(parts@)[i as int] == wanted@);
            return true;
        }
    }
    false
}

/// The domains of the tabs, each once, in the order in which they first
/// occur.
pub fn domains_of(tabs: &Vec<TabRecord>) -> (r: Vec<String>)
    ensures
        texts(r@) == domains(views(tabs@)),
{
    let mut out: Vec<String> = Vec::new();
    assert(texts(out@) =~= domains(views(tabs@).take(0)));
    for i in 0..tabs.len()
        invariant
            texts(out@) == domains(views(tabs@).take(i as int)),
    {
        let ghost sofar = views(tabs@).take(i as int);
        let ghost next = views(tabs@).take(i + 1);
        proof {
            assert(next.drop_last() =~= sofar);
            assert(next.last() == tabs@[i as int]@);
        }
        let d = domain_of_tab(&tabs[i]);
        if !holds_text(&out, &d) {
            let ghost before = texts(out@);
            out.push(d);
            assert(texts(out@) =~= before.push(d@));
        }
    }
    assert(views(tabs@).take(tabs@.len() as int) =~= views(tabs@));
    out
}

/// The section of the report on one domain.
pub fn section_of(tabs: &Vec<TabRecord>, domain: &String) -> (r: String)
    ensures
        r@ == domain_section(views(tabs@), domain@),
{
    let mut lines: Vec<String> = Vec::new();
    assert(texts(lines@) =~= domain_lines(views(tabs@).take(0), domain@));
    for i in 0..tabs.len()
        invariant
            texts(lines@) == domain_lines(views(tabs@).take(i as int), domain@),
    {
        let ghost sofar = views(tabs@).take(i as int);
        let ghost next = views(tabs@).take(i + 1);
        proof {
            assert(next.drop_last() =~= sofar);
            assert(next.last() == tabs@[i as int]@);
        }
        let d = domain_of_tab(&tabs[i]);
        if d == *domain {
            let ghost before = texts(lines@);
            let line = line_of_tab(&tabs[i]);
            lines.push(line);
            assert(texts(lines@) =~= before.push(report_line(tabs@[i as int]@)));
        }
    }
    assert(views(tabs@).take(tabs@.len() as int) =~= views(tabs@));
    let mut out = String::from_str("## ");
    out.append(domain.as_str());
    out.append("\n");
    out.append(join_text(&lines, "\n").as_str());
    out
}

/// The browsing activity of the report: the tabs grouped by domain.
pub fn activity_of(tabs: &Vec<TabRecord>) -> (r: String)
    ensures
        r@ == activity(views(tabs@)),
{
    let names = domains_of(tabs);
    let mut parts: Vec<String> = Vec::new();
    for i in 0..names.len()
        invariant
            texts(names@) == domains(views(tabs@)),
            parts@.len() == i,
            forall|j: int|
                0 <= j < i ==> (#[trigger] parts@[j])@ == domain_section(
                    views(tabs@),
                    domains(views(tabs@))[j],
                ),
    {
        assert(texts(names@)[i as int] == names@[i as int]@);
        let section = section_of(tabs, &names[i]);
        parts.push(section);
    }
    assert(texts(parts@) =~= sections(views(tabs@)));
    join_text(&parts, "\n\n")
}

/// How the request to the summarizer opens, before the date.
pub const REPORT_TASK: &'static str = "Generate a concise daily report for ";

/// What the request to the summarizer asks for, behind the date.
pub const REPORT_CONTENTS: &'static str =
    " based on the user's browsing activity.\n\nInclude:\n- Main themes and topics\n- Key activities and progress\n- Open questions or unfinished tasks\n- Suggested follow-ups for tomorrow";

/// What introduces the browsing activity in the request to the summarizer.
pub const REPORT_ACTIVITY_HEADING: &'static str = "\n\nBrowsing activity grouped by domain:\n\n";

/// The request to the summarizer for the day `today`.
pub open spec fn summarizer_request(
    tabs: Seq<RecordView>,
    settings: SettingsView,
    today: Text,
) -> Text {
    REPORT_TASK@ + today + REPORT_CONTENTS@ + context_note(
        "\n\nUser's context and work preferences:\n"@,
        settings.user_context,
    ) + REPORT_ACTIVITY_HEADING@ + activity(tabs)
}

/// The request to the summarizer for the day `today`.
pub fn report_prompt(tabs: &Vec<TabRecord>, settings: &Settings, today: &str) -> (r: String)
    ensures
        r@ == summarizer_request(views(tabs@), settings@, today@),
{
    let note = user_context_note("\n\nUser's context and work preferences:\n", settings);
    let mut out = String::from_str(REPORT_TASK);
    out.append(today);
    out.append(REPORT_CONTENTS);
    out.append(note.as_str());
    out.append(REPORT_ACTIVITY_HEADING);
    out.append(activity_of(tabs).as_str());
    out
}

/// What is to be done for a daily report.
#[derive(Debug, PartialEq, Eq)]
pub enum ReportPlan {
    /// There are no tabs: the report is this text, and nobody is asked.
    Ready(String),
    /// Ask the summarizer, in the given role, with the given request.
    Ask { role: String, request: String },
}

/// Model of what is to be done for a daily report.
pub enum ReportPlanView {
    Ready(Text),
    Ask { role: Text, request: Text },
}

impl View for ReportPlan {
    type V = ReportPlanView;

    open spec fn view(&self) -> ReportPlanView {
        match self {
            ReportPlan::Ready(text) => ReportPlanView::Ready(text@),
            ReportPlan::Ask { role, request } => ReportPlanView::Ask {
                role: role@,
                request: request@,
            },
        }
    }
}

/// What is to be done for the daily report of `today` on the given tabs.
pub open spec fn report_plan(
    tabs: Seq<RecordView>,
    settings: SettingsView,
    today: Text,
) -> ReportPlanView {
    if tabs.len() == 0 {
        ReportPlanView::Ready(NOTHING_TO_REPORT@)
    } else {
        ReportPlanView::Ask {
            role: SUMMARIZER_ROLE@,
            request: summarizer_request(tabs, settings, today),
        }
    }
}

/// Plans the daily report of `today` on the given tabs.
pub fn plan_daily_report(tabs: &Vec<TabRecord>, settings: &Settings, today: &str) -> (r: ReportPlan)
    ensures
        r@ == report_plan(views(tabs@), settings@, today@),
{
    if tabs.len() == 0 {
        ReportPlan::Ready(String::from_str(NOTHING_TO_REPORT))
    } else {
        ReportPlan::Ask {
            role: String::from_str(SUMMARIZER_ROLE),
            request: report_prompt(tabs, settings, today),
        }
    }
}

/// Where the chat completions of the configured endpoint are asked for.
pub open spec fn completions_url(settings: SettingsView) -> Text {
    configured_or(settings.base_url, default_base_url()) + "/chat/completions"@
}

/// Where the chat completions of the configured endpoint are asked for.
pub fn chat_endpoint(settings: &Settings) -> (r: String)
    ensures
        r@ == completions_url(settings@),
{
    let mut out = get_base_url(settings);
    out.append("/chat/completions");
    out
}

/// The authorization that goes with a request, for the given API key.
pub fn bearer_token(api_key: &str) -> (r: String)
    ensures
        r@ == "Bearer "@ + api_key@,
{
    let mut out = String::from_str("Bearer ");
    out.append(api_key);
    out
}

/// What the caller is told when the answer holds no choice.
pub open spec fn no_answer_message() -> Text {
    "No response from API"@
}

/// The answer of a chat completion: the content of its first choice.
pub fn first_choice(choices: &Vec<String>) -> (r: Result<String, String>)
    ensures
        match r {
            Ok(content) => choices@.len() > 0 && content@ == choices@[0]@,
            Err(message) => choices@.len() == 0 && message@ == no_answer_message(),
        },
{
    if choices.len() > 0 {
        Ok(choices[0].clone())
    } else {
        Err(String::from_str("No response from API"))
    }
}

/// One part of the request to the classifier.
#[derive(Debug, PartialEq, Eq)]
pub enum ContentPart {
    /// A piece of text.
    Text(String),
    /// A picture, as a data address.
    ImageUrl(String),
}

/// Model of one part of the request to the classifier.
pub enum ContentPartView {
    Text(Text),
    ImageUrl(Text),
}

impl View for ContentPart {
    type V = ContentPartView;

    open spec fn view(&self) -> ContentPartView {
        match self {
            ContentPart::Text(t) => ContentPartView::Text(t@),
            ContentPart::ImageUrl(u) => ContentPartView::ImageUrl(u@),
        }
    }
}

/// The models of a run of parts.
pub open spec fn part_views(parts: Seq<ContentPart>) -> Seq<ContentPartView> {
    Seq::new(parts.len(), |j: int| parts[j]@)
}

/// The snapshot of the tab at `index`, where the caller could read one.
pub open spec fn shot_at(shots: Seq<Option<Vec<u8>>>, index: int) -> Option<Seq<u8>> {
    if 0 <= index < shots.len() {
        match shots[index] {
            Some(bytes) => Some(bytes@),
            None => None,
        }
    } else {
        None
    }
}

/// The parts that the request holds for one tab: what is known of it, and
/// its snapshot where there is one.
pub open spec fn tab_parts(r: RecordView, shot: Option<Seq<u8>>) -> Seq<ContentPartView> {
    let brief = ContentPartView::Text("\n\n"@ + tab_brief(r));
    match shot {
        Some(bytes) => seq![brief, ContentPartView::ImageUrl(data_url_head() + base64_encoded(bytes))],
        None => seq![brief],
    }
}

/// The parts of the request for the first `upto` tabs, behind the task.
pub open spec fn parts_upto(
    tabs: Seq<RecordView>,
    shots: Seq<Option<Vec<u8>>>,
    settings: SettingsView,
    upto: int,
) -> Seq<ContentPartView>
    decreases upto,
{
    if upto <= 0 {
        seq![ContentPartView::Text(classifier_request(settings))]
    } else {
        parts_upto(tabs, shots, settings, upto - 1) + tab_parts(
            tabs[upto - 1],
            shot_at(shots, upto - 1),
        )
    }
}

/// The request to the classifier: the task, and then, tab by tab, what is
/// known of it and its snapshot.
pub open spec fn classifier_parts(
    tabs: Seq<RecordView>,
    shots: Seq<Option<Vec<u8>>>,
    settings: SettingsView,
) -> Seq<ContentPartView> {
    parts_upto(tabs, shots, settings, tabs.len() as int)
}

/// Builds the request to the classifier. `shots` holds, tab by tab, the
/// bytes of the snapshot where the caller could read them; a tab beyond its
/// end has none.
pub fn classifier_content(
    tabs: &Vec<TabRecord>,
    shots: &Vec<Option<Vec<u8>>>,
    settings: &Settings,
) -> (r: Vec<ContentPart>)
    ensures
        part_views(r@) == classifier_parts(views(tabs@), shots@, settings@),
{
    let mut out: Vec<ContentPart> = Vec::new();
    out.push(ContentPart::Text(classification_prompt(settings)));
    assert(part_views(out@) =~= parts_upto(views(tabs@), shots@, settings@, 0));
    for i in 0..tabs.len()
        invariant
            part_views(out@) == parts_upto(views(tabs@), shots@, settings@, i as int),
    {
        let ghost before = part_views(out@);
        let mut brief = String::from_str("\n\n");
        brief.append(format_tab_for_prompt(&tabs[i]).as_str());
        out.push(ContentPart::Text(brief));
        if i < shots.len() {
            match &shots[i] {
                Some(bytes) => {
                    out.push(ContentPart::ImageUrl(image_data_url(bytes.as_slice())));
                },
                None => {},
            }
        }
        assert(part_views(out@) =~= before + tab_parts(tabs@[i as int]@, shot_at(shots@, i as int)));
    }
    out
}

} // verus!
