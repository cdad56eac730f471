//! The server front end: what it starts with, and what it lists.

use vstd::prelude::*;

use crate::{catalogue, path, text};
use crate::catalogue::{is_spend_tool, ToolInfo, ToolView};
use crate::context::{ContextError, McpContext, Network};
use crate::path::{join_path, path_of, same_path};
use crate::policy::{PolicyView, SpendLimits, SpendPolicy};
use crate::runs::RegistryView;
use crate::server::AxeMcp;
use crate::text::{chars_of, decimal_text, fold_whitespace, text_between};

verus! {

/// The file in which a lifetime budget is accounted for, next to the reports
/// that it accounts for.
pub const SPEND_LEDGER: &'static str = "spend-ledger.json";

// ---------------------------------------------------------------------------
// Where reports land
// ---------------------------------------------------------------------------

/// Calls `dirs::data_dir`. What it gives depends on the environment of the
/// process, so nothing is claimed of it.
#[verifier::external_body]
fn data_dir() -> (dir: Option<std::path::PathBuf>) {
    dirs::data_dir()
}

/// The reports directory under a data directory, or under the working
/// directory where there is none.
pub open spec fn report_dir_under(data_dir: Option<std::path::PathBuf>) -> std::path::PathBuf {
    let base = match data_dir {
        Some(dir) => dir,
        None => path::path_from("."@),
    };
    path::path_joined(path::path_joined(base, "axe"@), "load-test-runs"@)
}

/// The reports directory under a data directory, or under the working
/// directory where there is none.
pub fn report_dir_at(found: Option<std::path::PathBuf>) -> (dir: std::path::PathBuf)
    ensures
        dir == report_dir_under(found),
{
    let base = match found {
        Some(dir) => dir,
        None => path_of("."),
    };
    let axe = join_path(&base, "axe");
    join_path(&axe, "load-test-runs")
}

/// Where the reports written by this server land. A client-launched server
/// inherits whatever directory the client chose, so they are anchored under
/// the per-user data directory.
pub fn report_dir() -> (dir: std::path::PathBuf)
    ensures
        exists|found: Option<std::path::PathBuf>| dir == #[trigger] report_dir_under(found),
{
    let found = data_dir();
    report_dir_at(found)
}

// ---------------------------------------------------------------------------
// Starting
// ---------------------------------------------------------------------------

/// Where the server listens.
#[derive(Debug)]
pub enum Endpoint {
    Stdio,
    Http { listen: String, token: String },
}

impl Endpoint {
    /// What an endpoint is shown as.
    pub open spec fn shown(self) -> Seq<char> {
        match self {
            Endpoint::Stdio => "stdio"@,
            Endpoint::Http { listen, token } => "http://"@ + listen@ + "/mcp"@,
        }
    }

    /// Shows an endpoint, without its token.
    pub fn show(&self) -> (shown: String)
        ensures
            shown@ == self.shown(),
    {
        match self {
            Endpoint::Stdio => "stdio".to_owned(),
            Endpoint::Http { listen, .. } => {
                let mut shown = "http://".to_owned();
                shown.append(listen.as_str());
                shown.append("/mcp");
                shown
            },
        }
    }
}

/// What is recorded when a server starts.
#[derive(Debug)]
pub struct Startup {
    pub network: Network,
    pub endpoint: String,
    pub caps: String,
    pub reports_dir: std::path::PathBuf,
}

/// A server that is ready to serve.
pub struct Ready {
    pub server: AxeMcp,
    pub startup: Startup,
}

/// Where the spend ledger of a reports directory lies.
pub fn ledger_path(reports_dir: &std::path::PathBuf) -> (path: std::path::PathBuf)
    ensures
        path == path::path_joined(*reports_dir, SPEND_LEDGER@),
        path == path::path_joined(*reports_dir, "spend-ledger.json"@),
{
    join_path(reports_dir, SPEND_LEDGER)
}

/// Makes the server, or refuses to. The network and the spend limits are taken
/// once, here, and held for the life of the process; what earlier sessions
/// spent is carried over.
pub fn serve(
    network: Network,
    allow_mainnet: bool,
    limits: SpendLimits,
    spent: u64,
    endpoint: &Endpoint,
    reports_dir: std::path::PathBuf,
) -> (ready: Result<Ready, ContextError>)
    ensures
        ready is Err <==> network == Network::Mainnet && !allow_mainnet,
        ready matches Err(error) ==> error == ContextError::MainnetRefused,
        ready matches Ok(made) ==> {
            let policy = PolicyView { limits, reserved: spent as nat };
            &&& made.server@.network == network
            &&& made.server@.policy == policy
            &&& made.server@.runs == (RegistryView {
                reports_dir,
                flights: Seq::empty(),
            })
            &&& made.server@.wf()
            &&& made.startup.network == network
            &&& made.startup.endpoint@ == endpoint.shown()
            &&& made.startup.caps@ == policy.description()
            &&& made.startup.reports_dir == reports_dir
        },
{
    let policy = SpendPolicy::resumed(limits, spent);
    match McpContext::new(network, allow_mainnet, same_path(&reports_dir), policy) {
        Ok(context) => {
            let startup = Startup {
                network,
                endpoint: endpoint.show(),
                caps: context.policy().describe(),
                reports_dir,
            };
            Ok(Ready { server: AxeMcp::new(context), startup })
        },
        Err(error) => Err(error),
    }
}

// ---------------------------------------------------------------------------
// Listing
// ---------------------------------------------------------------------------

/// Whether the first full stop that a space follows stands at a place.
pub open spec fn first_stop(s: Seq<char>, k: int) -> bool {
    &&& 0 <= k
    &&& k + 1 < s.len()
    &&& s[k] == '.'
    &&& s[k + 1] == ' '
    &&& forall|i: int| 0 <= i < k ==> !(#[trigger] s[i] == '.' && s[i + 1] == ' ')
}

/// A text up to its first full stop that a space follows, or all of it.
pub open spec fn upto_first_stop(s: Seq<char>) -> Seq<char> {
    if exists|k: int| first_stop(s, k) {
        let k = choose|k: int| first_stop(s, k);
        s.take(k + 1)
    } else {
        s
    }
}

/// The first sentence of a text, its white space folded.
pub open spec fn first_sentence_spec(s: Seq<char>) -> Seq<char> {
    upto_first_stop(text::spaced(text::words(s)))
}

/// Up to the first full stop, with line breaks folded.
pub fn first_sentence(text: &str) -> (sentence: String)
    ensures
        sentence@ == first_sentence_spec(text@),
{
    let folded = fold_whitespace(text);
    let chars = chars_of(folded.as_str());
    let ghost s = folded@;
    let n: usize = chars.len();
    let mut i: usize = 0;
    while i < n
        invariant
            s == text::spaced(text::words(text@)),
            chars@ == s,
            n == chars@.len(),
            i <= n,
            forall|j: int|
                0 <= j < i ==> !(#[trigger] s[j] == '.' && j + 1 < s.len() && s[j + 1] == ' '),
        decreases n - i,
    {
        if chars[i] == '.' && i + 1 < n && chars[i + 1] == ' ' {
            proof {
                assert(first_stop(s, i as int));
                let k = choose|k: int| first_stop(s, k);
                assert(k == i) by {
                    if k < i {
                        assert(s[k] == '.');
                    } else if i < k {
                        assert(s[i as int] == '.');
                    }
                }
                assert(s.take(i + 1) =~= s.subrange(0, i + 1));
            }
            return text_between(&chars, 0, i + 1);
        }
        i = i + 1;
    }
    proof {
        if exists|k: int| first_stop(s, k) {
            let k = choose|k: int| first_stop(s, k);
            assert(s[k] == '.');
        }
    }
    folded
}

/// A first sentence stands on one line: of all white space it holds spaces
/// only.
pub proof fn law_a_first_sentence_stands_on_one_line(s: Seq<char>, i: int)
    requires
        0 <= i < first_sentence_spec(s).len(),
        text::is_white(first_sentence_spec(s)[i]),
    ensures
        first_sentence_spec(s)[i] == ' ',
{
    let folded = text::spaced(text::words(s));
    assert(first_sentence_spec(s)[i] == folded[i]);
    text::lemma_words_are_free_of_white(s);
    text::lemma_spaced_holds_spaces_only(text::words(s), i);
}

/// A documentation resource that the server offers.
#[derive(Debug)]
pub struct ResourceInfo {
    pub uri: String,
    pub name: String,
    pub description: Option<String>,
}

/// A line of the listing.
#[derive(Debug)]
pub enum ListLine {
    Section(String),
    Pair { key: String, value: String },
}

/// A line of the listing, as a value.
#[verifier::ext_equal]
pub enum LineView {
    Section(Seq<char>),
    Pair(Seq<char>, Seq<char>),
}

impl View for ListLine {
    type V = LineView;

    open spec fn view(&self) -> LineView {
        match self {
            ListLine::Section(title) => LineView::Section(title@),
            ListLine::Pair { key, value } => LineView::Pair(key@, value@),
        }
    }
}

/// The heading of a section of so many entries.
pub open spec fn heading(title: Seq<char>, count: nat) -> LineView {
    LineView::Section(title + " ("@ + text::decimal(count) + ")"@)
}

/// The line of a tool: its name, a mark if it spends, and its first sentence.
pub open spec fn tool_line(tool: ToolView) -> LineView {
    LineView::Pair(
        tool.name,
        (if catalogue::spends(tool.name) {
            "[spends funds] "@
        } else {
            ""@
        }) + first_sentence_spec(tool.description),
    )
}

/// The line of a documentation resource.
pub open spec fn resource_line(resource: ResourceInfo) -> LineView {
    LineView::Pair(
        resource.uri@,
        resource.name@ + ": "@ + (match resource.description {
            Some(description) => description@,
            None => ""@,
        }),
    )
}

/// The listing: every tool, then every resource.
pub open spec fn listing(tools: Seq<ToolView>, resources: Seq<ResourceInfo>) -> Seq<LineView> {
    seq![heading("Tools"@, tools.len())] + tools.map_values(|t: ToolView| tool_line(t)) + seq![
        heading("Resources"@, resources.len()),
    ] + resources.map_values(|r: ResourceInfo| resource_line(r))
}

fn show_heading(title: &str, count: usize) -> (line: ListLine)
    ensures
        line@ == heading(title@, count as nat),
{
    let mut shown = title.to_owned();
    shown.append(" (");
    shown.append(decimal_text(count as u64).as_str());
    shown.append(")");
    ListLine::Section(shown)
}

fn show_tool(tool: &ToolInfo) -> (line: ListLine)
    ensures
        line@ == tool_line(tool@),
{
    let mut value = if is_spend_tool(tool.name) {
        "[spends funds] ".to_owned()
    } else {
        "".to_owned()
    };
    value.append(first_sentence(tool.description).as_str());
    ListLine::Pair { key: tool.name.to_owned(), value }
}

fn show_resource(resource: &ResourceInfo) -> (line: ListLine)
    ensures
        line@ == resource_line(*resource),
{
    let mut value = resource.name.clone();
    value.append(": ");
    value.append(
        match &resource.description {
            Some(description) => description.as_str(),
            None => "",
        },
    );
    ListLine::Pair { key: resource.uri.clone(), value }
}

/// What the server offers: every tool with the first sentence of its
/// description, and every documentation resource.
pub fn list(resources: &Vec<ResourceInfo>) -> (lines: Vec<ListLine>)
    ensures
        lines@.map_values(|l: ListLine| l@) == listing(catalogue::tools(), resources@),
{
    let tools = AxeMcp::catalogue();
    let ghost views = tools@.map_values(|t: ToolInfo| t@);
    let ghost head = seq![heading("Tools"@, views.len())];
    let mut lines: Vec<ListLine> = Vec::new();
    lines.push(show_heading("Tools", tools.len()));
    assert(lines@.map_values(|l: ListLine| l@) =~= head + views.take(0).map_values(
        |t: ToolView| tool_line(t),
    ));
    let mut i: usize = 0;
    while i < tools.len()
        invariant
            views == tools@.map_values(|t: ToolInfo| t@),
            i <= tools@.len(),
            lines@.map_values(|l: ListLine| l@) == head + views.take(i as int).map_values(
                |t: ToolView| tool_line(t),
            ),
        decreases tools.len() - i,
    {
        let ghost before = lines@.map_values(|l: ListLine| l@);
        let line = show_tool(&tools[i]);
        let ghost shown = line@;
        lines.push(line);
        assert(lines@.map_values(|l: ListLine| l@) =~= before.push(shown));
        assert(head + views.take(i + 1).map_values(|t: ToolView| tool_line(t)) =~= (head
            + views.take(i as int).map_values(|t: ToolView| tool_line(t))).push(shown));
        i = i + 1;
    }
    assert(views.take(views.len() as int) =~= views);
    let ghost upper = head + views.map_values(|t: ToolView| tool_line(t)) + seq![
        heading("Resources"@, resources@.len()),
    ];
    let ghost before = lines@.map_values(|l: ListLine| l@);
    lines.push(show_heading("Resources", resources.len()));
    assert(lines@.map_values(|l: ListLine| l@) =~= upper + resources@.take(0).map_values(
        |r: ResourceInfo| resource_line(r),
    ));
    let mut j: usize = 0;
    while j < resources.len()
        invariant
            j <= resources@.len(),
            lines@.map_values(|l: ListLine| l@) == upper + resources@.take(j as int).map_values(
                |r: ResourceInfo| resource_line(r),
            ),
        decreases resources.len() - j,
    {
        let ghost before = lines@.map_values(|l: ListLine| l@);
        let line = show_resource(&resources[j]);
        let ghost shown = line@;
        lines.push(line);
        assert(lines@.map_values(|l: ListLine| l@) =~= before.push(shown));
        assert(upper + resources@.take(j + 1).map_values(|r: ResourceInfo| resource_line(r)) =~= (
        upper + resources@.take(j as int).map_values(|r: ResourceInfo| resource_line(r))).push(
            shown,
        ));
        j = j + 1;
    }
    assert(resources@.take(resources@.len() as int) =~= resources@);
    lines
}

// ---------------------------------------------------------------------------
// What is shown
// ---------------------------------------------------------------------------

/// Reports lie in a directory of their own under the data directory, and where
/// there is none as if it were the working directory.
pub proof fn law_reports_lie_under_the_data_directory(data_dir: std::path::PathBuf)
    ensures
        report_dir_under(Some(data_dir)) == path::path_joined(
            path::path_joined(data_dir, "axe"@),
            "load-test-runs"@,
        ),
        report_dir_under(None) == report_dir_under(Some(path::path_from("."@))),
{
}

/// What an endpoint is shown as does not depend on its token, and holds the
/// address that it listens on.
pub proof fn law_an_endpoint_never_shows_its_token(listen: String, token: String, other: String)
    ensures
        (Endpoint::Http { listen, token }).shown() == (Endpoint::Http {
            listen,
            token: other,
        }).shown(),
        ("http://"@ + listen@).is_prefix_of((Endpoint::Http { listen, token }).shown()),
        "/mcp"@.is_suffix_of((Endpoint::Http { listen, token }).shown()),
        (Endpoint::Http { listen, token }).shown().len() == listen@.len() + 11,
        Endpoint::Stdio.shown() == "stdio"@,
{
    reveal_strlit("http://");
    reveal_strlit("/mcp");
    text::lemma_affixes("http://"@ + listen@, "/mcp"@);
}

/// A text is cut right after its first full stop that a space follows, and is
/// kept whole where there is none.
pub proof fn law_a_sentence_ends_at_the_first_stop(s: Seq<char>)
    ensures
        upto_first_stop(s).is_prefix_of(s),
        !text::holds(upto_first_stop(s), ". "@),
        upto_first_stop(s) == s || {
            let n = upto_first_stop(s).len() as int;
            &&& 0 < n < s.len()
            &&& s[n - 1] == '.'
            &&& s[n] == ' '
        },
{
    reveal_strlit(". ");
    let cut = upto_first_stop(s);
    if exists|k: int| first_stop(s, k) {
        let k = choose|k: int| first_stop(s, k);
        assert(cut =~= s.subrange(0, k + 1));
    } else {
        assert(cut =~= s.subrange(0, s.len() as int));
    }
    if text::holds(cut, ". "@) {
        let i = choose|i: int|
            0 <= i && i + ". "@.len() <= cut.len() && #[trigger] cut.subrange(i, i + ". "@.len())
                == ". "@;
        assert(". "@[0] == '.' && ". "@[1] == ' ');
        assert(cut.subrange(i, i + 2)[0] == s[i]);
        assert(cut.subrange(i, i + 2)[1] == s[i + 1]);
        lemma_some_stop_is_first(s, i);
        let k = choose|k: int| first_stop(s, k);
        assert(s[i] == '.');
    }
}

proof fn lemma_some_stop_is_first(s: Seq<char>, i: int)
    requires
        0 <= i,
        i + 1 < s.len(),
        s[i] == '.',
        s[i + 1] == ' ',
    ensures
        exists|k: int| first_stop(s, k),
    decreases i,
{
    if exists|j: int| 0 <= j < i && #[trigger] s[j] == '.' && s[j + 1] == ' ' {
        let j = choose|j: int| 0 <= j < i && #[trigger] s[j] == '.' && s[j + 1] == ' ';
        lemma_some_stop_is_first(s, j);
    } else {
        assert(first_stop(s, i));
    }
}

/// The first sentence of a text is the start of its words, one space between
/// each two, up to its first full stop.
pub proof fn law_a_first_sentence_starts_the_text(s: Seq<char>)
    ensures
        first_sentence_spec(s).is_prefix_of(text::spaced(text::words(s))),
        !text::holds(first_sentence_spec(s), ". "@),
        first_sentence_spec(s) == text::spaced(text::words(s)) || (first_sentence_spec(s).len() > 0
            && first_sentence_spec(s).last() == '.'),
{
    law_a_sentence_ends_at_the_first_stop(text::spaced(text::words(s)));
    let folded = text::spaced(text::words(s));
    let cut = first_sentence_spec(s);
    if cut != folded {
        assert(cut =~= folded.subrange(0, cut.len() as int));
        assert(cut.last() == folded[cut.len() - 1]);
    }
}

/// A line of the listing shows the text that it was made of, under its kind.
pub proof fn law_a_line_stands_for_its_text(line: ListLine)
    ensures
        line matches ListLine::Section(title) ==> line@ == LineView::Section(title@),
        line matches ListLine::Pair { key, value } ==> line@ == LineView::Pair(key@, value@),
{
}

/// A heading shows its title, then how many entries follow, in brackets.
pub proof fn law_a_heading_counts_its_entries(title: Seq<char>, count: nat)
    ensures
        heading(title, count) matches LineView::Section(shown) && {
            &&& title.is_prefix_of(shown)
            &&& (" ("@ + text::decimal(count) + ")"@).is_suffix_of(shown)
            &&& shown.len() == title.len() + text::decimal(count).len() + 3
        },
{
    reveal_strlit(" (");
    reveal_strlit(")");
    let tail = " ("@ + text::decimal(count) + ")"@;
    assert(title + " ("@ + text::decimal(count) + ")"@ =~= title + tail);
    text::lemma_affixes(title, tail);
}

/// A tool is listed under its name with the first sentence of what it is for,
/// which a mark precedes exactly where it is the tool that spends.
pub proof fn law_a_tool_is_marked_where_it_spends(tool: ToolView)
    ensures
        tool_line(tool) matches LineView::Pair(key, value) && {
            &&& key == tool.name
            &&& first_sentence_spec(tool.description).is_suffix_of(value)
            &&& tool.name == "start_load_test"@ ==> value == "[spends funds] "@
                + first_sentence_spec(tool.description)
            &&& tool.name != "start_load_test"@ ==> value == first_sentence_spec(tool.description)
        },
{
    reveal_strlit("");
    catalogue::law_only_the_load_test_spends(tool.name);
    let sentence = first_sentence_spec(tool.description);
    assert(""@ + sentence =~= sentence);
    text::lemma_affixes("[spends funds] "@, sentence);
    text::lemma_affixes(""@, sentence);
}

/// A resource is listed under its address, with its name and then what it is
/// described as, if it is.
pub proof fn law_a_resource_is_listed_under_its_address(resource: ResourceInfo)
    ensures
        resource_line(resource) matches LineView::Pair(key, value) && {
            &&& key == resource.uri@
            &&& (resource.name@ + ": "@).is_prefix_of(value)
            &&& resource.description matches Some(description) ==> value == resource.name@ + ": "@
                + description@
            &&& resource.description is None ==> value == resource.name@ + ": "@
        },
{
    reveal_strlit("");
    let head = resource.name@ + ": "@;
    assert(head + ""@ =~= head);
    if let Some(description) = resource.description {
        text::lemma_affixes(head, description@);
    } else {
        text::lemma_affixes(head, ""@);
    }
}

/// The listing holds a line for every tool and for every resource, in order,
/// after a heading that counts them, and nothing else.
pub proof fn law_everything_offered_is_listed(
    tools: Seq<ToolView>,
    resources: Seq<ResourceInfo>,
    i: int,
    j: int,
)
    ensures
        listing(tools, resources).len() == tools.len() + resources.len() + 2,
        listing(tools, resources)[0] == heading("Tools"@, tools.len()),
        0 <= i < tools.len() ==> listing(tools, resources)[1 + i] == tool_line(tools[i]),
        listing(tools, resources)[tools.len() as int + 1] == heading("Resources"@, resources.len()),
        0 <= j < resources.len() ==> listing(tools, resources)[2 + tools.len() + j]
            == resource_line(resources[j]),
{
}

} // verus!
