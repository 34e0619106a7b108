//! The built-in tools: their names, descriptions and parameter schemas, the
//! registry that announces and finds them, the shared skip-directory filter,
//! and (in the submodules) the pure part of what each tool does.

use vstd::prelude::*;

use crate::llm::ToolDefinition;
use crate::text::{chars_of, concat, range_is};

pub mod bash;
pub mod glob;
pub mod grep;
pub mod read;
pub mod test_verify;
pub mod write;

verus! {

/// The error a tool reports back to the agent.
#[derive(Debug)]
pub enum ToolError {
    Message(String),
}

impl ToolError {
    pub open spec fn text(&self) -> Seq<char> {
        match self {
            ToolError::Message(m) => m@,
        }
    }

    /// The error built from a fixed prefix and a detail.
    pub fn with_detail(prefix: &str, detail: &str) -> (e: ToolError)
        ensures
            e.text() == prefix@ + detail@,
    {
        ToolError::Message(concat(prefix, detail))
    }

    /// The error for a tool whose worker task panicked.
    pub fn task_panicked(detail: &str) -> (e: ToolError)
        ensures
            e.text() == "Task panicked: "@ + detail@,
    {
        ToolError::with_detail("Task panicked: ", detail)
    }

    /// The text shown for the error (its `Display`).
    pub fn message(&self) -> (m: String)
        ensures
            m@ == self.text(),
    {
        match self {
            ToolError::Message(m) => m.clone(),
        }
    }
}

// ---------------------------------------------------------------------------
// Skip-directory filter
// ---------------------------------------------------------------------------

/// Directory names that no tool descends into.
pub open spec fn is_skip_dir(segment: Seq<char>) -> bool {
    ||| segment == "target"@
    ||| segment == ".git"@
    ||| segment == "node_modules"@
    ||| segment == ".cargo"@
}

/// `s[i..j]` is one `/`-delimited segment of the path `s`.
pub open spec fn is_segment(s: Seq<char>, i: int, j: int) -> bool {
    &&& 0 <= i <= j <= s.len()
    &&& (i == 0 || s[i - 1] == '/')
    &&& (j == s.len() || s[j] == '/')
    &&& forall|k: int| i <= k < j ==> s[k] != '/'
}

/// Some component of the path is one of the skipped directories.
pub open spec fn should_skip_spec(s: Seq<char>) -> bool {
    exists|i: int, j: int| is_segment(s, i, j) && is_skip_dir(#[trigger] s.subrange(i, j))
}

fn is_skip_segment(cs: &Vec<char>, lo: usize, hi: usize) -> (b: bool)
    requires
        lo <= hi <= cs.len(),
    ensures
        b == is_skip_dir(cs@.subrange(lo as int, hi as int)),
{
    range_is(cs, lo, hi, "target") || range_is(cs, lo, hi, ".git") || range_is(
        cs,
        lo,
        hi,
        "node_modules",
    ) || range_is(cs, lo, hi, ".cargo")
}

/// Whether a path lies under `target/`, `.git/`, `node_modules/` or
/// `.cargo/`, i.e. whether one of its components is one of those names.
pub fn should_skip(path: &str) -> (b: bool)
    ensures
        b == should_skip_spec(path@),
{
    let cs = chars_of(path);
    let ghost s = path@;
    let n = cs.len();
    let mut start: usize = 0;
    let mut k: usize = 0;
    while k < n
        invariant
            s == path@,
            cs@ == s,
            n == cs.len(),
            start <= k <= n,
            start == 0 || s[start - 1] == '/',
            forall|m: int| start <= m < k ==> s[m] != '/',
            forall|i: int, j: int|
                is_segment(s, i, j) && j < start ==> !is_skip_dir(#[trigger] s.subrange(i, j)),
        decreases n - k,
    {
        if cs[k] == '/' {
            if is_skip_segment(&cs, start, k) {
                assert(is_segment(s, start as int, k as int));
                assert(is_skip_dir(s.subrange(start as int, k as int)));
                return true;
            }
            proof {
                assert forall|i: int, j: int|
                    is_segment(s, i, j) && j < k + 1 implies !is_skip_dir(
                    #[trigger] s.subrange(i, j),
                ) by {
                    if j >= start {
                        if j < k {
                            assert(s[j] == '/');
                        }
                        assert(j == k);
                        if i < start {
                            assert(s[start - 1] == '/');
                        }
                        if i > start {
                            assert(s[i - 1] == '/');
                        }
                        assert(i == start);
                    }
                }
            }
            start = k + 1;
        }
        k = k + 1;
    }
    if is_skip_segment(&cs, start, n) {
        assert(is_segment(s, start as int, n as int));
        assert(is_skip_dir(s.subrange(start as int, n as int)));
        return true;
    }
    proof {
        assert forall|i: int, j: int| is_segment(s, i, j) implies !is_skip_dir(
            #[trigger] s.subrange(i, j),
        ) by {
            if j >= start {
                if j < n {
                    assert(s[j] == '/');
                }
                if i < start {
                    assert(s[start - 1] == '/');
                }
                if i > start {
                    assert(s[i - 1] == '/');
                }
            }
        }
    }
    false
}

// ---------------------------------------------------------------------------
// Parameter schemas
// ---------------------------------------------------------------------------

/// The JSON type of one tool parameter.
#[derive(Debug)]
pub enum ParamKind {
    /// A string.
    Text,
    /// An integer.
    Integer,
    /// An array of strings.
    TextList,
    /// A string restricted to the listed values.
    Choice(Vec<&'static str>),
}

/// One named parameter of a tool.
#[derive(Debug)]
pub struct ParamSpec {
    pub name: &'static str,
    pub kind: ParamKind,
    pub description: &'static str,
}

/// The parameters of a tool: an object with these properties, of which
/// `required` must be present.
#[derive(Debug)]
pub struct ParamSchema {
    pub properties: Vec<ParamSpec>,
    pub required: Vec<&'static str>,
}

pub enum ParamKindView {
    Text,
    Integer,
    TextList,
    Choice(Seq<Seq<char>>),
}

pub struct ParamSpecView {
    pub name: Seq<char>,
    pub kind: ParamKindView,
    pub description: Seq<char>,
}

pub struct ParamSchemaView {
    pub properties: Seq<ParamSpecView>,
    pub required: Seq<Seq<char>>,
}

impl View for ParamKind {
    type V = ParamKindView;

    open spec fn view(&self) -> ParamKindView {
        match self {
            ParamKind::Text => ParamKindView::Text,
            ParamKind::Integer => ParamKindView::Integer,
            ParamKind::TextList => ParamKindView::TextList,
            ParamKind::Choice(v) => ParamKindView::Choice(v.deep_view()),
        }
    }
}

impl View for ParamSpec {
    type V = ParamSpecView;

    open spec fn view(&self) -> ParamSpecView {
        ParamSpecView { name: self.name@, kind: self.kind@, description: self.description@ }
    }
}

impl DeepView for ParamSpec {
    type V = ParamSpecView;

    open spec fn deep_view(&self) -> ParamSpecView {
        self.view()
    }
}

impl View for ParamSchema {
    type V = ParamSchemaView;

    open spec fn view(&self) -> ParamSchemaView {
        ParamSchemaView { properties: self.properties.deep_view(), required: self.required.deep_view() }
    }
}

pub open spec fn param(name: Seq<char>, kind: ParamKindView, description: Seq<char>) -> ParamSpecView {
    ParamSpecView { name, kind, description }
}

pub fn make_param(name: &'static str, kind: ParamKind, description: &'static str) -> (p: ParamSpec)
    ensures
        p@ == param(name@, kind@, description@),
{
    ParamSpec { name, kind, description }
}

// ---------------------------------------------------------------------------
// Tool kinds and the registry
// ---------------------------------------------------------------------------

/// The built-in tools.
#[derive(Clone, Copy, PartialEq, Eq, Debug, Structural)]
pub enum ToolKind {
    ReadFile,
    WriteFile,
    BashExec,
    SearchCode,
    ListFiles,
    TestVerify,
}

/// The name under which a tool is announced and called.
pub open spec fn tool_name(k: ToolKind) -> Seq<char> {
    match k {
        ToolKind::ReadFile => "read_file"@,
        ToolKind::WriteFile => "write_file"@,
        ToolKind::BashExec => "bash_exec"@,
        ToolKind::SearchCode => "search_code"@,
        ToolKind::ListFiles => "list_files"@,
        ToolKind::TestVerify => "test_verify"@,
    }
}

/// What a tool is announced as doing.
pub open spec fn tool_description(k: ToolKind) -> Seq<char> {
    match k {
        ToolKind::ReadFile => "Read a file from the filesystem. Use offset and limit for long files."@,
        ToolKind::WriteFile => "Write or overwrite a file with the given content."@,
        ToolKind::BashExec => "Execute a shell command with an enforced timeout. Returns stdout and stderr."@,
        ToolKind::SearchCode => "Search for a regex pattern in files. Supports file glob filter."@,
        ToolKind::ListFiles => "List files matching a glob pattern. Skips common ignore directories."@,
        ToolKind::TestVerify => "Auto-detect the test framework in the workspace and run tests.Use this after every write_file to verify correctness.Pass changed_files to run targeted tests."@,
    }
}

/// The parameters a tool accepts.
pub open spec fn tool_schema(k: ToolKind) -> ParamSchemaView {
    match k {
        ToolKind::ReadFile => read::read_schema(),
        ToolKind::WriteFile => write::write_schema(),
        ToolKind::BashExec => bash::bash_schema(),
        ToolKind::SearchCode => grep::grep_schema(),
        ToolKind::ListFiles => glob::glob_schema(),
        ToolKind::TestVerify => test_verify::test_verify_schema(),
    }
}

/// The first tool of `tools` called `name`.
pub open spec fn find_tool(tools: Seq<ToolKind>, name: Seq<char>) -> Option<ToolKind>
    decreases tools.len(),
{
    if tools.len() == 0 {
        None
    } else if tool_name(tools[0]) == name {
        Some(tools[0])
    } else {
        find_tool(tools.drop_first(), name)
    }
}

impl ToolKind {
    pub fn name(&self) -> (n: &'static str)
        ensures
            n@ == tool_name(*self),
    {
        match self {
            ToolKind::ReadFile => "read_file",
            ToolKind::WriteFile => "write_file",
            ToolKind::BashExec => "bash_exec",
            ToolKind::SearchCode => "search_code",
            ToolKind::ListFiles => "list_files",
            ToolKind::TestVerify => "test_verify",
        }
    }

    pub fn description(&self) -> (d: &'static str)
        ensures
            d@ == tool_description(*self),
    {
        match self {
            ToolKind::ReadFile => read::ReadFileTool.description(),
            ToolKind::WriteFile => write::WriteFileTool.description(),
            ToolKind::BashExec => bash::BashExecTool.description(),
            ToolKind::SearchCode => grep::SearchCodeTool.description(),
            ToolKind::ListFiles => glob::ListFilesTool.description(),
            ToolKind::TestVerify => test_verify::TestVerifyTool.description(),
        }
    }

    pub fn parameters(&self) -> (p: ParamSchema)
        ensures
            p@ == tool_schema(*self),
    {
        match self {
            ToolKind::ReadFile => read::ReadFileTool.parameters(),
            ToolKind::WriteFile => write::WriteFileTool.parameters(),
            ToolKind::BashExec => bash::BashExecTool.parameters(),
            ToolKind::SearchCode => grep::SearchCodeTool.parameters(),
            ToolKind::ListFiles => glob::ListFilesTool.parameters(),
            ToolKind::TestVerify => test_verify::TestVerifyTool.parameters(),
        }
    }

    /// How the tool is announced to the model.
    pub fn definition(&self) -> (d: ToolDefinition)
        ensures
            d.name@ == tool_name(*self),
            d.description@ == tool_description(*self),
            d.parameters@ == tool_schema(*self),
    {
        ToolDefinition::new(self.name(), self.description(), self.parameters())
    }
}

/// The tools the agent may call, in the order they were registered.
pub struct ToolRegistry {
    tools: Vec<ToolKind>,
}

impl View for ToolRegistry {
    type V = Seq<ToolKind>;

    closed spec fn view(&self) -> Seq<ToolKind> {
        self.tools@
    }
}

impl ToolRegistry {
    pub fn new() -> (r: ToolRegistry)
        ensures
            r@ == Seq::<ToolKind>::empty(),
    {
        ToolRegistry { tools: Vec::new() }
    }

    pub fn register(&mut self, tool: ToolKind)
        ensures
            final(self)@ == old(self)@.push(tool),
    {
        self.tools.push(tool);
    }

    /// A copy of this registry.
    pub fn duplicate(&self) -> (r: ToolRegistry)
        ensures
            r@ == self@,
    {
        let mut tools: Vec<ToolKind> = Vec::new();
        let mut i: usize = 0;
        while i < self.tools.len()
            invariant
                i <= self.tools.len(),
                tools@ == self.tools@.take(i as int),
            decreases self.tools.len() - i,
        {
            tools.push(self.tools[i]);
            assert(self.tools@.take(i as int).push(self.tools@[i as int]) =~= self.tools@.take(i + 1));
            i = i + 1;
        }
        assert(self.tools@.take(self.tools.len() as int) =~= self.tools@);
        ToolRegistry { tools }
    }

    /// The definitions of the registered tools, in registration order.
    pub fn get_definitions(&self) -> (defs: Vec<ToolDefinition>)
        ensures
            defs@.len() == self@.len(),
            forall|i: int|
                0 <= i < defs@.len() ==> {
                    &&& (#[trigger] defs@[i]).name@ == tool_name(self@[i])
                    &&& defs@[i].description@ == tool_description(self@[i])
                    &&& defs@[i].parameters@ == tool_schema(self@[i])
                },
    {
        let mut defs: Vec<ToolDefinition> = Vec::new();
        let mut i: usize = 0;
        while i < self.tools.len()
            invariant
                i <= self.tools.len(),
                defs@.len() == i,
                forall|j: int|
                    0 <= j < i ==> {
                        &&& (#[trigger] defs@[j]).name@ == tool_name(self.tools@[j])
                        &&& defs@[j].description@ == tool_description(self.tools@[j])
                        &&& defs@[j].parameters@ == tool_schema(self.tools@[j])
                    },
            decreases self.tools.len() - i,
        {
            defs.push(self.tools[i].definition());
            i = i + 1;
        }
        defs
    }

    /// The first registered tool called `name`.
    pub fn find_by_name(&self, name: &str) -> (t: Option<ToolKind>)
        ensures
            t == find_tool(self@, name@),
    {
        let mut i: usize = 0;
        assert(self.tools@.skip(0) =~= self.tools@);
        while i < self.tools.len()
            invariant
                i <= self.tools.len(),
                find_tool(self.tools@, name@) == find_tool(self.tools@.skip(i as int), name@),
            decreases self.tools.len() - i,
        {
            let k = self.tools[i];
            assert(self.tools@.skip(i as int)[0] == k);
            assert(self.tools@.skip(i as int).drop_first() =~= self.tools@.skip(i + 1));
            if crate::text::same_text(k.name(), name) {
                return Some(k);
            }
            i = i + 1;
        }
        None
    }
}

/// Registering a tool keeps every name that was already found, and makes
/// the new tool findable under its name when no earlier tool had it.
pub proof fn lemma_register_then_find(tools: Seq<ToolKind>, tool: ToolKind, name: Seq<char>)
    ensures
        find_tool(tools, name) is Some ==> find_tool(tools.push(tool), name) == find_tool(
            tools,
            name,
        ),
        (find_tool(tools, name) is None && tool_name(tool) == name) ==> find_tool(
            tools.push(tool),
            name,
        ) == Some(tool),
        (find_tool(tools, name) is None && tool_name(tool) != name) ==> find_tool(
            tools.push(tool),
            name,
        ) is None,
    decreases tools.len(),
{
    if tools.len() > 0 {
        assert(tools.push(tool)[0] == tools[0]);
        assert(tools.push(tool).drop_first() =~= tools.drop_first().push(tool));
        lemma_register_then_find(tools.drop_first(), tool, name);
    } else {
        assert(tools.push(tool)[0] == tool);
        assert(tools.push(tool).drop_first() =~= Seq::<ToolKind>::empty());
        assert(find_tool(tools.push(tool).drop_first(), name) is None);
    }
}

/// The built-in tools have distinct names, so each is found by its own
/// name in the default registry.
pub proof fn lemma_default_tools_found(k: ToolKind)
    ensures
        find_tool(
            seq![
                ToolKind::ReadFile,
                ToolKind::WriteFile,
                ToolKind::BashExec,
                ToolKind::SearchCode,
                ToolKind::ListFiles,
                ToolKind::TestVerify,
            ],
            tool_name(k),
        ) == Some(k),
{
    reveal_strlit("read_file");
    reveal_strlit("write_file");
    reveal_strlit("bash_exec");
    reveal_strlit("search_code");
    reveal_strlit("list_files");
    reveal_strlit("test_verify");
    let names = seq![
        "read_file"@,
        "write_file"@,
        "bash_exec"@,
        "search_code"@,
        "list_files"@,
        "test_verify"@,
    ];
    assert(names[0][0] == 'r' && names[1][0] == 'w' && names[2][0] == 'b' && names[3][0] == 's'
        && names[4][0] == 'l' && names[5][0] == 't');
    let s = seq![
        ToolKind::ReadFile,
        ToolKind::WriteFile,
        ToolKind::BashExec,
        ToolKind::SearchCode,
        ToolKind::ListFiles,
        ToolKind::TestVerify,
    ];
    let s1 = s.drop_first();
    let s2 = s1.drop_first();
    let s3 = s2.drop_first();
    let s4 = s3.drop_first();
    let s5 = s4.drop_first();
    assert(s1 =~= seq![
        ToolKind::WriteFile,
        ToolKind::BashExec,
        ToolKind::SearchCode,
        ToolKind::ListFiles,
        ToolKind::TestVerify,
    ]);
    assert(s2 =~= seq![ToolKind::BashExec, ToolKind::SearchCode, ToolKind::ListFiles, ToolKind::TestVerify]);
    assert(s3 =~= seq![ToolKind::SearchCode, ToolKind::ListFiles, ToolKind::TestVerify]);
    assert(s4 =~= seq![ToolKind::ListFiles, ToolKind::TestVerify]);
    assert(s5 =~= seq![ToolKind::TestVerify]);
    let n = tool_name(k);
    assert(n[0] == tool_name(s[0])[0] ==> k == ToolKind::ReadFile);
    assert(find_tool(s, n) == if k == ToolKind::ReadFile { Some(k) } else { find_tool(s1, n) });
    assert(find_tool(s1, n) == if k == ToolKind::WriteFile { Some(k) } else { find_tool(s2, n) });
    assert(find_tool(s2, n) == if k == ToolKind::BashExec { Some(k) } else { find_tool(s3, n) });
    assert(find_tool(s3, n) == if k == ToolKind::SearchCode { Some(k) } else { find_tool(s4, n) });
    assert(find_tool(s4, n) == if k == ToolKind::ListFiles { Some(k) } else { find_tool(s5, n) });
    assert(k == ToolKind::TestVerify ==> find_tool(s5, n) == Some(k));
}

/// The registry with every built-in tool, in the order they are announced.
pub fn default_tools() -> (r: ToolRegistry)
    ensures
        r@ == seq![
            ToolKind::ReadFile,
            ToolKind::WriteFile,
            ToolKind::BashExec,
            ToolKind::SearchCode,
            ToolKind::ListFiles,
            ToolKind::TestVerify,
        ],
{
    let mut r = ToolRegistry::new();
    r.register(ToolKind::ReadFile);
    r.register(ToolKind::WriteFile);
    r.register(ToolKind::BashExec);
    r.register(ToolKind::SearchCode);
    r.register(ToolKind::ListFiles);
    r.register(ToolKind::TestVerify);
    r
}

} // verus!
