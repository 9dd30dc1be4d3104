use crate::error::{outcome_view, AgentyError, ErrorView};
use vstd::prelude::*;

verus! {

/// What a tool advertises to the model.
#[derive(Debug, PartialEq, Eq)]
pub struct ToolDescriptor {
    pub name: String,
    pub description: Option<String>,
    /// JSON schema of the arguments, as text.
    pub parameters: String,
    pub strict: bool,
}

pub struct ToolDescriptorView {
    pub name: Seq<char>,
    pub description: Option<Seq<char>>,
    pub parameters: Seq<char>,
    pub strict: bool,
}

impl View for ToolDescriptor {
    type V = ToolDescriptorView;

    open spec fn view(&self) -> ToolDescriptorView {
        ToolDescriptorView {
            name: self.name@,
            description: match self.description {
                Some(d) => Some(d@),
                None => None,
            },
            parameters: self.parameters@,
            strict: self.strict,
        }
    }
}

/// A tool with a typed argument shape.
///
/// `descriptor` says how the tool is advertised, `parse` turns the raw JSON
/// arguments of a call into `Arguments`, and `invoke` runs the tool on them.
/// A tool that meets an expected problem (a missing file, say) should answer
/// `Ok` with a text that describes it, so that the model reads about the
/// problem instead of the loop ending.
///
/// The three spec functions say which answers the three methods can give. A
/// tool that does not define them allows every answer.
pub trait Tool: Sized {
    type Arguments;

    /// The descriptors that `descriptor` can answer.
    open spec fn describes(descriptor: ToolDescriptorView) -> bool {
        true
    }

    /// The outcomes that parsing `raw` can have: the arguments, or the
    /// parser's message.
    open spec fn parses(raw: Seq<char>, outcome: Result<Self::Arguments, Seq<char>>) -> bool {
        true
    }

    /// The outcomes that running the tool on `arguments` can have.
    open spec fn invokes(
        &self,
        arguments: Self::Arguments,
        outcome: Result<Seq<char>, ErrorView>,
    ) -> bool {
        true
    }

    fn descriptor() -> (r: ToolDescriptor)
        ensures
            Self::describes(r@),
    ;

    fn parse(raw: &str) -> (r: Result<Self::Arguments, String>)
        ensures
            Self::parses(raw@, parse_view(r)),
    ;

    fn invoke(&self, arguments: Self::Arguments) -> (r: Result<String, AgentyError>)
        ensures
            self.invokes(arguments, outcome_view(r)),
    ;
}

/// The value of a parse outcome: the arguments, or the message as a sequence.
pub open spec fn parse_view<A>(r: Result<A, String>) -> Result<A, Seq<char>> {
    match r {
        Ok(a) => Ok(a),
        Err(m) => Err(m@),
    }
}

/// The outcomes of calling `tool` with the raw arguments `raw`: a parse
/// failure becomes `IncorrectToolCall` with the advertised schema and the raw
/// text, a parse success hands the arguments to `invoke`, whose outcome is
/// returned.
pub open spec fn call_outcome<T: Tool>(
    tool: &T,
    raw: Seq<char>,
    outcome: Result<Seq<char>, ErrorView>,
) -> bool {
    ||| exists|m: Seq<char>, d: ToolDescriptorView|
        {
            &&& #[trigger] T::parses(raw, Err(m))
            &&& #[trigger] T::describes(d)
            &&& outcome == Err::<Seq<char>, ErrorView>(
                ErrorView::IncorrectToolCall(d.parameters, raw),
            )
        }
    ||| exists|a: T::Arguments| #[trigger] T::parses(raw, Ok(a)) && tool.invokes(a, outcome)
}

/// Calls a typed tool with raw JSON arguments.
pub fn call_tool<T: Tool>(tool: &T, arguments: String) -> (r: Result<String, AgentyError>)
    ensures
        call_outcome(tool, arguments@, outcome_view(r)),
{
    match T::parse(arguments.as_str()) {
        Ok(args) => {
            let r = tool.invoke(args);
            assert(T::parses(arguments@, Ok(args)));
            r
        },
        Err(message) => {
            let d = T::descriptor();
            assert(T::parses(arguments@, Err(message@)) && T::describes(d@));
            Err(AgentyError::IncorrectToolCall(d.parameters, arguments))
        },
    }
}

/// A tool as the registry sees it: a name, a descriptor, and a call on raw
/// JSON arguments.
///
/// The three spec functions say which answers the three methods can give. A
/// tool that does not define them allows every answer.
pub trait ToolDyn {
    /// The names that `name` can answer.
    open spec fn named(&self, name: Seq<char>) -> bool {
        true
    }

    /// The descriptors that `to_openai_obejct` can answer.
    open spec fn advertises(&self, descriptor: ToolDescriptorView) -> bool {
        true
    }

    /// The outcomes that a call with the given raw arguments can have.
    open spec fn may_return(
        &self,
        arguments: Seq<char>,
        outcome: Result<Seq<char>, ErrorView>,
    ) -> bool {
        true
    }

    fn name(&self) -> (r: String)
        ensures
            self.named(r@),
    ;

    fn to_openai_obejct(&self) -> (r: ToolDescriptor)
        ensures
            self.advertises(r@),
    ;

    fn call(&self, arguments: String) -> (r: Result<String, AgentyError>)
        ensures
            self.may_return(arguments@, outcome_view(r)),
    ;
}

impl<T: Tool> ToolDyn for T {
    open spec fn named(&self, name: Seq<char>) -> bool {
        exists|d: ToolDescriptorView| #[trigger] T::describes(d) && d.name == name
    }

    open spec fn advertises(&self, descriptor: ToolDescriptorView) -> bool {
        T::describes(descriptor)
    }

    open spec fn may_return(
        &self,
        arguments: Seq<char>,
        outcome: Result<Seq<char>, ErrorView>,
    ) -> bool {
        call_outcome(self, arguments, outcome)
    }

    fn name(&self) -> (r: String) {
        let d = T::descriptor();
        assert(T::describes(d@));
        d.name
    }

    fn to_openai_obejct(&self) -> (r: ToolDescriptor) {
        T::descriptor()
    }

    fn call(&self, arguments: String) -> (r: Result<String, AgentyError>) {
        call_tool(self, arguments)
    }
}

/// A tool with the name it was registered under.
struct Entry<D> {
    name: String,
    tool: D,
}

/// No two tools of `tools` share a name.
spec fn distinct_names<D>(tools: Seq<Entry<D>>) -> bool {
    forall|i: int, j: int| 0 <= i < j < tools.len() ==> tools[i].name@ != tools[j].name@
}

spec fn holds<D>(tools: Seq<Entry<D>>, name: Seq<char>) -> bool {
    exists|i: int| 0 <= i < tools.len() && #[trigger] tools[i].name@ == name
}

spec fn position<D>(tools: Seq<Entry<D>>, name: Seq<char>) -> int {
    choose|i: int| 0 <= i < tools.len() && #[trigger] tools[i].name@ == name
}

/// The map from name to tool that a sequence of entries stands for.
spec fn registry<D>(tools: Seq<Entry<D>>) -> Map<Seq<char>, D> {
    Map::new(
        |name: Seq<char>| holds(tools, name),
        |name: Seq<char>| tools[position(tools, name)].tool,
    )
}

proof fn lemma_position<D>(tools: Seq<Entry<D>>, k: int)
    requires
        distinct_names(tools),
        0 <= k < tools.len(),
    ensures
        holds(tools, tools[k].name@),
        position(tools, tools[k].name@) == k,
        registry(tools).contains_key(tools[k].name@),
        registry(tools)[tools[k].name@] == tools[k].tool,
{
    let name = tools[k].name@;
    assert(holds(tools, name));
    let p = position(tools, name);
    assert(0 <= p < tools.len() && tools[p].name@ == name);
    if p < k {
        assert(tools[p].name@ != tools[k].name@);
    } else if k < p {
        assert(tools[k].name@ != tools[p].name@);
    }
}

proof fn lemma_replace<D>(tools: Seq<Entry<D>>, k: int, tool: Entry<D>)
    requires
        distinct_names(tools),
        0 <= k < tools.len(),
        tools[k].name@ == tool.name@,
    ensures
        distinct_names(tools.update(k, tool)),
        registry(tools.update(k, tool)) == registry(tools).insert(tool.name@, tool.tool),
{
    let after = tools.update(k, tool);
    assert(distinct_names(after)) by {
        assert forall|i: int, j: int| 0 <= i < j < after.len() implies after[i].name@
            != after[j].name@ by {
            assert(tools[i].name@ != tools[j].name@);
        }
    }
    let want = registry(tools).insert(tool.name@, tool.tool);
    assert forall|name: Seq<char>| registry(after).contains_key(name) <==> want.contains_key(
        name,
    ) by {
        if holds(after, name) {
            let p = position(after, name);
            assert(tools[p].name@ == name);
        }
        if holds(tools, name) {
            let p = position(tools, name);
            assert(after[p].name@ == name);
        }
        if name == tool.name@ {
            assert(after[k].name@ == name);
        }
    }
    assert forall|name: Seq<char>| registry(after).contains_key(name) implies registry(after)[name]
        == want[name] by {
        let p = position(after, name);
        lemma_position(after, p);
        if p != k {
            lemma_position(tools, p);
        }
    }
    assert(registry(after) =~= want);
}

proof fn lemma_append<D>(tools: Seq<Entry<D>>, tool: Entry<D>)
    requires
        distinct_names(tools),
        !holds(tools, tool.name@),
    ensures
        distinct_names(tools.push(tool)),
        registry(tools.push(tool)) == registry(tools).insert(tool.name@, tool.tool),
{
    let after = tools.push(tool);
    let last = tools.len() as int;
    assert(distinct_names(after)) by {
        assert forall|i: int, j: int| 0 <= i < j < after.len() implies after[i].name@
            != after[j].name@ by {
            if j < last {
                assert(tools[i].name@ != tools[j].name@);
            } else {
                if tools[i].name@ == tool.name@ {
                    assert(holds(tools, tool.name@));
                }
            }
        }
    }
    let want = registry(tools).insert(tool.name@, tool.tool);
    assert forall|name: Seq<char>| registry(after).contains_key(name) <==> want.contains_key(
        name,
    ) by {
        if holds(after, name) {
            let p = position(after, name);
            if p < last {
                assert(tools[p].name@ == name);
            }
        }
        if holds(tools, name) {
            let p = position(tools, name);
            assert(after[p].name@ == name);
        }
        if name == tool.name@ {
            assert(after[last].name@ == name);
        }
    }
    assert forall|name: Seq<char>| registry(after).contains_key(name) implies registry(after)[name]
        == want[name] by {
        let p = position(after, name);
        lemma_position(after, p);
        if p != last {
            lemma_position(tools, p);
        }
    }
    assert(registry(after) =~= want);
}

/// A registry holds as many names as it has entries.
proof fn lemma_size<D>(tools: Seq<Entry<D>>)
    requires
        distinct_names(tools),
    ensures
        registry(tools).dom().finite(),
        registry(tools).dom().len() == tools.len(),
    decreases tools.len(),
{
    if tools.len() == 0 {
        assert(registry(tools).dom() =~= Set::<Seq<char>>::empty());
    } else {
        let front = tools.drop_last();
        let last = tools.last();
        assert(distinct_names(front)) by {
            assert forall|i: int, j: int| 0 <= i < j < front.len() implies front[i].name@
                != front[j].name@ by {
                assert(tools[i].name@ != tools[j].name@);
            }
        }
        assert(!holds(front, last.name@)) by {
            if holds(front, last.name@) {
                let p = position(front, last.name@);
                assert(tools[p].name@ != tools[tools.len() - 1].name@);
            }
        }
        lemma_size(front);
        lemma_append(front, last);
        assert(front.push(last) =~= tools);
        assert(registry(tools).dom() =~= registry(front).dom().insert(last.name@));
    }
}

/// The registry of tools: a map from name to tool.
///
/// Registering a tool under a name that is taken replaces the earlier tool.
pub struct ToolBox<D: ToolDyn> {
    tools: Vec<Entry<D>>,
}

impl<D: ToolDyn> View for ToolBox<D> {
    type V = Map<Seq<char>, D>;

    closed spec fn view(&self) -> Map<Seq<char>, D> {
        registry(self.tools@)
    }
}

impl<D: ToolDyn> Default for ToolBox<D> {
    fn default() -> (r: Self)
        ensures
            r@ == Map::<Seq<char>, D>::empty(),
    {
        ToolBox::new()
    }
}

impl<D: ToolDyn> ToolBox<D> {
    #[verifier::type_invariant]
    spec fn well_formed(self) -> bool {
        distinct_names(self.tools@)
    }

    /// Some registered tool can advertise `descriptor`.
    pub open spec fn advertises(&self, descriptor: ToolDescriptorView) -> bool {
        exists|name: Seq<char>| #[trigger]
            self@.contains_key(name) && self@[name].advertises(descriptor)
    }

    fn find(&self, name: &String) -> (r: Option<usize>)
        ensures
            r is Some <==> holds(self.tools@, name@),
            r matches Some(i) ==> i < self.tools@.len() && self.tools@[i as int].name@ == name@,
    {
        let mut i: usize = 0;
        while i < self.tools.len()
            invariant
                i <= self.tools@.len(),
                forall|k: int| 0 <= k < i ==> self.tools@[k].name@ != name@,
            decreases self.tools@.len() - i,
        {
            if self.tools[i].name == *name {
                assert(holds(self.tools@, name@));
                return Some(i);
            }
            i += 1;
        }
        None
    }

    pub fn new() -> (r: Self)
        ensures
            r@ == Map::<Seq<char>, D>::empty(),
    {
        let r = ToolBox { tools: Vec::new() };
        assert(r@ =~= Map::<Seq<char>, D>::empty());
        r
    }

    /// Lists what the registered tools advertise: one descriptor for each
    /// tool, none left out and none added.
    pub fn openai_objects(&self) -> (r: Vec<ToolDescriptor>)
        ensures
            r@.len() == self@.dom().len(),
            self@.dom().finite(),
            forall|i: int| 0 <= i < r@.len() ==> self.advertises(#[trigger] r@[i]@),
            forall|name: Seq<char>| #[trigger]
                self@.contains_key(name) ==> exists|i: int|
                    0 <= i < r@.len() && self@[name].advertises(#[trigger] r@[i]@),
    {
        let mut out: Vec<ToolDescriptor> = Vec::new();
        let mut i: usize = 0;
        while i < self.tools.len()
            invariant
                i <= self.tools@.len(),
                out@.len() == i,
                forall|k: int| 0 <= k < i ==> self.tools@[k].tool.advertises(#[trigger] out@[k]@),
            decreases self.tools@.len() - i,
        {
            out.push(self.tools[i].tool.to_openai_obejct());
            i += 1;
        }
        proof {
            use_type_invariant(self);
            lemma_size(self.tools@);
            assert forall|name: Seq<char>| #[trigger] self@.contains_key(name) implies exists|
                i: int,
            | 0 <= i < out@.len() && self@[name].advertises(#[trigger] out@[i]@) by {
                let k = position(self.tools@, name);
                assert(self@[name].advertises(out@[k]@));
            }
            assert forall|i: int| 0 <= i < out@.len() implies self.advertises(
                #[trigger] out@[i]@,
            ) by {
                lemma_position(self.tools@, i);
                let name = self.tools@[i].name@;
                assert(self@.contains_key(name) && self@[name].advertises(out@[i]@));
            }
        }
        out
    }

    /// Registers `tool` under the name it gives, in place of any tool of that
    /// name.
    pub fn add_dyn_tool(&mut self, tool: D)
        ensures
            exists|name: Seq<char>| #[trigger]
                tool.named(name) && final(self)@ == old(self)@.insert(name, tool),
    {
        proof {
            use_type_invariant(&*self);
        }
        let name = tool.name();
        let ghost key = name@;
        let found = self.find(&name);
        let entry = Entry { name, tool };
        let mut tools: Vec<Entry<D>> = Vec::new();
        core::mem::swap(&mut self.tools, &mut tools);
        match found {
            Some(i) => {
                proof {
                    lemma_replace(tools@, i as int, entry);
                }
                tools[i] = entry;
            },
            None => {
                proof {
                    lemma_append(tools@, entry);
                }
                tools.push(entry);
            },
        }
        self.tools = tools;
        assert(tool.named(key) && self@ == old(self)@.insert(key, tool));
    }

    /// Registers a tool of another type as what `D::from` makes of it.
    pub fn add_tool<T>(&mut self, tool: T) where D: From<T>
        ensures
            exists|erased: D, name: Seq<char>|
                {
                    &&& call_ensures(D::from, (tool,), erased)
                    &&& #[trigger] erased.named(name)
                    &&& final(self)@ == old(self)@.insert(name, erased)
                },
    {
        let erased = D::from(tool);
        self.add_dyn_tool(erased);
        let ghost name = choose|name: Seq<char>| #[trigger]
            erased.named(name) && self@ == old(self)@.insert(name, erased);
        assert(call_ensures(D::from, (tool,), erased) && erased.named(name) && self@ == old(
            self,
        )@.insert(name, erased));
    }

    /// Calls the tool registered as `tool_name` with the raw arguments, or
    /// answers `None` where no tool has that name.
    pub fn invoke(&self, tool_name: String, arguments: String) -> (r: Option<
        Result<String, AgentyError>,
    >)
        ensures
            r is None <==> !self@.contains_key(tool_name@),
            r matches Some(outcome) ==> self@[tool_name@].may_return(
                arguments@,
                outcome_view(outcome),
            ),
    {
        proof {
            use_type_invariant(self);
        }
        match self.find(&tool_name) {
            Some(i) => {
                proof {
                    lemma_position(self.tools@, i as int);
                }
                Some(self.tools[i].tool.call(arguments))
            },
            None => None,
        }
    }
}

} // verus!
