//! Host tools and the registry that admission looks them up in.

use crate::json::JsonText;
use crate::text::utf8_len;
use crate::transaction::error::StartupError;
use crate::transaction::limits::ToolLimits;
use crate::transaction::types::{ToolId, ToolName};
use vstd::prelude::*;
use vstd::utf8::encode_utf8;

verus! {

/// How a tool can be stopped. Grace times are in nanoseconds.
#[derive(Clone, Copy, Debug, PartialEq, Eq, Structural)]
pub enum ToolExecutionClass {
    /// It watches a flag.
    CooperativeInProcess {
        /// Time to notice the flag.
        grace: u128,
    },
    /// The runtime drives it and can drop it between two steps.
    AbortableAtYield {
        /// Time to notice the flag.
        grace: u128,
    },
    /// It runs in a process of its own.
    ProcessIsolated {
        /// Time to notice the flag.
        grace: u128,
    },
}

/// How a running call is ended. Grace times are in nanoseconds.
#[derive(Clone, Copy, Debug, PartialEq, Eq, Structural)]
pub enum ToolCancellationPolicy {
    /// It is killed at once.
    Abortable,
    /// It is asked, and waited for.
    Cooperative {
        /// How long.
        grace: u128,
    },
    /// It is asked, waited for, and killed.
    IsolatedKillable {
        /// How long.
        grace: u128,
    },
}

/// Specification of a tool.
#[derive(Clone, Debug)]
pub struct ToolSpec {
    /// Identity.
    pub id: ToolId,
    /// Name for the model.
    pub name: ToolName,
    /// Description for the model.
    pub description: String,
    /// Input schema.
    pub input_schema: JsonText,
    /// Bounds.
    pub limits: ToolLimits,
    /// How it can be stopped.
    pub execution_class: ToolExecutionClass,
    /// How a running call is ended.
    pub cancellation: ToolCancellationPolicy,
}

/// What a linked implementation is able to do.
#[derive(Clone, Copy, Debug, PartialEq, Eq, Structural)]
pub struct ToolHandler {
    /// Which implementation it is.
    pub handle: u64,
    /// It can be told to stop.
    pub supports_abort: bool,
    /// It can be killed from outside.
    pub supports_isolated_kill: bool,
    /// It runs in a process of its own.
    pub os_process_isolated: bool,
    /// The runtime drives it.
    pub runtime_owns_abortable_drive: bool,
}

/// A linked implementation that is abortable by its construction.
#[derive(Clone, Copy, Debug, PartialEq, Eq, Structural)]
pub struct AbortableAtYieldHandler {
    /// The implementation.
    pub handler: ToolHandler,
}

/// A linked implementation that is isolated by its construction.
#[derive(Clone, Copy, Debug, PartialEq, Eq, Structural)]
pub struct ProcessIsolatedToolHandler {
    /// The implementation.
    pub handler: ToolHandler,
}

/// Spec and linked implementation, checked against each other.
#[derive(Clone, Debug)]
pub struct RegisteredTool {
    spec: ToolSpec,
    handler: ToolHandler,
}

impl RegisteredTool {
    /// Specification.
    pub closed spec fn tool(&self) -> ToolSpec {
        self.spec
    }

    /// Linked implementation.
    pub closed spec fn linked(&self) -> ToolHandler {
        self.handler
    }

    /// Canonical specification.
    pub fn spec(&self) -> (r: &ToolSpec)
        ensures
            *r == self.tool(),
    {
        &self.spec
    }

    /// Linked implementation.
    pub fn handler(&self) -> (r: &ToolHandler)
        ensures
            *r == self.linked(),
    {
        &self.handler
    }

    /// Construct a registered tool whose class needs no structural proof.
    pub fn new(spec: ToolSpec, handler: ToolHandler) -> (r: Self)
        requires
            spec.execution_class is CooperativeInProcess,
        ensures
            r.tool() == spec,
            r.linked() == handler,
    {
        RegisteredTool { spec, handler }
    }

    /// Construct a registered tool. The abortable and the isolated class are
    /// refused: what an implementation says of itself is not enough for them.
    pub fn try_new(spec: ToolSpec, handler: ToolHandler) -> (r: Result<Self, StartupError>)
        ensures
            match spec.execution_class {
                ToolExecutionClass::AbortableAtYield { .. } => r == Err::<Self, StartupError>(
                    StartupError::ToolRegistry(
                        "AbortableAtYield requires try_new_abortable(AbortableAtYieldHandler)",
                    ),
                ),
                ToolExecutionClass::ProcessIsolated { .. } => r == Err::<Self, StartupError>(
                    StartupError::ToolRegistry(
                        "ProcessIsolated requires try_new_process_isolated(ProcessIsolatedToolHandler)",
                    ),
                ),
                ToolExecutionClass::CooperativeInProcess { .. } => r is Ok && r->Ok_0.tool() == spec
                    && r->Ok_0.linked() == handler,
            },
    {
        match spec.execution_class {
            ToolExecutionClass::AbortableAtYield { .. } => Err(
                StartupError::ToolRegistry(
                    "AbortableAtYield requires try_new_abortable(AbortableAtYieldHandler)",
                ),
            ),
            ToolExecutionClass::ProcessIsolated { .. } => Err(
                StartupError::ToolRegistry(
                    "ProcessIsolated requires try_new_process_isolated(ProcessIsolatedToolHandler)",
                ),
            ),
            ToolExecutionClass::CooperativeInProcess { .. } => Ok(RegisteredTool { spec, handler }),
        }
    }

    /// Registers an implementation that is abortable by its construction.
    pub fn try_new_abortable(spec: ToolSpec, handler: AbortableAtYieldHandler) -> (r: Result<
        Self,
        StartupError,
    >)
        ensures
            if !(spec.execution_class is AbortableAtYield) {
                r == Err::<Self, StartupError>(
                    StartupError::ToolRegistry(
                        "try_new_abortable requires ToolExecutionClass::AbortableAtYield",
                    ),
                )
            } else if !handler.handler.runtime_owns_abortable_drive
                || !handler.handler.supports_abort {
                r == Err::<Self, StartupError>(
                    StartupError::ToolRegistry(
                        "AbortableAtYieldHandler must expose runtime_owns_abortable_drive + supports_abort",
                    ),
                )
            } else {
                r is Ok && r->Ok_0.tool() == spec && r->Ok_0.linked() == handler.handler
            },
    {
        match spec.execution_class {
            ToolExecutionClass::AbortableAtYield { .. } => {},
            _ => {
                return Err(
                    StartupError::ToolRegistry(
                        "try_new_abortable requires ToolExecutionClass::AbortableAtYield",
                    ),
                );
            },
        }
        if !handler.handler.runtime_owns_abortable_drive || !handler.handler.supports_abort {
            return Err(
                StartupError::ToolRegistry(
                    "AbortableAtYieldHandler must expose runtime_owns_abortable_drive + supports_abort",
                ),
            );
        }
        Ok(RegisteredTool { spec, handler: handler.handler })
    }

    /// Registers an implementation that is isolated by its construction.
    pub fn try_new_process_isolated(spec: ToolSpec, handler: ProcessIsolatedToolHandler) -> (r:
        Result<Self, StartupError>)
        ensures
            if !(spec.execution_class is ProcessIsolated) {
                r == Err::<Self, StartupError>(
                    StartupError::ToolRegistry(
                        "try_new_process_isolated requires ToolExecutionClass::ProcessIsolated",
                    ),
                )
            } else if !handler.handler.os_process_isolated
                || !handler.handler.supports_isolated_kill {
                r == Err::<Self, StartupError>(
                    StartupError::ToolRegistry(
                        "ProcessIsolatedToolHandler must expose os_process_isolated + supports_isolated_kill",
                    ),
                )
            } else {
                r is Ok && r->Ok_0.tool() == spec && r->Ok_0.linked() == handler.handler
            },
    {
        match spec.execution_class {
            ToolExecutionClass::ProcessIsolated { .. } => {},
            _ => {
                return Err(
                    StartupError::ToolRegistry(
                        "try_new_process_isolated requires ToolExecutionClass::ProcessIsolated",
                    ),
                );
            },
        }
        if !handler.handler.os_process_isolated || !handler.handler.supports_isolated_kill {
            return Err(
                StartupError::ToolRegistry(
                    "ProcessIsolatedToolHandler must expose os_process_isolated + supports_isolated_kill",
                ),
            );
        }
        Ok(RegisteredTool { spec, handler: handler.handler })
    }
}

/// Whether the `i`-th tool repeats an earlier identity.
pub open spec fn repeats_tool_id(tools: Seq<RegisteredTool>, i: int) -> bool {
    exists|j: int| 0 <= j < i && (#[trigger] tools[j]).tool().id@ == tools[i].tool().id@
}

/// Whether the `i`-th tool repeats an earlier name.
pub open spec fn repeats_tool_name(tools: Seq<RegisteredTool>, i: int) -> bool {
    exists|j: int| 0 <= j < i && (#[trigger] tools[j]).tool().name@ == tools[i].tool().name@
}

/// What is wrong with the `i`-th tool, if anything.
pub open spec fn tool_fault(
    tools: Seq<RegisteredTool>,
    max_schema_bytes: usize,
    i: int,
) -> Option<StartupError> {
    let t = tools[i];
    if t.tool().execution_class is ProcessIsolated && !t.linked().os_process_isolated {
        Some(
            StartupError::ToolRegistry("ProcessIsolated entry lacks os_process_isolated handler"),
        )
    } else if t.tool().execution_class is AbortableAtYield
        && !t.linked().runtime_owns_abortable_drive {
        Some(
            StartupError::ToolRegistry(
                "AbortableAtYield entry lacks runtime_owns_abortable_drive handler",
            ),
        )
    } else if utf8_len(t.tool().input_schema@) > max_schema_bytes {
        Some(StartupError::ToolRegistry("tool schema too large"))
    } else if repeats_tool_id(tools, i) {
        Some(StartupError::ToolRegistry("duplicate ToolId"))
    } else if repeats_tool_name(tools, i) {
        Some(StartupError::ToolRegistry("duplicate ToolName"))
    } else {
        None
    }
}

/// Whether one text comes before another in the order of their bytes.
pub open spec fn bytes_before(a: Seq<u8>, b: Seq<u8>) -> bool
    decreases a.len(),
{
    if b.len() == 0 {
        false
    } else if a.len() == 0 {
        true
    } else if a[0] != b[0] {
        a[0] < b[0]
    } else {
        bytes_before(a.drop_first(), b.drop_first())
    }
}

/// Whether one identity comes before another.
pub open spec fn id_before(a: Seq<char>, b: Seq<char>) -> bool {
    bytes_before(encode_utf8(a), encode_utf8(b))
}

/// Immutable host tool definitions.
#[derive(Clone, Debug)]
pub struct HostToolRegistry {
    tools: Vec<RegisteredTool>,
}

impl View for HostToolRegistry {
    type V = Seq<RegisteredTool>;

    closed spec fn view(&self) -> Seq<RegisteredTool> {
        self.tools@
    }
}

impl HostToolRegistry {
    /// Empty tool registry.
    pub fn empty() -> (r: Self)
        ensures
            r@.len() == 0,
    {
        HostToolRegistry { tools: Vec::new() }
    }

    /// Build from registered tools. The first fault is the error.
    pub fn build(tools: Vec<RegisteredTool>, max_schema_bytes: usize) -> (r: Result<
        Self,
        StartupError,
    >)
        ensures
            match r {
                Err(e) => exists|i: int|
                    0 <= i < tools@.len() && #[trigger] tool_fault(tools@, max_schema_bytes, i)
                        == Some(e) && forall|j: int|
                        0 <= j < i ==> #[trigger] tool_fault(tools@, max_schema_bytes, j) is None,
                Ok(registry) => registry@ == tools@ && forall|i: int|
                    0 <= i < tools@.len() ==> #[trigger] tool_fault(tools@, max_schema_bytes, i)
                        is None,
            },
    {
        let mut i: usize = 0;
        while i < tools.len()
            invariant
                i <= tools.len(),
                forall|j: int|
                    0 <= j < i ==> #[trigger] tool_fault(tools@, max_schema_bytes, j) is None,
            decreases tools.len() - i,
        {
            match Self::check(&tools, max_schema_bytes, i) {
                Some(e) => {
                    assert(tool_fault(tools@, max_schema_bytes, i as int) == Some(e));
                    return Err(e);
                },
                None => {},
            }
            assert(tool_fault(tools@, max_schema_bytes, i as int) is None);
            i = i + 1;
        }
        Ok(HostToolRegistry { tools })
    }

    fn check(tools: &Vec<RegisteredTool>, max_schema_bytes: usize, i: usize) -> (r: Option<
        StartupError,
    >)
        requires
            i < tools.len(),
        ensures
            r == tool_fault(tools@, max_schema_bytes, i as int),
    {
        let t = &tools[i];
        match t.spec.execution_class {
            ToolExecutionClass::ProcessIsolated { .. } => {
                if !t.handler.os_process_isolated {
                    return Some(
                        StartupError::ToolRegistry(
                            "ProcessIsolated entry lacks os_process_isolated handler",
                        ),
                    );
                }
            },
            ToolExecutionClass::AbortableAtYield { .. } => {
                if !t.handler.runtime_owns_abortable_drive {
                    return Some(
                        StartupError::ToolRegistry(
                            "AbortableAtYield entry lacks runtime_owns_abortable_drive handler",
                        ),
                    );
                }
            },
            ToolExecutionClass::CooperativeInProcess { .. } => {},
        }
        if t.spec.input_schema.as_str().len() > max_schema_bytes {
            return Some(StartupError::ToolRegistry("tool schema too large"));
        }
        let mut same_name: bool = false;
        let mut j: usize = 0;
        while j < i
            invariant
                j <= i,
                i < tools.len(),
                *t == tools@[i as int],
                forall|k: int| 0 <= k < j ==> (#[trigger] tools@[k]).tool().id@ != t.tool().id@,
                same_name == exists|k: int|
                    0 <= k < j && (#[trigger] tools@[k]).tool().name@ == t.tool().name@,
                !(t.tool().execution_class is ProcessIsolated && !t.linked().os_process_isolated),
                !(t.tool().execution_class is AbortableAtYield
                    && !t.linked().runtime_owns_abortable_drive),
                utf8_len(t.tool().input_schema@) <= max_schema_bytes,
            decreases i - j,
        {
            if tools[j].spec.id == t.spec.id {
                assert(tools@[j as int].tool().id@ == t.tool().id@);
                assert(repeats_tool_id(tools@, i as int));
                return Some(StartupError::ToolRegistry("duplicate ToolId"));
            }
            if tools[j].spec.name == t.spec.name {
                assert(tools@[j as int].tool().name@ == t.tool().name@);
                same_name = true;
            }
            j = j + 1;
        }
        if same_name {
            return Some(StartupError::ToolRegistry("duplicate ToolName"));
        }
        None
    }

    /// Number of registered tools.
    pub fn len(&self) -> (r: usize)
        ensures
            r == self@.len(),
    {
        self.tools.len()
    }

    /// Whether empty.
    pub fn is_empty(&self) -> (r: bool)
        ensures
            r == (self@.len() == 0),
    {
        self.tools.len() == 0
    }

    /// Position of a tool by identity.
    pub fn position(&self, id: &ToolId) -> (r: Option<usize>)
        ensures
            match r {
                Some(i) => i < self@.len() && self@[i as int].tool().id@ == id@ && forall|j: int|
                    0 <= j < i ==> (#[trigger] self@[j]).tool().id@ != id@,
                None => !has_tool(self@, id@),
            },
    {
        let mut i: usize = 0;
        while i < self.tools.len()
            invariant
                i <= self.tools.len(),
                forall|j: int| 0 <= j < i ==> (#[trigger] self@[j]).tool().id@ != id@,
            decreases self.tools.len() - i,
        {
            if self.tools[i].spec.id == *id {
                assert(self@[i as int].tool().id@ == id@);
                return Some(i);
            }
            i = i + 1;
        }
        None
    }

    /// Lookup registered tool by id.
    pub fn get(&self, id: &ToolId) -> (r: Option<&RegisteredTool>)
        ensures
            match r {
                Some(t) => find_tool(self@, id@) == Some(*t) && self@.contains(*t) && t.tool().id@
                    == id@,
                None => find_tool(self@, id@) is None && !has_tool(self@, id@),
            },
    {
        match self.position(id) {
            Some(i) => {
                assert(self@.contains(self@[i as int]));
                proof {
                    lemma_find_tool(self@, id@, i as int);
                }
                Some(&self.tools[i])
            },
            None => {
                proof {
                    lemma_find_no_tool(self@, id@);
                }
                None
            },
        }
    }

    /// Lookup spec by id.
    pub fn get_spec(&self, id: &ToolId) -> (r: Option<&ToolSpec>)
        ensures
            match r {
                Some(s) => s.id@ == id@ && find_tool(self@, id@) is Some && find_tool(
                    self@,
                    id@,
                )->0.tool() == *s,
                None => find_tool(self@, id@) is None && !has_tool(self@, id@),
            },
    {
        match self.get(id) {
            Some(t) => Some(&t.spec),
            None => None,
        }
    }

    /// Resolve name to id.
    pub fn id_for_name(&self, name: &ToolName) -> (r: Option<&ToolId>)
        ensures
            match r {
                Some(id) => exists|i: int|
                    0 <= i < self@.len() && (#[trigger] self@[i]).tool().name@ == name@
                        && self@[i].tool().id == *id,
                None => forall|i: int|
                    0 <= i < self@.len() ==> (#[trigger] self@[i]).tool().name@ != name@,
            },
    {
        let mut i: usize = 0;
        while i < self.tools.len()
            invariant
                i <= self.tools.len(),
                forall|j: int| 0 <= j < i ==> (#[trigger] self@[j]).tool().name@ != name@,
            decreases self.tools.len() - i,
        {
            if self.tools[i].spec.name == *name {
                assert(self@[i as int].tool().name@ == name@);
                return Some(&self.tools[i].spec.id);
            }
            i = i + 1;
        }
        None
    }
}

proof fn lemma_before_asymmetric(a: Seq<u8>, b: Seq<u8>)
    requires
        bytes_before(a, b),
    ensures
        !bytes_before(b, a),
    decreases a.len(),
{
    if a.len() > 0 && b.len() > 0 && a[0] == b[0] {
        lemma_before_asymmetric(a.drop_first(), b.drop_first());
    }
}

proof fn lemma_before_transitive(a: Seq<u8>, b: Seq<u8>, c: Seq<u8>)
    requires
        bytes_before(a, b),
        bytes_before(b, c),
    ensures
        bytes_before(a, c),
    decreases a.len(),
{
    if a.len() > 0 && b.len() > 0 && c.len() > 0 && a[0] == b[0] && b[0] == c[0] {
        lemma_before_transitive(a.drop_first(), b.drop_first(), c.drop_first());
    }
}

/// Whether one text comes before another in the order of their bytes.
fn text_before(a: &str, b: &str) -> (r: bool)
    ensures
        r == id_before(a@, b@),
{
    let x = a.as_bytes();
    let y = b.as_bytes();
    let ghost xs = x@;
    let ghost ys = y@;
    let mut i: usize = 0;
    assert(xs.skip(0) =~= xs && ys.skip(0) =~= ys);
    while i < x.len() && i < y.len() && x[i] == y[i]
        invariant
            xs == x@,
            ys == y@,
            i <= xs.len(),
            i <= ys.len(),
            bytes_before(xs, ys) == bytes_before(xs.skip(i as int), ys.skip(i as int)),
        decreases xs.len() - i,
    {
        assert(xs.skip(i as int).drop_first() =~= xs.skip(i as int + 1));
        assert(ys.skip(i as int).drop_first() =~= ys.skip(i as int + 1));
        i = i + 1;
    }
    if i >= y.len() {
        false
    } else if i >= x.len() {
        true
    } else {
        x[i] < y[i]
    }
}

/// Whether no later specification comes before an earlier one.
pub open spec fn sorted_by_id(specs: Seq<&ToolSpec>) -> bool {
    forall|i: int, j: int|
        0 <= i < j < specs.len() ==> !id_before((#[trigger] specs[j]).id@, (
        #[trigger] specs[i]).id@)
}

/// Whether a list of specifications is a rearrangement of the tools' ones.
pub open spec fn rearranges(
    specs: Seq<&ToolSpec>,
    tools: Seq<RegisteredTool>,
    places: Seq<int>,
) -> bool {
    &&& specs.len() == tools.len()
    &&& places.len() == tools.len()
    &&& places.no_duplicates()
    &&& forall|i: int|
        0 <= i < places.len() ==> 0 <= (#[trigger] places[i]) < tools.len() && *specs[i]
            == tools[places[i]].tool()
}

impl HostToolRegistry {
    /// Specs sorted by tool id.
    pub fn specs_sorted(&self) -> (r: Vec<&ToolSpec>)
        ensures
            sorted_by_id(r@),
            exists|places: Seq<int>| #[trigger] rearranges(r@, self@, places),
    {
        let mut out: Vec<&ToolSpec> = Vec::new();
        let ghost mut places: Seq<int> = Seq::empty();
        let mut n: usize = 0;
        while n < self.tools.len()
            invariant
                n <= self.tools.len(),
                out.len() == n,
                places.len() == n,
                places.no_duplicates(),
                sorted_by_id(out@),
                forall|i: int|
                    0 <= i < n ==> 0 <= (#[trigger] places[i]) < n && *out@[i]
                        == self@[places[i]].tool(),
            decreases self.tools.len() - n,
        {
            let spec: &ToolSpec = &self.tools[n].spec;
            let mut k: usize = 0;
            while k < out.len() && !text_before(spec.id.as_str(), out[k].id.as_str())
                invariant
                    k <= out.len(),
                    forall|i: int| 0 <= i < k ==> !id_before(spec.id@, (#[trigger] out@[i]).id@),
                decreases out.len() - k,
            {
                k = k + 1;
            }
            let ghost before = out@;
            out.insert(k, spec);
            proof {
                let old_places = places;
                places = places.insert(k as int, n as int);
                assert forall|i: int, j: int| 0 <= i < j < out@.len() implies !id_before(
                    (#[trigger] out@[j]).id@,
                    (#[trigger] out@[i]).id@,
                ) by {
                    let a = encode_utf8(spec.id@);
                    if i == k {
                        assert(out@[j] == before[j - 1]);
                        let b = encode_utf8(before[k as int].id@);
                        assert(id_before(spec.id@, before[k as int].id@));
                        lemma_before_asymmetric(a, b);
                        if j - 1 > k {
                            let c = encode_utf8(before[j - 1].id@);
                            assert(!id_before(before[j - 1].id@, before[k as int].id@));
                            if bytes_before(c, a) {
                                lemma_before_transitive(c, a, b);
                            }
                        }
                    } else if j == k {
                        assert(out@[i] == before[i]);
                    } else {
                        let oi = if i < k {
                            i
                        } else {
                            i - 1
                        };
                        let oj = if j < k {
                            j
                        } else {
                            j - 1
                        };
                        assert(out@[i] == before[oi]);
                        assert(out@[j] == before[oj]);
                    }
                }
                assert forall|i: int| 0 <= i < places.len() implies 0 <= (#[trigger] places[i]) < n
                    + 1 && *out@[i] == self@[places[i]].tool() by {
                    if i < k {
                        assert(places[i] == old_places[i]);
                    } else if i > k {
                        assert(places[i] == old_places[i - 1]);
                    }
                }
                assert forall|i: int, j: int|
                    0 <= i < places.len() && 0 <= j < places.len() && i != j implies places[i]
                    != places[j] by {
                    let oi = if i < k {
                        i
                    } else {
                        i - 1
                    };
                    let oj = if j < k {
                        j
                    } else {
                        j - 1
                    };
                    if i != k {
                        assert(places[i] == old_places[oi]);
                    }
                    if j != k {
                        assert(places[j] == old_places[oj]);
                    }
                }
            }
            n = n + 1;
        }
        assert(rearranges(out@, self@, places));
        out
    }
}

/// Whether a tool with an identity is registered.
pub open spec fn has_tool(tools: Seq<RegisteredTool>, id: Seq<char>) -> bool {
    exists|i: int| 0 <= i < tools.len() && (#[trigger] tools[i]).tool().id@ == id
}

/// The first tool with an identity.
pub open spec fn find_tool(tools: Seq<RegisteredTool>, id: Seq<char>) -> Option<RegisteredTool>
    decreases tools.len(),
{
    if tools.len() == 0 {
        None
    } else if tools[0].tool().id@ == id {
        Some(tools[0])
    } else {
        find_tool(tools.drop_first(), id)
    }
}

proof fn lemma_find_tool(tools: Seq<RegisteredTool>, id: Seq<char>, i: int)
    requires
        0 <= i < tools.len(),
        tools[i].tool().id@ == id,
        forall|j: int| 0 <= j < i ==> (#[trigger] tools[j]).tool().id@ != id,
    ensures
        find_tool(tools, id) == Some(tools[i]),
    decreases i,
{
    if i > 0 {
        let rest = tools.drop_first();
        assert forall|j: int| 0 <= j < i - 1 implies (#[trigger] rest[j]).tool().id@ != id by {
            assert(rest[j] == tools[j + 1]);
        }
        lemma_find_tool(rest, id, i - 1);
    }
}

proof fn lemma_find_no_tool(tools: Seq<RegisteredTool>, id: Seq<char>)
    requires
        !has_tool(tools, id),
    ensures
        find_tool(tools, id) is None,
    decreases tools.len(),
{
    if tools.len() > 0 {
        let rest = tools.drop_first();
        if has_tool(rest, id) {
            let i = choose|i: int| 0 <= i < rest.len() && (#[trigger] rest[i]).tool().id@ == id;
            assert(tools[i + 1].tool().id@ == id);
        }
        lemma_find_no_tool(rest, id);
    }
}

/// Tools without faults have different identities and different names.
pub proof fn built_tools_differ(
    tools: Seq<RegisteredTool>,
    max_schema_bytes: usize,
    a: int,
    b: int,
)
    requires
        forall|i: int|
            0 <= i < tools.len() ==> #[trigger] tool_fault(tools, max_schema_bytes, i) is None,
        0 <= a < b < tools.len(),
    ensures
        tools[a].tool().id@ != tools[b].tool().id@,
        tools[a].tool().name@ != tools[b].tool().name@,
{
    assert(tool_fault(tools, max_schema_bytes, b) is None);
    assert(!repeats_tool_id(tools, b));
    assert(!repeats_tool_name(tools, b));
}

} // verus!
