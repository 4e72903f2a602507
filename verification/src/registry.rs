//! The registry: the tools by name. A registry is put together from
//! fragments, each the tools of one group; no name occurs twice in it.

use vstd::prelude::*;
use crate::schema::{ArgumentSchema, FieldSpecView};
use crate::text::same_text;

verus! {

/// The operations that the server offers.
#[derive(Clone, Copy, Debug, PartialEq, Eq, Structural)]
pub enum Tool {
    Ping,
    MaxInt,
    MinInt,
    MaxUint,
    AddressZero,
    HashZero,
    Age,
    Block,
    BlockNumber,
    GasPrice,
    Chain,
    ChainId,
    Client,
    Balance,
    Nonce,
    Code,
    Storage,
    CodeSize,
}

/// One tool as callers see it: its name, what it does, the arguments it
/// takes, and the operation that serves it.
#[derive(Clone, Debug, PartialEq, Eq)]
pub struct ToolDescriptor {
    pub name: String,
    pub description: String,
    pub schema: ArgumentSchema,
    pub tool: Tool,
}

/// What a `ToolDescriptor` denotes.
pub ghost struct DescriptorView {
    pub name: Seq<char>,
    pub description: Seq<char>,
    pub schema: Seq<FieldSpecView>,
    pub tool: Tool,
}

impl View for ToolDescriptor {
    type V = DescriptorView;

    open spec fn view(&self) -> DescriptorView {
        DescriptorView {
            name: self.name@,
            description: self.description@,
            schema: self.schema@,
            tool: self.tool,
        }
    }
}

impl ToolDescriptor {
    /// A tool with its name, its description, its schema and its operation.
    pub fn new(name: &str, description: &str, schema: ArgumentSchema, tool: Tool) -> (r:
        ToolDescriptor)
        ensures
            r@ == (DescriptorView {
                name: name@,
                description: description@,
                schema: schema@,
                tool,
            }),
    {
        ToolDescriptor { name: name.to_owned(), description: description.to_owned(), schema, tool }
    }
}

/// A name that is already taken.
#[derive(Clone, Debug, PartialEq, Eq)]
pub struct DuplicateName {
    pub name: String,
}

/// Whether a tool of `tools` has the name `name`.
pub open spec fn has_name(tools: Seq<DescriptorView>, name: Seq<char>) -> bool {
    exists|i: int| 0 <= i < tools.len() && (#[trigger] tools[i]).name == name
}

/// Whether no two tools of `tools` share a name.
pub open spec fn distinct_names(tools: Seq<DescriptorView>) -> bool {
    forall|i: int, j: int|
        0 <= i < j < tools.len() ==> (#[trigger] tools[i]).name != (#[trigger] tools[j]).name
}

/// Whether no tool of `a` has the name of a tool of `b`.
pub open spec fn disjoint_names(a: Seq<DescriptorView>, b: Seq<DescriptorView>) -> bool {
    forall|i: int, j: int|
        0 <= i < a.len() && 0 <= j < b.len() ==> (#[trigger] a[i]).name != (#[trigger] b[j]).name
}

/// The first tool of `tools` that is called `name`.
pub open spec fn find_tool(tools: Seq<DescriptorView>, name: Seq<char>) -> Option<DescriptorView>
    decreases tools.len(),
{
    if tools.len() == 0 {
        None
    } else if tools[0].name == name {
        Some(tools[0])
    } else {
        find_tool(tools.drop_first(), name)
    }
}

/// The first tool with a name is the one that no tool before it shares the
/// name with; where no tool has the name, none is found.
pub proof fn lemma_find_tool(tools: Seq<DescriptorView>, name: Seq<char>, i: int)
    requires
        0 <= i <= tools.len(),
        forall|k: int| 0 <= k < i ==> (#[trigger] tools[k]).name != name,
        i < tools.len() ==> tools[i].name == name,
    ensures
        find_tool(tools, name) == (if i < tools.len() {
            Some(tools[i])
        } else {
            None
        }),
    decreases tools.len(),
{
    if tools.len() > 0 && i > 0 {
        let rest = tools.drop_first();
        assert forall|k: int| 0 <= k < i - 1 implies (#[trigger] rest[k]).name != name by {
            assert(rest[k] == tools[k + 1]);
        }
        lemma_find_tool(rest, name, i - 1);
    }
}

/// The union of two sets of tools: the first, then the second; none where a
/// name occurs in both.
pub open spec fn composed(a: Seq<DescriptorView>, b: Seq<DescriptorView>) -> Option<
    Seq<DescriptorView>,
> {
    if disjoint_names(a, b) {
        Some(a + b)
    } else {
        None
    }
}

/// The first name of `b`, in its order, that a tool of `a` has too.
pub open spec fn first_shared(a: Seq<DescriptorView>, b: Seq<DescriptorView>) -> Option<Seq<char>>
    decreases b.len(),
{
    if b.len() == 0 {
        None
    } else if has_name(a, b[0].name) {
        Some(b[0].name)
    } else {
        first_shared(a, b.drop_first())
    }
}

/// The first shared name is that of the first tool of `b` whose name `a`
/// has; there is none where no tool of `b` has a name of `a`.
pub proof fn lemma_first_shared(a: Seq<DescriptorView>, b: Seq<DescriptorView>, j: int)
    requires
        0 <= j <= b.len(),
        forall|k: int| 0 <= k < j ==> !has_name(a, (#[trigger] b[k]).name),
        j < b.len() ==> has_name(a, b[j].name),
    ensures
        first_shared(a, b) == (if j < b.len() {
            Some(b[j].name)
        } else {
            None
        }),
    decreases b.len(),
{
    if b.len() > 0 && j > 0 {
        let rest = b.drop_first();
        assert forall|k: int| 0 <= k < j - 1 implies !has_name(a, (#[trigger] rest[k]).name) by {
            assert(rest[k] == b[k + 1]);
        }
        assert(b[0] == b[0]);
        lemma_first_shared(a, rest, j - 1);
    }
}

/// Two sets of tools share a name exactly when their names are not disjoint.
pub proof fn shared_when_not_disjoint(a: Seq<DescriptorView>, b: Seq<DescriptorView>)
    ensures
        first_shared(a, b) is None <==> disjoint_names(a, b),
    decreases b.len(),
{
    if b.len() > 0 {
        let rest = b.drop_first();
        shared_when_not_disjoint(a, rest);
        if has_name(a, b[0].name) {
            let i = choose|i: int| 0 <= i < a.len() && (#[trigger] a[i]).name == b[0].name;
            assert(a[i].name == b[0].name);
        } else if disjoint_names(a, rest) {
            assert forall|i: int, j: int| 0 <= i < a.len() && 0 <= j < b.len() implies (
            #[trigger] a[i]).name != (#[trigger] b[j]).name by {
                if j > 0 {
                    assert(rest[j - 1] == b[j]);
                }
            }
        } else {
            if disjoint_names(a, b) {
                assert forall|i: int, j: int| 0 <= i < a.len() && 0 <= j < rest.len() implies (
                #[trigger] a[i]).name != (#[trigger] rest[j]).name by {
                    assert(rest[j] == b[j + 1]);
                }
            }
        }
    }
}

/// In a union a tool is found where it is found in the first part, else
/// where it is found in the second.
pub proof fn find_in_union(a: Seq<DescriptorView>, b: Seq<DescriptorView>, name: Seq<char>)
    ensures
        find_tool(a + b, name) == (match find_tool(a, name) {
            Some(d) => Some(d),
            None => find_tool(b, name),
        }),
    decreases a.len(),
{
    if a.len() == 0 {
        assert(a + b =~= b);
    } else {
        assert((a + b).drop_first() =~= a.drop_first() + b);
        find_in_union(a.drop_first(), b, name);
    }
}

/// A tool is found exactly when a tool has the name, and it has the name.
pub proof fn found_has_name(tools: Seq<DescriptorView>, name: Seq<char>)
    ensures
        find_tool(tools, name) is Some <==> has_name(tools, name),
        find_tool(tools, name) matches Some(d) ==> d.name == name,
    decreases tools.len(),
{
    if tools.len() > 0 {
        let rest = tools.drop_first();
        found_has_name(rest, name);
        if tools[0].name != name {
            if has_name(tools, name) {
                let i = choose|i: int| 0 <= i < tools.len() && (#[trigger] tools[i]).name == name;
                assert(rest[i - 1] == tools[i]);
            }
            if has_name(rest, name) {
                let i = choose|i: int| 0 <= i < rest.len() && (#[trigger] rest[i]).name == name;
                assert(tools[i + 1] == rest[i]);
            }
        }
    }
}

/// Where two sets of tools share no name, it does not matter for a lookup
/// in which order they are united.
pub proof fn union_commutes(a: Seq<DescriptorView>, b: Seq<DescriptorView>, name: Seq<char>)
    requires
        disjoint_names(a, b),
    ensures
        composed(a, b) is Some,
        composed(b, a) is Some,
        find_tool(a + b, name) == find_tool(b + a, name),
{
    find_in_union(a, b, name);
    find_in_union(b, a, name);
    found_has_name(a, name);
    found_has_name(b, name);
    if has_name(a, name) && has_name(b, name) {
        let i = choose|i: int| 0 <= i < a.len() && (#[trigger] a[i]).name == name;
        let j = choose|j: int| 0 <= j < b.len() && (#[trigger] b[j]).name == name;
        assert(a[i].name == b[j].name);
    }
    assert(disjoint_names(b, a));
}

/// Union is associative: three sets of tools unite to the same registry
/// however they are grouped, and fail to unite together.
pub proof fn union_associates(
    a: Seq<DescriptorView>,
    b: Seq<DescriptorView>,
    c: Seq<DescriptorView>,
)
    ensures
        (match composed(a, b) {
            Some(ab) => composed(ab, c),
            None => None,
        }) == (match composed(b, c) {
            Some(bc) => composed(a, bc),
            None => None,
        }),
{
    let left = disjoint_names(a, b) && disjoint_names(a + b, c);
    let right = disjoint_names(b, c) && disjoint_names(a, b + c);
    if left {
        assert forall|i: int, j: int| 0 <= i < b.len() && 0 <= j < c.len() implies (
        #[trigger] b[i]).name != (#[trigger] c[j]).name by {
            assert((a + b)[a.len() + i] == b[i]);
        }
        assert forall|i: int, j: int| 0 <= i < a.len() && 0 <= j < (b + c).len() implies (
        #[trigger] a[i]).name != (#[trigger] (b + c)[j]).name by {
            assert((a + b)[i] == a[i]);
            if j < b.len() {
                assert((b + c)[j] == b[j]);
            } else {
                assert((b + c)[j] == c[j - b.len()]);
            }
        }
    }
    if right {
        assert forall|i: int, j: int| 0 <= i < a.len() && 0 <= j < b.len() implies (
        #[trigger] a[i]).name != (#[trigger] b[j]).name by {
            assert((b + c)[j] == b[j]);
        }
        assert forall|i: int, j: int| 0 <= i < (a + b).len() && 0 <= j < c.len() implies (
        #[trigger] (a + b)[i]).name != (#[trigger] c[j]).name by {
            assert((b + c)[b.len() + j] == c[j]);
            if i < a.len() {
                assert((a + b)[i] == a[i]);
            } else {
                assert((a + b)[i] == b[i - a.len()]);
            }
        }
    }
    assert((a + b) + c =~= a + (b + c));
}

/// The tools by name, in the order in which they were registered.
#[derive(Clone, Debug, PartialEq, Eq)]
pub struct Registry {
    entries: Vec<ToolDescriptor>,
}

impl View for Registry {
    type V = Seq<DescriptorView>;

    closed spec fn view(&self) -> Seq<DescriptorView> {
        self.entries@.map_values(|d: ToolDescriptor| d@)
    }
}

impl Registry {
    /// A registry is in order when no two of its tools share a name.
    pub open spec fn wf(&self) -> bool {
        distinct_names(self@)
    }

    /// The registry without tools.
    pub fn new() -> (r: Registry)
        ensures
            r@ == Seq::<DescriptorView>::empty(),
            r.wf(),
    {
        let r = Registry { entries: Vec::new() };
        assert(r@ =~= Seq::<DescriptorView>::empty());
        r
    }

    /// The number of tools.
    pub fn len(&self) -> (n: usize)
        ensures
            n == self@.len(),
    {
        self.entries.len()
    }

    /// The tool at place `i`, in the order of registration.
    pub fn get(&self, i: usize) -> (r: Option<&ToolDescriptor>)
        ensures
            match r {
                Some(d) => i < self@.len() && d@ == self@[i as int],
                None => i >= self@.len(),
            },
    {
        if i < self.entries.len() {
            Some(&self.entries[i])
        } else {
            None
        }
    }

    /// The place of the tool called `name`.
    fn position(&self, name: &str) -> (r: Option<usize>)
        ensures
            match r {
                Some(i) => i < self@.len() && self@[i as int].name == name@ && find_tool(
                    self@,
                    name@,
                ) == Some(self@[i as int]),
                None => !has_name(self@, name@) && find_tool(self@, name@) is None,
            },
    {
        let mut i: usize = 0;
        while i < self.entries.len()
            invariant
                i <= self.entries.len(),
                self@.len() == self.entries.len(),
                forall|k: int| 0 <= k < i ==> (#[trigger] self@[k]).name != name@,
            decreases self.entries.len() - i,
        {
            if same_text(self.entries[i].name.as_str(), name) {
                proof {
                    lemma_find_tool(self@, name@, i as int);
                }
                return Some(i);
            }
            i += 1;
        }
        proof {
            lemma_find_tool(self@, name@, i as int);
        }
        None
    }

    /// The tool called `name`, if there is one.
    pub fn lookup(&self, name: &str) -> (r: Option<&ToolDescriptor>)
        ensures
            match r {
                Some(d) => find_tool(self@, name@) == Some(d@) && d@.name == name@,
                None => find_tool(self@, name@) is None && !has_name(self@, name@),
            },
    {
        match self.position(name) {
            Some(i) => Some(&self.entries[i]),
            None => None,
        }
    }

    /// Adds a tool, unless its name is taken: then the registry stays as it is.
    pub fn register(&mut self, descriptor: ToolDescriptor) -> (r: Result<(), DuplicateName>)
        requires
            old(self).wf(),
        ensures
            final(self).wf(),
            match r {
                Ok(()) => !has_name(old(self)@, descriptor@.name) && final(self)@ == old(self)@.push(
                    descriptor@,
                ),
                Err(taken) => has_name(old(self)@, descriptor@.name) && final(self)@ == old(self)@
                    && taken.name@ == descriptor@.name,
            },
    {
        match self.position(descriptor.name.as_str()) {
            Some(_) => Err(DuplicateName { name: descriptor.name }),
            None => {
                let ghost before = self@;
                self.entries.push(descriptor);
                assert(self@ =~= before.push(descriptor@));
                Ok(())
            },
        }
    }

    /// A copy of this registry.
    pub fn duplicate(&self) -> (r: Registry)
        ensures
            r@ == self@,
    {
        let mut entries: Vec<ToolDescriptor> = Vec::new();
        let mut i: usize = 0;
        while i < self.entries.len()
            invariant
                i <= self.entries.len(),
                entries.len() == i,
                forall|k: int| 0 <= k < i ==> entries@[k]@ == self.entries@[k]@,
            decreases self.entries.len() - i,
        {
            entries.push(clone_descriptor(&self.entries[i]));
            i += 1;
        }
        let r = Registry { entries };
        assert(r@ =~= self@);
        r
    }

    /// Adds a tool whose name is free.
    pub fn add(&mut self, descriptor: ToolDescriptor)
        requires
            old(self).wf(),
            !has_name(old(self)@, descriptor@.name),
        ensures
            final(self).wf(),
            final(self)@ == old(self)@.push(descriptor@),
    {
        let _ = self.register(descriptor);
    }

    /// The union of two registries that share no name.
    pub fn join(self, other: Registry) -> (r: Registry)
        requires
            self.wf(),
            other.wf(),
            disjoint_names(self@, other@),
        ensures
            r.wf(),
            r@ == self@ + other@,
    {
        match self.compose(other) {
            Ok(both) => both,
            Err(_) => Registry::new(),
        }
    }

    /// The union of two registries: the tools of `self`, then those of
    /// `other`. Where a name occurs in both there is no union, and the error
    /// gives the first such name of `other`.
    pub fn compose(self, other: Registry) -> (r: Result<Registry, DuplicateName>)
        requires
            self.wf(),
            other.wf(),
        ensures
            match r {
                Ok(both) => composed(self@, other@) == Some(both@) && both.wf(),
                Err(taken) => composed(self@, other@) is None && first_shared(self@, other@)
                    == Some(taken.name@),
            },
    {
        let ghost theirs = other@;
        let ghost ours = self@;
        let mut both = self;
        let mut i: usize = 0;
        let n = other.entries.len();
        assert(ours + theirs.take(0) =~= ours);
        while i < n
            invariant
                i <= n,
                n == other.entries.len(),
                theirs == other@,
                ours == self@,
                distinct_names(theirs),
                both@ == ours + theirs.take(i as int),
                both.wf(),
                forall|k: int| 0 <= k < i ==> !has_name(ours, (#[trigger] theirs[k]).name),
            decreases n - i,
        {
            let descriptor = clone_descriptor(&other.entries[i]);
            match both.register(descriptor) {
                Ok(()) => {
                    assert(ours + theirs.take(i + 1) =~= (ours + theirs.take(i as int)).push(
                        theirs[i as int],
                    ));
                    proof {
                        if has_name(ours, theirs[i as int].name) {
                            let w = choose|w: int|
                                0 <= w < ours.len() && (#[trigger] ours[w]).name
                                    == theirs[i as int].name;
                            assert((ours + theirs.take(i as int))[w] == ours[w]);
                        }
                    }
                },
                Err(taken) => {
                    proof {
                        let joined = ours + theirs.take(i as int);
                        assert(theirs[i as int] == descriptor@);
                        assert(has_name(joined, taken.name@));
                        let w = choose|w: int|
                            0 <= w < joined.len() && (#[trigger] joined[w]).name == taken.name@;
                        if w < ours.len() {
                            assert(joined[w] == ours[w]);
                        } else {
                            assert(joined[w] == theirs[w - ours.len()]);
                            assert(false);
                        }
                        assert(has_name(ours, taken.name@));
                        lemma_first_shared(ours, theirs, i as int);
                    }
                    return Err(taken);
                },
            }
            i += 1;
        }
        proof {
            assert(theirs.take(n as int) =~= theirs);
            assert forall|a: int, b: int| 0 <= a < ours.len() && 0 <= b < theirs.len() implies (
            #[trigger] ours[a]).name != (#[trigger] theirs[b]).name by {
                assert(both@[a] == ours[a]);
                assert(both@[ours.len() + b] == theirs[b]);
            }
        }
        Ok(both)
    }
}

/// A tool as callers see it.
pub open spec fn described(
    name: Seq<char>,
    description: Seq<char>,
    schema: Seq<FieldSpecView>,
    tool: Tool,
) -> DescriptorView {
    DescriptorView { name, description, schema, tool }
}

/// Whether `s` has `len` characters, the first two of them `first` and
/// `second`.
pub open spec fn begins(s: Seq<char>, len: nat, first: char, second: char) -> bool {
    s.len() == len && s[0] == first && s[1] == second
}

/// The length and the first two characters of each tool's name: no two
/// names agree in all three.
pub proof fn lemma_tool_names()
    ensures
        begins("ping"@, 4, 'p', 'i'),
        begins("max_int"@, 7, 'm', 'a'),
        begins("min_int"@, 7, 'm', 'i'),
        begins("max_uint"@, 8, 'm', 'a'),
        begins("address_zero"@, 12, 'a', 'd'),
        begins("hash_zero"@, 9, 'h', 'a'),
        begins("age"@, 3, 'a', 'g'),
        begins("block"@, 5, 'b', 'l'),
        begins("block_number"@, 12, 'b', 'l'),
        begins("gas_price"@, 9, 'g', 'a'),
        begins("chain"@, 5, 'c', 'h'),
        begins("chain_id"@, 8, 'c', 'h'),
        begins("client"@, 6, 'c', 'l'),
        begins("balance"@, 7, 'b', 'a'),
        begins("nonce"@, 5, 'n', 'o'),
        begins("code"@, 4, 'c', 'o'),
        begins("storage"@, 7, 's', 't'),
        begins("code_size"@, 9, 'c', 'o'),
{
    reveal_strlit("ping");
    reveal_strlit("max_int");
    reveal_strlit("min_int");
    reveal_strlit("max_uint");
    reveal_strlit("address_zero");
    reveal_strlit("hash_zero");
    reveal_strlit("age");
    reveal_strlit("block");
    reveal_strlit("block_number");
    reveal_strlit("gas_price");
    reveal_strlit("chain");
    reveal_strlit("chain_id");
    reveal_strlit("client");
    reveal_strlit("balance");
    reveal_strlit("nonce");
    reveal_strlit("code");
    reveal_strlit("storage");
    reveal_strlit("code_size");
}

/// A copy of a descriptor.
pub fn clone_descriptor(d: &ToolDescriptor) -> (r: ToolDescriptor)
    ensures
        r@ == d@,
{
    ToolDescriptor {
        name: d.name.clone(),
        description: d.description.clone(),
        schema: crate::schema::clone_schema(&d.schema),
        tool: d.tool,
    }
}

} // verus!
