//! The set of invocable tools, each under a unique name, in registration order.

use vstd::prelude::*;

use crate::model::ToolDescriptor;

verus! {

/// Why the registry refused or failed a request.
#[derive(Debug, Clone, Copy, PartialEq, Eq, Structural)]
pub enum RegistryError {
    /// No registered tool carries the requested name.
    NotFound,
    /// A tool with that name is registered already.
    DuplicateName,
}

/// The names of a sequence of descriptors, in order.
pub open spec fn names_of(descriptors: Seq<ToolDescriptor>) -> Seq<Seq<char>> {
    descriptors.map_values(|d: ToolDescriptor| d.name@)
}

/// No name occurs twice.
pub open spec fn names_unique(names: Seq<Seq<char>>) -> bool {
    forall|i: int, j: int| 0 <= i < names.len() && 0 <= j < names.len() && i != j
        ==> names[i] != names[j]
}

/// The descriptor of each entry, in order.
pub open spec fn entry_descriptors<T>(entries: Seq<(ToolDescriptor, T)>) -> Seq<ToolDescriptor> {
    entries.map_values(|e: (ToolDescriptor, T)| e.0)
}

/// The tool handle of each entry, in order.
pub open spec fn entry_tools<T>(entries: Seq<(ToolDescriptor, T)>) -> Seq<T> {
    entries.map_values(|e: (ToolDescriptor, T)| e.1)
}

/// Registered tools: a descriptor and a tool handle at each position.
pub struct ToolRegistry<T> {
    descriptors: Vec<ToolDescriptor>,
    tools: Vec<T>,
}

impl<T> ToolRegistry<T> {
    /// The registered descriptors, in registration order.
    pub closed spec fn descriptors(&self) -> Seq<ToolDescriptor> {
        self.descriptors@
    }

    /// The registered tool handles, position for position with `descriptors`.
    pub closed spec fn tools(&self) -> Seq<T> {
        self.tools@
    }

    pub open spec fn names(&self) -> Seq<Seq<char>> {
        names_of(self.descriptors())
    }

    pub open spec fn wf(&self) -> bool {
        &&& self.descriptors().len() == self.tools().len()
        &&& names_unique(self.names())
    }

    /// The tool registered under `name`, if any.
    pub open spec fn lookup(&self, name: Seq<char>) -> Option<T> {
        if self.names().contains(name) {
            Some(self.tools()[self.names().index_of(name)])
        } else {
            None
        }
    }

    pub fn new() -> (r: Self)
        ensures
            r.wf(),
            r.descriptors() == Seq::<ToolDescriptor>::empty(),
            r.tools() == Seq::<T>::empty(),
    {
        let r = ToolRegistry { descriptors: Vec::new(), tools: Vec::new() };
        assert(r.names() =~= Seq::<Seq<char>>::empty());
        r
    }

    /// Position of the tool named `name`, if one is registered.
    fn position(&self, name: &String) -> (r: Option<usize>)
        requires
            self.wf(),
        ensures
            match r {
                Some(i) => i < self.names().len() && self.names()[i as int] == name@,
                None => !self.names().contains(name@),
            },
    {
        let mut i: usize = 0;
        while i < self.descriptors.len()
            invariant
                self.wf(),
                i <= self.descriptors@.len(),
                forall|j: int| 0 <= j < i ==> self.names()[j] != name@,
            decreases self.descriptors@.len() - i,
        {
            if self.descriptors[i].name == *name {
                return Some(i);
            }
            i = i + 1;
        }
        None
    }

    /// Adds a tool under the name its descriptor gives; refuses a name that is taken.
    pub fn register(&mut self, descriptor: ToolDescriptor, tool: T) -> (r: Result<(), RegistryError>)
        requires
            old(self).wf(),
        ensures
            final(self).wf(),
            old(self).names().contains(descriptor.name@) ==> r == Err::<(), RegistryError>(
                RegistryError::DuplicateName,
            ) && final(self).descriptors() == old(self).descriptors() && final(self).tools()
                == old(self).tools(),
            !old(self).names().contains(descriptor.name@) ==> r is Ok && final(self).descriptors()
                == old(self).descriptors().push(descriptor) && final(self).tools() == old(
                self,
            ).tools().push(tool),
    {
        match self.position(&descriptor.name) {
            Some(_) => Err(RegistryError::DuplicateName),
            None => {
                let ghost old_names = self.names();
                let ghost name = descriptor.name@;
                self.descriptors.push(descriptor);
                self.tools.push(tool);
                assert(self.names() =~= old_names.push(name));
                Ok(())
            },
        }
    }

    /// A registry holding `entries`, registered in order; refuses a list that
    /// repeats a name.
    pub fn with_tools(entries: Vec<(ToolDescriptor, T)>) -> (r: Result<Self, RegistryError>)
        ensures
            r is Ok <==> names_unique(names_of(entry_descriptors(entries@))),
            r matches Ok(reg) ==> reg.wf() && reg.descriptors() == entry_descriptors(entries@)
                && reg.tools() == entry_tools(entries@),
            r matches Err(e) ==> e == RegistryError::DuplicateName,
    {
        let len = entries.len();
        let ghost all = entries@;
        let ghost n = len as nat;
        let mut rest = entries;
        let mut reg = ToolRegistry::new();
        let mut i: usize = 0;
        assert(rest@ =~= all.subrange(0, n as int));
        assert(entry_descriptors(all.subrange(0, 0)) =~= reg.descriptors());
        assert(entry_tools(all.subrange(0, 0)) =~= reg.tools());
        while rest.len() > 0
            invariant
                reg.wf(),
                n == all.len(),
                all == entries@,
                n <= usize::MAX,
                i + rest@.len() == n,
                rest@ == all.subrange(i as int, n as int),
                reg.descriptors() == entry_descriptors(all.subrange(0, i as int)),
                reg.tools() == entry_tools(all.subrange(0, i as int)),
            decreases rest@.len(),
        {
            let (descriptor, tool) = rest.remove(0);
            let ghost name = descriptor.name@;
            let ghost before = reg.names();
            assert(all[i as int] == (descriptor, tool));
            match reg.register(descriptor, tool) {
                Ok(()) => {},
                Err(e) => {
                    proof {
                        assert(before.contains(name));
                        let j = before.index_of(name);
                        let names = names_of(entry_descriptors(all));
                        assert(before.len() == i);
                        assert(0 <= j < i);
                        assert(before[j] == all.subrange(0, i as int)[j].0.name@);
                        assert(names[j] == before[j]);
                        assert(names[i as int] == name);
                        assert(!names_unique(names));
                    }
                    return Err(e);
                },
            }
            assert(all.subrange(0, i + 1) =~= all.subrange(0, i as int).push(all[i as int]));
            assert(rest@ =~= all.subrange(i + 1, n as int));
            i = i + 1;
        }
        assert(all.subrange(0, n as int) =~= all);
        Ok(reg)
    }

    /// All registered descriptors, in registration order.
    pub fn list(&self) -> (r: &Vec<ToolDescriptor>)
        ensures
            r@ == self.descriptors(),
    {
        &self.descriptors
    }

    /// The tool registered under exactly `name`.
    pub fn resolve(&self, name: &str) -> (r: Result<&T, RegistryError>)
        requires
            self.wf(),
        ensures
            match r {
                Ok(t) => self.lookup(name@) == Some(*t),
                Err(e) => e == RegistryError::NotFound && self.lookup(name@) is None,
            },
    {
        let key = name.to_owned();
        match self.position(&key) {
            Some(i) => {
                proof {
                    lemma_index_of_unique(self.names(), i as int);
                }
                Ok(&self.tools[i])
            },
            None => Err(RegistryError::NotFound),
        }
    }
}

/// Every registered tool is found under its own name, and a name that no
/// descriptor carries finds nothing.
pub proof fn lemma_resolve_registered<T>(registry: ToolRegistry<T>, i: int, other: Seq<char>)
    requires
        registry.wf(),
        0 <= i < registry.names().len(),
        !registry.names().contains(other),
    ensures
        registry.lookup(registry.names()[i]) == Some(registry.tools()[i]),
        registry.lookup(other) is None,
{
    lemma_index_of_unique(registry.names(), i);
}

/// In a sequence without repeats, the first position of an element is its only one.
pub proof fn lemma_index_of_unique(names: Seq<Seq<char>>, i: int)
    requires
        names_unique(names),
        0 <= i < names.len(),
    ensures
        names.contains(names[i]),
        names.index_of(names[i]) == i,
{
    assert(names.contains(names[i]));
    let k = names.index_of(names[i]);
    assert(names[k] == names[i]);
}

} // verus!
