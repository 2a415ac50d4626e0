//! The two-tier symbol store: lexical frames for stack values, one flat
//! map for module-scope values.

use vstd::prelude::*;

use crate::ir::Operand;
use crate::types::DataTypes;

verus! {

/// A lowered value: its semantic type paired with its materialized operand.
#[derive(Debug, Clone, Copy, PartialEq, Eq, Structural)]
pub struct Binding {
    pub kind: DataTypes,
    pub value: Operand,
}

/// One name bound in a frame or in the module-scope map.
#[derive(Debug, Clone)]
pub struct Entry {
    pub name: String,
    pub binding: Binding,
}

/// The binding of `name` in a frame; a later entry overrides an earlier one.
pub open spec fn frame_lookup(f: Seq<Entry>, name: Seq<char>) -> Option<Binding>
    decreases f.len(),
{
    if f.len() == 0 {
        None
    } else if f.last().name@ == name {
        Some(f.last().binding)
    } else {
        frame_lookup(f.drop_last(), name)
    }
}

/// The binding of `name` in a stack of frames, searched from the innermost outward.
pub open spec fn stack_lookup(fs: Seq<Seq<Entry>>, name: Seq<char>) -> Option<Binding>
    decreases fs.len(),
{
    if fs.len() == 0 {
        None
    } else {
        match frame_lookup(fs.last(), name) {
            Some(b) => Some(b),
            None => stack_lookup(fs.drop_last(), name),
        }
    }
}

/// Two-tier binding environment: lexical frames for stack values, one flat
/// map for module-scope values.
pub struct SymbolStore {
    locals: Vec<Vec<Entry>>,
    globals: Vec<Entry>,
    scope: usize,
}

impl SymbolStore {
    pub open spec fn wf(&self) -> bool {
        self.frames().len() == self.depth() + 1
    }

    pub closed spec fn frames(&self) -> Seq<Seq<Entry>> {
        self.locals@.map_values(|f: Vec<Entry>| f@)
    }

    pub closed spec fn flat(&self) -> Seq<Entry> {
        self.globals@
    }

    pub closed spec fn depth(&self) -> nat {
        self.scope as nat
    }

    /// The stack binding that a numeric reference to `name` resolves to.
    pub open spec fn local(&self, name: Seq<char>) -> Option<Binding> {
        stack_lookup(self.frames(), name)
    }

    /// The module-scope binding that a string or boolean reference to `name` resolves to.
    pub open spec fn global(&self, name: Seq<char>) -> Option<Binding> {
        frame_lookup(self.flat(), name)
    }

    pub fn new() -> (r: SymbolStore)
        ensures
            r.wf(),
            r.depth() == 0,
            r.frames() == seq![Seq::<Entry>::empty()],
            r.flat().len() == 0,
    {
        let mut locals: Vec<Vec<Entry>> = Vec::new();
        locals.push(Vec::new());
        let r = SymbolStore { locals, globals: Vec::new(), scope: 0 };
        assert(r.frames() =~= seq![Seq::<Entry>::empty()]);
        r
    }

    pub fn scope(&self) -> (r: usize)
        ensures
            r == self.depth(),
    {
        self.scope
    }

    /// Open a new, empty innermost frame.
    pub fn enter(&mut self)
        requires
            old(self).wf(),
            old(self).depth() < usize::MAX,
        ensures
            final(self).wf(),
            final(self).depth() == old(self).depth() + 1,
            final(self).frames() == old(self).frames().push(Seq::empty()),
            final(self).flat() == old(self).flat(),
    {
        let ghost before = self.frames();
        self.locals.push(Vec::new());
        self.scope = self.scope + 1;
        assert(self.frames() =~= before.push(Seq::empty()));
    }

    /// Drop the innermost frame and every binding in it.
    pub fn leave(&mut self)
        requires
            old(self).wf(),
            old(self).depth() > 0,
        ensures
            final(self).wf(),
            final(self).depth() == old(self).depth() - 1,
            final(self).frames() == old(self).frames().drop_last(),
            final(self).flat() == old(self).flat(),
    {
        let ghost before = self.frames();
        self.locals.pop();
        self.scope = self.scope - 1;
        assert(self.frames() =~= before.drop_last());
    }

    /// Bind `name` in the innermost frame.
    pub fn bind_local(&mut self, name: String, binding: Binding)
        requires
            old(self).wf(),
        ensures
            final(self).wf(),
            final(self).depth() == old(self).depth(),
            final(self).frames() == old(self).frames().update(
                old(self).frames().len() - 1,
                old(self).frames().last().push(Entry { name, binding }),
            ),
            final(self).flat() == old(self).flat(),
            final(self).local(name@) == Some(binding),
    {
        let ghost name_view = name@;
        let ghost entry = Entry { name, binding };
        let ghost before = self.frames();
        let mut frame = match self.locals.pop() {
            Some(f) => f,
            None => Vec::new(),
        };
        frame.push(Entry { name, binding });
        self.locals.push(frame);
        proof {
            let fs = self.frames();
            assert(fs =~= before.update(before.len() - 1, before.last().push(entry)));
            assert(fs.last().drop_last() =~= before.last());
            assert(frame_lookup(fs.last(), name_view) == Some(binding));
        }
    }

    /// Bind `name` in the module-scope map, whatever the current depth.
    pub fn bind_global(&mut self, name: String, binding: Binding)
        requires
            old(self).wf(),
        ensures
            final(self).wf(),
            final(self).depth() == old(self).depth(),
            final(self).frames() == old(self).frames(),
            final(self).flat() == old(self).flat().push(Entry { name, binding }),
            final(self).global(name@) == Some(binding),
    {
        let ghost name_view = name@;
        let ghost before = self.globals@;
        self.globals.push(Entry { name, binding });
        proof {
            assert(self.globals@.drop_last() =~= before);
        }
    }

    /// Look `name` up in the module-scope map.
    pub fn get_global(&self, name: &String) -> (r: Option<Binding>)
        ensures
            r == self.global(name@),
    {
        find_in_frame(&self.globals, name)
    }

    /// Look `name` up in the stack frames, innermost first.
    pub fn get_local(&self, name: &String) -> (r: Option<Binding>)
        requires
            self.wf(),
        ensures
            r == self.local(name@),
    {
        let mut i: usize = self.locals.len();
        assert(self.frames().subrange(0, i as int) =~= self.frames());
        while i > 0
            invariant
                i <= self.locals@.len(),
                stack_lookup(self.frames(), name@) == stack_lookup(
                    self.frames().subrange(0, i as int),
                    name@,
                ),
            decreases i,
        {
            let ghost prefix = self.frames().subrange(0, i as int);
            assert(prefix.drop_last() =~= self.frames().subrange(0, i - 1));
            assert(prefix.last() == self.locals@[i - 1]@);
            match find_in_frame(&self.locals[i - 1], name) {
                Some(b) => {
                    return Some(b);
                },
                None => {},
            }
            i = i - 1;
        }
        None
    }
}

fn find_in_frame(frame: &Vec<Entry>, name: &String) -> (r: Option<Binding>)
    ensures
        r == frame_lookup(frame@, name@),
{
    let mut i: usize = frame.len();
    assert(frame@.subrange(0, i as int) =~= frame@);
    while i > 0
        invariant
            i <= frame@.len(),
            frame_lookup(frame@, name@) == frame_lookup(frame@.subrange(0, i as int), name@),
        decreases i,
    {
        let ghost prefix = frame@.subrange(0, i as int);
        assert(prefix.drop_last() =~= frame@.subrange(0, i - 1));
        if frame[i - 1].name == *name {
            return Some(frame[i - 1].binding);
        }
        i = i - 1;
    }
    None
}

} // verus!
