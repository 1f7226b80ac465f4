//! The state of the module: its table of builtins and the feature set that
//! the shell is shown.

use crate::builtin::{new_builtin, Builtin, Handler};
use vstd::prelude::*;

verus! {

/// The features of the module as the shell sees them: a run of descriptors in
/// the module's table, named by where it starts and how many it holds. It owns
/// nothing, and is good for as long as the table is not changed.
#[derive(Clone, Copy, Debug, PartialEq, Eq)]
pub struct Features {
    /// The position in the table of the first descriptor; `None` where the
    /// set refers to no table.
    pub bn_list: Option<usize>,
    /// The number of descriptors.
    pub bn_size: i32,
}

impl Features {
    /// The feature set that refers to nothing.
    pub open spec fn zeroed() -> Features {
        Features { bn_list: None, bn_size: 0 }
    }

    /// The feature set for the whole of `table`.
    pub open spec fn over(table: Seq<Builtin>) -> Features {
        if table.len() == 0 {
            Features::zeroed()
        } else {
            Features { bn_list: Some(0), bn_size: table.len() as i32 }
        }
    }

    /// The descriptors of `table` that the set refers to.
    pub open spec fn builtins(self, table: Seq<Builtin>) -> Seq<Builtin> {
        match self.bn_list {
            Some(start) => table.subrange(start as int, start + self.bn_size),
            None => Seq::empty(),
        }
    }
}

/// The state that the module keeps between the calls of the shell.
pub struct Module {
    bintab: Vec<Builtin>,
    features: Features,
}

/// A [`Module`] as mathematical values.
pub struct ModuleView {
    pub bintab: Seq<Builtin>,
    pub features: Features,
}

impl ModuleView {
    /// The feature set is the one for the whole table, and the table is short
    /// enough for its length to be the set's size.
    pub open spec fn wf(self) -> bool {
        &&& self.bintab.len() <= i32::MAX
        &&& self.features == Features::over(self.bintab)
    }

    /// The state from the module's first use on: the table holds the
    /// descriptor of `lastcmd` and the feature set refers to the whole table.
    pub open spec fn loaded() -> ModuleView {
        let bintab = seq![Module::lastcmd_builtin()];
        ModuleView { bintab, features: Features::over(bintab) }
    }

    /// The state after a use: a table that is still empty is filled, one that
    /// was filled is left as it is.
    pub open spec fn populated(self) -> ModuleView {
        if self.bintab.len() == 0 {
            ModuleView::loaded()
        } else {
            self
        }
    }
}

impl View for Module {
    type V = ModuleView;

    closed spec fn view(&self) -> ModuleView {
        ModuleView { bintab: self.bintab@, features: self.features }
    }
}

impl Module {
    #[verifier::type_invariant]
    closed spec fn inv(&self) -> bool {
        self@.wf()
    }

    /// The descriptor of the `lastcmd` command: one argument, no more and no
    /// fewer.
    pub open spec fn lastcmd_builtin() -> Builtin {
        Builtin {
            name: "lastcmd",
            flags: 0,
            handlerfunc: Some(Handler::LastCmd),
            minargs: 1,
            maxargs: 1,
            funcid: 0,
            optstr: None,
            defopts: None,
        }
    }

    /// A module with an empty table and a feature set that refers to nothing.
    pub fn new() -> (module: Module)
        ensures
            module@.bintab == Seq::<Builtin>::empty(),
            module@.features == Features::zeroed(),
            module@.wf(),
    {
        Module { bintab: Vec::new(), features: Features { bn_list: None, bn_size: 0 } }
    }

    /// The module as it stands from its first use on.
    pub fn loaded() -> (module: Module)
        ensures
            module@ == ModuleView::loaded(),
            module@.wf(),
    {
        let mut bintab = Vec::new();
        bintab.push(new_builtin("lastcmd", Some(Handler::LastCmd), 1, 1));
        Module { bintab, features: Features { bn_list: Some(0), bn_size: 1 } }
    }

    /// Fills the table on the module's first use, and leaves a filled table as
    /// it is.
    pub fn populate(&mut self)
        ensures
            final(self)@ == old(self)@.populated(),
            final(self)@.wf(),
    {
        proof {
            use_type_invariant(&*self);
        }
        if self.bintab.len() == 0 {
            *self = Module::loaded();
        }
    }

    /// The table of builtins.
    pub fn builtins(&self) -> (table: &Vec<Builtin>)
        ensures
            table@ == self@.bintab,
            self@.wf(),
    {
        proof {
            use_type_invariant(self);
        }
        &self.bintab
    }

    /// The feature set.
    pub fn features(&self) -> (features: Features)
        ensures
            features == self@.features,
            self@.wf(),
    {
        proof {
            use_type_invariant(self);
        }
        self.features
    }
}

/// The shell is shown every descriptor of the table, in the table's order.
pub proof fn lemma_features_show_whole_table(module: ModuleView)
    requires
        module.wf(),
    ensures
        module.features.builtins(module.bintab) == module.bintab,
{
}

/// A use of the module keeps its state well formed, and a second use changes
/// nothing.
pub proof fn lemma_populated_once(module: ModuleView)
    requires
        module.wf(),
    ensures
        module.populated().wf(),
        module.populated().bintab.len() > 0,
        module.populated().populated() == module.populated(),
{
}

} // verus!
