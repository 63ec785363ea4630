//! The runtime load-and-dispatch decisions of the generated wrapper,
//! verified over plain values.
//!
//! The host hands back one resolution outcome per described symbol (did
//! its name resolve to a non-null address?).  Building a [`LoadedTable`]
//! from those outcomes is the single one-way transition from unloaded to
//! loaded: every slot's status is fixed then, a missing symbol never
//! aborts the load, and a running count of resolved slots is retained
//! for diagnostics.  Dispatching through an unresolved slot is refused
//! with an error naming the function, since the generated wrapper must
//! never call through a null pointer.
//!
//! A loaded table is immutable, so sharing it for concurrent read-only
//! dispatch is sound as far as this table is concerned; whether the
//! native functions behind the slots tolerate concurrent calls is the
//! caller's obligation, as most hosts bind them to one UI thread.

use vstd::prelude::*;
use vstd::string::*;

use crate::model::BindingModel;
use crate::text::lib_prefix;

verus! {

/// The number of `true` outcomes.
pub open spec fn count_resolved(s: Seq<bool>) -> int
    decreases s.len(),
{
    if s.len() == 0 {
        0
    } else {
        count_resolved(s.drop_last()) + if s.last() {
            1int
        } else {
            0int
        }
    }
}

pub proof fn lemma_count_resolved_bounds(s: Seq<bool>)
    ensures
        0 <= count_resolved(s) <= s.len(),
    decreases s.len(),
{
    if s.len() > 0 {
        lemma_count_resolved_bounds(s.drop_last());
    }
}

/// No outcome resolved: the count is zero.
pub proof fn lemma_count_resolved_none(s: Seq<bool>)
    requires
        forall|i: int| 0 <= i < s.len() ==> !s[i],
    ensures
        count_resolved(s) == 0,
    decreases s.len(),
{
    if s.len() > 0 {
        lemma_count_resolved_none(s.drop_last());
    }
}

/// Refusing to dispatch through an unresolved slot: the error names the
/// function, so a host/library version mismatch can be diagnosed.
#[derive(Debug, Clone, PartialEq, Eq)]
pub struct DispatchError {
    pub name: String,
}

impl DispatchError {
    /// The user-visible text of the failure, naming the function.
    pub fn describe(&self) -> (r: String)
        ensures
            r@ == "Attempt to use a function that has not been loaded: "@ + self.name@,
    {
        let mut out = String::from_str("Attempt to use a function that has not been loaded: ");
        out.append(self.name.as_str());
        out
    }
}

/// The per-function slot statuses of one loaded wrapper, fixed for its
/// whole lifetime at load time.
pub struct LoadedTable {
    names: Vec<String>,
    resolved: Vec<bool>,
    loaded_count: u32,
}

#[verifier::ext_equal]
pub struct LoadedTableView {
    pub names: Seq<Seq<char>>,
    pub resolved: Seq<bool>,
    pub loaded_count: int,
}

impl View for LoadedTable {
    type V = LoadedTableView;

    closed spec fn view(&self) -> LoadedTableView {
        LoadedTableView {
            names: self.names.deep_view(),
            resolved: self.resolved@,
            loaded_count: self.loaded_count as int,
        }
    }
}

impl LoadedTable {
    /// A table is well formed when it has one status per name and its
    /// count is the number of resolved slots.
    pub open spec fn wf(&self) -> bool {
        &&& self@.names.len() == self@.resolved.len()
        &&& self@.loaded_count == count_resolved(self@.resolved)
    }

    /// The one-way transition from unloaded to loaded: records every
    /// outcome as it is and counts the hits.  No outcome, not even all
    /// misses, makes the load fail.
    pub fn load(names: Vec<String>, outcomes: Vec<bool>) -> (t: LoadedTable)
        requires
            names.len() == outcomes.len(),
            outcomes.len() <= u32::MAX,
        ensures
            t.wf(),
            t@.names == names.deep_view(),
            t@.resolved == outcomes@,
            t@.loaded_count == count_resolved(outcomes@),
    {
        proof {
            lemma_count_resolved_bounds(outcomes@);
        }
        let mut count: u32 = 0;
        let mut i: usize = 0;
        proof {
            assert(outcomes@.take(0) =~= Seq::<bool>::empty());
        }
        while i < outcomes.len()
            invariant
                i <= outcomes.len(),
                outcomes.len() <= u32::MAX,
                count == count_resolved(outcomes@.take(i as int)),
                count <= i,
            decreases outcomes.len() - i,
        {
            proof {
                assert(outcomes@.take(i as int + 1).drop_last() =~= outcomes@.take(i as int));
                assert(outcomes@.take(i as int + 1).last() == outcomes@[i as int]);
                lemma_count_resolved_bounds(outcomes@.take(i as int));
            }
            if outcomes[i] {
                count = count + 1;
            }
            i += 1;
        }
        proof {
            assert(outcomes@.take(outcomes@.len() as int) =~= outcomes@);
        }
        LoadedTable { names, resolved: outcomes, loaded_count: count }
    }

    /// How many of the described functions resolved.
    pub fn resolved_count(&self) -> (c: u32)
        ensures
            c as int == self@.loaded_count,
    {
        self.loaded_count
    }

    /// The number of slots.
    pub fn len(&self) -> (n: usize)
        ensures
            n == self@.names.len(),
    {
        self.names.len()
    }

    /// Whether slot `i` resolved at load time.
    pub fn is_resolved(&self, i: usize) -> (b: bool)
        requires
            self.wf(),
            i < self@.names.len(),
        ensures
            b == self@.resolved[i as int],
    {
        self.resolved[i]
    }

    /// The dispatch decision for slot `i`: go ahead exactly when the
    /// slot resolved, and otherwise fail naming the function.
    pub fn dispatch(&self, i: usize) -> (r: Result<(), DispatchError>)
        requires
            self.wf(),
            i < self@.names.len(),
        ensures
            r is Ok <==> self@.resolved[i as int],
            r matches Err(e) ==> e.name@ == self@.names[i as int],
    {
        if self.resolved[i] {
            Ok(())
        } else {
            Err(DispatchError { name: self.names[i].clone() })
        }
    }
}

/// The fully-qualified symbol to hand to the host's resolver for a bare
/// declared name: the library prefix put back in front.
pub fn qualified_name(bare: &str) -> (r: String)
    ensures
        r@ == lib_prefix() + bare@,
{
    let mut out = String::from_str(crate::library_prefix());
    out.append(bare);
    out
}

/// Builds the loaded table for a model from per-function outcomes, in
/// model order.
pub fn load_for_model(model: &BindingModel, outcomes: Vec<bool>) -> (t: LoadedTable)
    requires
        outcomes.len() == model.functions.len(),
        outcomes.len() <= u32::MAX,
    ensures
        t.wf(),
        t@.names.len() == model@.functions.len(),
        forall|i: int| 0 <= i < t@.names.len() ==> t@.names[i] == model@.functions[i].name,
        t@.resolved == outcomes@,
        t@.loaded_count == count_resolved(outcomes@),
{
    let mut names: Vec<String> = Vec::new();
    let mut i: usize = 0;
    while i < model.functions.len()
        invariant
            i <= model.functions.len(),
            names.deep_view().len() == i,
            forall|j: int| 0 <= j < i ==> names.deep_view()[j] == model@.functions[j].name,
        decreases model.functions.len() - i,
    {
        let ghost before = names.deep_view();
        names.push(model.functions[i].name.clone());
        proof {
            assert(names.deep_view() =~= before.push(model.functions@[i as int].name@));
        }
        i += 1;
    }
    LoadedTable::load(names, outcomes)
}

} // verus!
