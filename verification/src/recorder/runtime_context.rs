//! What the session knows of one attached runtime.

use std::collections::HashMap;

use vstd::prelude::*;

use crate::recorder::pipeline::{entry_texts, Entry};
use crate::text::{decimal, to_decimal};

verus! {

/// One attached runtime: its name and the identities of its workers.
#[derive(Debug)]
pub struct RuntimeContext {
    /// The name that segment metadata gives the runtime.
    pub name: Option<String>,
    /// The number of workers and the first worker identity, once known.
    pub workers_and_base: Option<(u64, u64)>,
    /// Worker identity by worker index.
    pub worker_ids: HashMap<u64, u64>,
}

/// What a runtime context holds.
#[verifier::ext_equal]
pub struct ContextModel {
    pub name: Option<Seq<char>>,
    pub workers_and_base: Option<(u64, u64)>,
    pub worker_ids: Map<u64, u64>,
}

impl View for RuntimeContext {
    type V = ContextModel;

    open spec fn view(&self) -> ContextModel {
        ContextModel {
            name: match self.name {
                Some(name) => Some(name@),
                None => None,
            },
            workers_and_base: self.workers_and_base,
            worker_ids: self.worker_ids@,
        }
    }
}

/// The identities of `count` workers that start at `base`, by worker index.
pub open spec fn worker_block(base: u64, count: u64) -> Map<u64, u64> {
    Map::new(|i: u64| i < count, |i: u64| (base + i) as u64)
}

impl RuntimeContext {
    /// A context whose workers are not known yet.
    pub fn new(name: Option<String>) -> (ctx: RuntimeContext)
        ensures
            ctx.name == name,
            ctx.workers_and_base is None,
            ctx.worker_ids@ == Map::<u64, u64>::empty(),
    {
        RuntimeContext { name, workers_and_base: None, worker_ids: HashMap::new() }
    }

    /// Remembers the workers of the runtime, unless they are known already;
    /// tells whether it did.
    pub fn set_workers(&mut self, count: u64, base: u64) -> (fresh: bool)
        ensures
            fresh == (old(self).workers_and_base is None),
            final(self).workers_and_base == if fresh {
                Some((count, base))
            } else {
                old(self).workers_and_base
            },
            final(self).name == old(self).name,
            final(self).worker_ids == old(self).worker_ids,
    {
        if self.workers_and_base.is_none() {
            self.workers_and_base = Some((count, base));
            true
        } else {
            false
        }
    }

    /// Gives worker `i` the identity `base + i`, for each of `count` workers.
    pub fn populate(&mut self, count: u64, base: u64)
        requires
            base + count <= u64::MAX,
        ensures
            final(self).worker_ids@ == old(self).worker_ids@.union_prefer_right(
                worker_block(base, count),
            ),
            final(self).name == old(self).name,
            final(self).workers_and_base == old(self).workers_and_base,
    {
        broadcast use vstd::std_specs::hash::group_hash_axioms;

        let mut i: u64 = 0;
        assert(self.worker_ids@ =~= old(self).worker_ids@.union_prefer_right(worker_block(base, 0)));
        while i < count
            invariant
                i <= count,
                base + count <= u64::MAX,
                self.worker_ids@ == old(self).worker_ids@.union_prefer_right(worker_block(base, i)),
                self.name == old(self).name,
                self.workers_and_base == old(self).workers_and_base,
            decreases count - i,
        {
            self.worker_ids.insert(i, base + i);
            i = i + 1;
            assert(self.worker_ids@ =~= old(self).worker_ids@.union_prefer_right(
                worker_block(base, i),
            ));
        }
    }
}

/// The identities of the workers with an index below `count`, in the order of
/// their indices.
pub open spec fn ids_in_order(worker_ids: Map<u64, u64>, count: nat) -> Seq<u64>
    decreases count,
{
    if count == 0 {
        Seq::empty()
    } else {
        let before = ids_in_order(worker_ids, (count - 1) as nat);
        let index = (count - 1) as u64;
        if worker_ids.dom().contains(index) {
            before.push(worker_ids[index])
        } else {
            before
        }
    }
}

/// The numbers in decimal, with a comma between each two.
pub open spec fn joined(ids: Seq<u64>) -> Seq<char>
    decreases ids.len(),
{
    if ids.len() == 0 {
        Seq::empty()
    } else if ids.len() == 1 {
        decimal(ids[0] as nat)
    } else {
        joined(ids.drop_last()) + ","@ + decimal(ids.last() as nat)
    }
}

impl ContextModel {
    /// The identities of the workers, in the order of their indices.
    pub open spec fn ids(self) -> Seq<u64> {
        match self.workers_and_base {
            Some((count, base)) => ids_in_order(self.worker_ids, count as nat),
            None => Seq::empty(),
        }
    }
}

/// The metadata entries that name the runtimes: for each that has a name, in
/// the order of their attachment, the identities of its workers.
pub open spec fn runtime_texts(contexts: Seq<ContextModel>) -> Seq<(Seq<char>, Seq<char>)>
    decreases contexts.len(),
{
    if contexts.len() == 0 {
        Seq::empty()
    } else {
        let before = runtime_texts(contexts.drop_last());
        let last = contexts.last();
        match last.name {
            Some(name) => before.push(("runtime."@ + name, joined(last.ids()))),
            None => before,
        }
    }
}

impl RuntimeContext {
    /// Writes the identities of the workers, in the order of their indices and
    /// with a comma between each two.
    fn ids_text(&self) -> (text: String)
        ensures
            text@ == joined(self@.ids()),
    {
        broadcast use vstd::std_specs::hash::group_hash_axioms;

        let mut text = "".to_owned();
        proof {
            reveal_strlit("");
            assert(text@ =~= Seq::empty());
        }
        if let Some((count, _)) = self.workers_and_base {
            let mut first = true;
            let mut i: u64 = 0;
            let ghost ids = self.worker_ids@;
            while i < count
                invariant
                    i <= count,
                    ids == self.worker_ids@,
                    text@ == joined(ids_in_order(ids, i as nat)),
                    first == (ids_in_order(ids, i as nat).len() == 0),
                decreases count - i,
            {
                broadcast use vstd::std_specs::hash::group_hash_axioms;

                let ghost before = ids_in_order(ids, i as nat);
                if let Some(id) = self.worker_ids.get(&i) {
                    if !first {
                        text.append(",");
                    }
                    text.append(to_decimal(*id).as_str());
                    first = false;
                    proof {
                        assert(ids_in_order(ids, (i + 1) as nat) == before.push(*id));
                        assert(before.push(*id).drop_last() =~= before);
                        assert(text@ =~= joined(before.push(*id)));
                    }
                }
                i = i + 1;
            }
        }
        text
    }
}

/// The metadata entries that name the runtimes of a session. They tell which
/// workers belong to which runtime; a runtime without a name has none.
pub fn runtime_entries(contexts: &Vec<RuntimeContext>) -> (entries: Vec<Entry>)
    ensures
        entry_texts(entries@) == runtime_texts(
            contexts@.map_values(|context: RuntimeContext| context@),
        ),
{
    let ghost all = contexts@.map_values(|context: RuntimeContext| context@);
    let mut entries: Vec<Entry> = Vec::new();
    let mut i: usize = 0;
    assert(entry_texts(entries@) =~= runtime_texts(all.take(0)));
    while i < contexts.len()
        invariant
            i <= contexts@.len(),
            all == contexts@.map_values(|context: RuntimeContext| context@),
            entry_texts(entries@) == runtime_texts(all.take(i as int)),
        decreases contexts@.len() - i,
    {
        let ghost before = entries@;
        assert(all.take(i + 1).drop_last() =~= all.take(i as int));
        if let Some(name) = &contexts[i].name {
            let mut key = "runtime.".to_owned();
            key.append(name.as_str());
            let value = contexts[i].ids_text();
            entries.push((key, value));
            assert(entry_texts(entries@) =~= entry_texts(before).push((key@, value@)));
        }
        i = i + 1;
    }
    assert(all.take(i as int) =~= all);
    entries
}

/// The workers of a runtime that reserved a block of identities have, in their
/// order, the identities of that block.
pub proof fn law_block_in_order(base: u64, count: u64, n: nat)
    requires
        base + count <= u64::MAX,
        n <= count,
    ensures
        ids_in_order(worker_block(base, count), n) == Seq::new(n, |i: int| (base + i) as u64),
    decreases n,
{
    if n > 0 {
        law_block_in_order(base, count, (n - 1) as nat);
    }
    assert(ids_in_order(worker_block(base, count), n) =~= Seq::new(
        n,
        |i: int| (base + i) as u64,
    ));
}

/// One more identity is written behind a comma, and the first without one.
pub proof fn law_identities_are_separated_by_commas(ids: Seq<u64>, id: u64)
    ensures
        joined(Seq::empty()) == Seq::<char>::empty(),
        joined(seq![id]) == decimal(id as nat),
        ids.len() > 0 ==> joined(ids.push(id)) == joined(ids) + seq![','] + decimal(id as nat),
{
    reveal_strlit(",");
    assert(","@ =~= seq![',']);
    assert(ids.push(id).drop_last() =~= ids);
    assert(seq![id][0] == id);
}

/// Every worker with an index below the count is listed once, in the order of
/// the indices, and nobody else is.
pub proof fn law_every_worker_is_listed(worker_ids: Map<u64, u64>, count: nat)
    requires
        count < u64::MAX,
    ensures
        worker_ids.dom().contains(count as u64) ==> ids_in_order(worker_ids, count + 1)
            == ids_in_order(worker_ids, count).push(worker_ids[count as u64]),
        !worker_ids.dom().contains(count as u64) ==> ids_in_order(worker_ids, count + 1)
            == ids_in_order(worker_ids, count),
        ids_in_order(worker_ids, 0).len() == 0,
{
}

/// A block gives each worker with an index below the count the identity that
/// lies as far behind the first, and nobody else one.
pub proof fn law_blocks_are_contiguous(base: u64, count: u64, index: u64)
    requires
        base + count <= u64::MAX,
    ensures
        worker_block(base, count).dom().contains(index) <==> index < count,
        index < count ==> worker_block(base, count)[index] == base + index,
{
}

/// One more runtime adds one entry behind the others where it has a name, which
/// says `runtime.` and that name and lists its workers, and none where it has
/// no name. Without a runtime there is no entry.
pub proof fn law_each_named_runtime_has_one_entry(
    contexts: Seq<ContextModel>,
    context: ContextModel,
)
    ensures
        runtime_texts(Seq::empty()).len() == 0,
        context.name is None ==> runtime_texts(contexts.push(context)) == runtime_texts(contexts),
        context.name is Some ==> runtime_texts(contexts.push(context)).drop_last()
            == runtime_texts(contexts) && runtime_texts(contexts.push(context)).last() == (
            "runtime."@ + context.name->0,
            joined(context.ids()),
        ),
        context.workers_and_base is None ==> context.ids().len() == 0,
        context.workers_and_base matches Some((count, base)) ==> context.ids() == ids_in_order(
            context.worker_ids,
            count as nat,
        ),
{
    assert(contexts.push(context).drop_last() =~= contexts);
    if context.name is Some {
        assert(runtime_texts(contexts.push(context)).drop_last() =~= runtime_texts(contexts));
    }
}

} // verus!
