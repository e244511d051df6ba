use vstd::prelude::*;

verus! {

/// Hands out identifiers `1, 2, 3, ...`, one per call, never the same twice.
///
/// The generator remembers the last identifier it handed out (0 before the
/// first one). Identifiers are unique per generator: two generators hand out
/// the same numbers, so an application that wants identifiers unique across
/// the whole process creates one generator and passes it to every creation.
pub struct MyIdGenerator {
    last_id: usize,
}

impl MyIdGenerator {
    /// The last identifier handed out, 0 when none was.
    pub closed spec fn last(self) -> nat {
        self.last_id as nat
    }

    /// `id` was handed out by this generator (or by an earlier state of it).
    pub open spec fn has_issued(self, id: MyId) -> bool {
        1 <= id.value() <= self.last()
    }

    /// A generator that has handed out nothing yet.
    pub fn new() -> (generator: Self)
        ensures
            generator.last() == 0,
    {
        MyIdGenerator { last_id: 0 }
    }

    /// Whether another identifier can be handed out without exceeding `usize`.
    pub fn can_issue(&self) -> (r: bool)
        ensures
            r == (self.last() < usize::MAX),
    {
        self.last_id < usize::MAX
    }
}

/// An identifier handed out by a [`MyIdGenerator`].
pub struct MyId {
    id: usize,
}

impl MyId {
    /// The number this identifier stands for.
    pub closed spec fn value(self) -> nat {
        self.id as nat
    }

    /// A fresh identifier: one more than the last one `generator` handed out.
    ///
    /// It is unique among the identifiers of this generator only; the
    /// application shares one generator to keep identifiers unique across the
    /// whole process.
    pub fn new(generator: &mut MyIdGenerator) -> (id: MyId)
        requires
            old(generator).last() < usize::MAX,
        ensures
            id.value() == old(generator).last() + 1,
            final(generator).last() == id.value(),
    {
        MyId { id: Self::make_new_id(generator) }
    }

    /// Advances `generator` and returns the identifier number it now stands at.
    pub fn make_new_id(generator: &mut MyIdGenerator) -> (id: usize)
        requires
            old(generator).last() < usize::MAX,
        ensures
            id == old(generator).last() + 1,
            final(generator).last() == id,
    {
        let previous_id = generator.last_id;
        generator.last_id = previous_id + 1;
        previous_id + 1
    }

    /// The number this identifier stands for.
    pub fn value_of(&self) -> (v: usize)
        ensures
            v == self.value(),
    {
        self.id
    }
}

/// A fresh identifier differs from every identifier the generator handed out
/// before it, and the generator counts the fresh one as handed out afterwards,
/// together with all the earlier ones.
pub proof fn lemma_new_id_is_fresh(
    before: MyIdGenerator,
    after: MyIdGenerator,
    fresh: MyId,
    earlier: MyId,
)
    requires
        before.last() < usize::MAX,
        fresh.value() == before.last() + 1,
        after.last() == fresh.value(),
        before.has_issued(earlier),
    ensures
        earlier.value() != fresh.value(),
        !before.has_issued(fresh),
        after.has_issued(fresh),
        after.has_issued(earlier),
{
}

/// Some identifier in `ids` stands for the number `v`.
pub open spec fn returned_among(ids: Seq<MyId>, v: nat) -> bool {
    exists|k: int| 0 <= k < ids.len() && #[trigger] ids[k].value() == v
}

/// `ids[k]` was returned by a creation that found the generator in state
/// `gens[k]` and left it in state `gens[k + 1]`, for every `k`.
pub open spec fn successive_creations(gens: Seq<MyIdGenerator>, ids: Seq<MyId>) -> bool {
    &&& gens.len() == ids.len() + 1
    &&& forall|j: int|
        0 <= j < ids.len() ==> {
            &&& gens[j].last() < usize::MAX
            &&& #[trigger] ids[j].value() == gens[j].last() + 1
            &&& gens[j + 1].last() == ids[j].value()
        }
}

/// Any number of successive creations from one generator: `gens[k]` is the
/// generator before creation `k` and `gens[k + 1]` after it, `ids[k]` what it
/// returned. Then creation `k` returns the identifier `gens[0].last() + k + 1`,
/// so later creations return strictly larger identifiers, no two are equal,
/// and from a new generator the `n` creations return exactly `1, ..., n`.
pub proof fn lemma_successive_ids(gens: Seq<MyIdGenerator>, ids: Seq<MyId>)
    requires
        successive_creations(gens, ids),
    ensures
        forall|k: int| 0 <= k < ids.len() ==> #[trigger] ids[k].value() == gens[0].last() + k + 1,
        forall|j: int, k: int|
            0 <= j < k < ids.len() ==> #[trigger] ids[j].value() < #[trigger] ids[k].value(),
        gens[0].last() == 0 ==> forall|v: nat| #[trigger] returned_among(ids, v) <==> 1 <= v <= ids.len(),
{
    assert forall|k: int| 0 <= k < ids.len() implies #[trigger] ids[k].value() == gens[0].last() + k
        + 1 by {
        lemma_id_at(gens, ids, k);
    }
    if gens[0].last() == 0 {
        assert forall|v: nat| #[trigger] returned_among(ids, v) <==> 1 <= v <= ids.len() by {
            if 1 <= v <= ids.len() {
                assert(ids[v - 1].value() == v);
            }
        }
    }
}

proof fn lemma_id_at(gens: Seq<MyIdGenerator>, ids: Seq<MyId>, k: int)
    requires
        successive_creations(gens, ids),
        0 <= k < ids.len(),
    ensures
        ids[k].value() == gens[0].last() + k + 1,
    decreases k,
{
    if k > 0 {
        lemma_id_at(gens, ids, k - 1);
        assert(ids[k - 1].value() == gens[k - 1].last() + 1);
    }
    assert(ids[k].value() == gens[k].last() + 1);
}

} // verus!
