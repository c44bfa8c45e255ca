//! What the build tool reports while it builds the tests, which of it is
//! a test to run, and the order in which the tests run.

use vstd::prelude::*;
use vstd::string::*;
use vstd::utf8::encode_utf8;
use vstd::seq_lib::*;

verus! {

/// One line of the build tool's event stream.
#[derive(Debug, PartialEq, Eq)]
pub enum BuildEvent {
    /// A compiler diagnostic, to be shown as it is.
    Diagnostic { rendered: String },
    /// Something was built.
    Artifact { package_id: String, target_name: String, executable: Option<String>, test: bool },
    /// Anything else.
    Other,
}

/// A test binary that the build produced.
#[derive(Debug, PartialEq, Eq)]
pub struct TestArtifact {
    pub package_id: String,
    pub target_name: String,
    pub executable: String,
}

impl BuildEvent {
    /// The test binary that the event announces: an artifact built with
    /// the test profile that has an executable. Every other event
    /// announces none.
    pub open spec fn test_artifact(self) -> Option<TestArtifact> {
        match self {
            BuildEvent::Artifact { package_id, target_name, executable: Some(path), test: true } => Some(
                TestArtifact { package_id, target_name, executable: path },
            ),
            _ => None,
        }
    }

    /// Takes the test binary out of the event, if it announces one.
    pub fn into_test_artifact(self) -> (artifact: Option<TestArtifact>)
        ensures
            artifact == self.test_artifact(),
    {
        match self {
            BuildEvent::Artifact { package_id, target_name, executable: Some(path), test } => {
                if test {
                    Some(TestArtifact { package_id, target_name, executable: path })
                } else {
                    None
                }
            },
            _ => None,
        }
    }
}

/// How two texts stand to each other.
#[derive(Clone, Copy, Debug, PartialEq, Eq)]
pub enum Order {
    Less,
    Equal,
    Greater,
}

/// The lexicographic order of two byte strings: the first byte that
/// differs decides, and a proper prefix comes first.
pub open spec fn bytes_order(a: Seq<u8>, b: Seq<u8>) -> Order
    decreases a.len(),
{
    if a.len() == 0 {
        if b.len() == 0 {
            Order::Equal
        } else {
            Order::Less
        }
    } else if b.len() == 0 {
        Order::Greater
    } else if a[0] < b[0] {
        Order::Less
    } else if a[0] > b[0] {
        Order::Greater
    } else {
        bytes_order(a.drop_first(), b.drop_first())
    }
}

/// The order of two texts: that of their UTF-8 bytes, which is the order
/// in which Rust compares strings.
pub open spec fn text_order(a: Seq<char>, b: Seq<char>) -> Order {
    bytes_order(encode_utf8(a), encode_utf8(b))
}

/// Two byte strings are in order `Equal` exactly when they are equal.
pub proof fn lemma_bytes_order_equal(a: Seq<u8>, b: Seq<u8>)
    ensures
        bytes_order(a, b) is Equal <==> a == b,
    decreases a.len(),
{
    if a.len() == 0 || b.len() == 0 {
        if a.len() == 0 && b.len() == 0 {
            assert(a =~= b);
        }
    } else {
        lemma_bytes_order_equal(a.drop_first(), b.drop_first());
        if a[0] == b[0] && a.drop_first() == b.drop_first() {
            assert(a =~= seq![a[0]] + a.drop_first());
            assert(b =~= seq![b[0]] + b.drop_first());
        }
    }
}

/// Turning the arguments round turns the order round.
pub proof fn lemma_bytes_order_flip(a: Seq<u8>, b: Seq<u8>)
    ensures
        bytes_order(a, b) is Less <==> bytes_order(b, a) is Greater,
        bytes_order(a, b) is Equal <==> bytes_order(b, a) is Equal,
    decreases a.len(),
{
    if a.len() != 0 && b.len() != 0 {
        lemma_bytes_order_flip(a.drop_first(), b.drop_first());
    }
}

/// What comes before something that comes before a third comes before
/// the third.
pub proof fn lemma_bytes_order_transitive(a: Seq<u8>, b: Seq<u8>, c: Seq<u8>)
    requires
        bytes_order(a, b) is Less,
        bytes_order(b, c) is Less,
    ensures
        bytes_order(a, c) is Less,
    decreases a.len(),
{
    if a.len() != 0 && b.len() != 0 && c.len() != 0 {
        if a[0] == b[0] && b[0] == c[0] {
            lemma_bytes_order_transitive(a.drop_first(), b.drop_first(), c.drop_first());
        }
    }
}

/// Compares two byte strings.
pub fn compare_bytes(a: &[u8], b: &[u8]) -> (order: Order)
    ensures
        order == bytes_order(a@, b@),
{
    let mut i: usize = 0;
    proof {
        assert(a@.skip(0) =~= a@);
        assert(b@.skip(0) =~= b@);
    }
    while i < a.len() && i < b.len()
        invariant
            i <= a.len(),
            i <= b.len(),
            bytes_order(a@, b@) == bytes_order(a@.skip(i as int), b@.skip(i as int)),
        decreases a.len() - i,
    {
        proof {
            assert(a@.skip(i as int).drop_first() =~= a@.skip(i + 1));
            assert(b@.skip(i as int).drop_first() =~= b@.skip(i + 1));
            assert(a@.skip(i as int)[0] == a@[i as int]);
            assert(b@.skip(i as int)[0] == b@[i as int]);
        }
        if a[i] < b[i] {
            return Order::Less;
        }
        if a[i] > b[i] {
            return Order::Greater;
        }
        i = i + 1;
    }
    if i < b.len() {
        Order::Less
    } else if i < a.len() {
        Order::Greater
    } else {
        Order::Equal
    }
}

/// Whether `a` may run before `b`: its package identifier comes first,
/// or the two are equal and its target name does not come after.
pub open spec fn precedes(a: TestArtifact, b: TestArtifact) -> bool {
    match text_order(a.package_id@, b.package_id@) {
        Order::Less => true,
        Order::Greater => false,
        Order::Equal => !(text_order(a.target_name@, b.target_name@) is Greater),
    }
}

/// Whether two artifacts have the same package identifier and target
/// name.
pub open spec fn same_key(a: TestArtifact, b: TestArtifact) -> bool {
    a.package_id@ == b.package_id@ && a.target_name@ == b.target_name@
}

/// Whether `a` must run before `b`.
pub open spec fn strictly_precedes(a: TestArtifact, b: TestArtifact) -> bool {
    precedes(a, b) && !same_key(a, b)
}

/// Decides `precedes`.
pub fn runs_before(a: &TestArtifact, b: &TestArtifact) -> (before: bool)
    ensures
        before == precedes(*a, *b),
{
    match compare_bytes(a.package_id.as_str().as_bytes(), b.package_id.as_str().as_bytes()) {
        Order::Less => true,
        Order::Greater => false,
        Order::Equal => {
            match compare_bytes(
                a.target_name.as_str().as_bytes(),
                b.target_name.as_str().as_bytes(),
            ) {
                Order::Greater => false,
                _ => true,
            }
        },
    }
}

/// Of two artifacts one may run before the other.
pub proof fn lemma_precedes_total(a: TestArtifact, b: TestArtifact)
    ensures
        precedes(a, b) || precedes(b, a),
{
    lemma_bytes_order_flip(encode_utf8(a.package_id@), encode_utf8(b.package_id@));
    lemma_bytes_order_flip(encode_utf8(a.target_name@), encode_utf8(b.target_name@));
}

/// `precedes` is transitive.
pub proof fn lemma_precedes_transitive(a: TestArtifact, b: TestArtifact, c: TestArtifact)
    requires
        precedes(a, b),
        precedes(b, c),
    ensures
        precedes(a, c),
{
    let (pa, pb, pc) = (
        encode_utf8(a.package_id@),
        encode_utf8(b.package_id@),
        encode_utf8(c.package_id@),
    );
    let (ta, tb, tc) = (
        encode_utf8(a.target_name@),
        encode_utf8(b.target_name@),
        encode_utf8(c.target_name@),
    );
    lemma_bytes_order_equal(pa, pb);
    lemma_bytes_order_equal(pb, pc);
    lemma_bytes_order_equal(ta, tb);
    lemma_bytes_order_equal(tb, tc);
    lemma_bytes_order_flip(ta, tc);
    if bytes_order(pa, pb) is Less && bytes_order(pb, pc) is Less {
        lemma_bytes_order_transitive(pa, pb, pc);
    }
    if pa == pb && pb == pc {
        if bytes_order(ta, tb) is Less && bytes_order(tb, tc) is Less {
            lemma_bytes_order_transitive(ta, tb, tc);
        }
    }
}

/// Two artifacts of which each may run before the other have the same
/// package identifier and target name.
pub proof fn lemma_precedes_antisymmetric(a: TestArtifact, b: TestArtifact)
    requires
        precedes(a, b),
        precedes(b, a),
    ensures
        same_key(a, b),
{
    let (pa, pb) = (encode_utf8(a.package_id@), encode_utf8(b.package_id@));
    let (ta, tb) = (encode_utf8(a.target_name@), encode_utf8(b.target_name@));
    lemma_bytes_order_flip(pa, pb);
    lemma_bytes_order_flip(ta, tb);
    lemma_bytes_order_equal(pa, pb);
    lemma_bytes_order_equal(ta, tb);
    vstd::utf8::encode_utf8_decode_utf8(a.package_id@);
    vstd::utf8::encode_utf8_decode_utf8(b.package_id@);
    vstd::utf8::encode_utf8_decode_utf8(a.target_name@);
    vstd::utf8::encode_utf8_decode_utf8(b.target_name@);
}

/// Whether every artifact of `list` may run before all that follow it.
pub open spec fn in_order(list: Seq<TestArtifact>) -> bool {
    forall|i: int, j: int| 0 <= i < j < list.len() ==> precedes(list[i], list[j])
}

/// Whether every artifact of `list` must run before all that follow it.
pub open spec fn in_strict_order(list: Seq<TestArtifact>) -> bool {
    forall|i: int, j: int| 0 <= i < j < list.len() ==> strictly_precedes(list[i], list[j])
}

/// Whether no two artifacts of `list` share package identifier and
/// target name.
pub open spec fn distinct_keys(list: Seq<TestArtifact>) -> bool {
    forall|i: int, j: int| 0 <= i < j < list.len() ==> !same_key(list[i], list[j])
}

/// Where `artifact` goes in the ordered `list`: behind the last artifact
/// that may run before it.
pub open spec fn slot(list: Seq<TestArtifact>, artifact: TestArtifact) -> int
    decreases list.len(),
{
    if list.len() == 0 {
        0
    } else if precedes(list.last(), artifact) {
        list.len() as int
    } else {
        slot(list.drop_last(), artifact)
    }
}

/// `list` with `artifact` in its slot.
pub open spec fn placed(list: Seq<TestArtifact>, artifact: TestArtifact) -> Seq<TestArtifact> {
    list.insert(slot(list, artifact), artifact)
}

/// The order in which the tests run, for the order in which the build
/// tool announced them: each artifact in turn takes its slot among those
/// announced before it.
pub open spec fn execution_order(emitted: Seq<TestArtifact>) -> Seq<TestArtifact>
    decreases emitted.len(),
{
    if emitted.len() == 0 {
        Seq::empty()
    } else {
        placed(execution_order(emitted.drop_last()), emitted.last())
    }
}

/// The slot lies within the list, what stands before it may run before
/// the artifact, and nothing behind it may.
pub proof fn lemma_slot(list: Seq<TestArtifact>, artifact: TestArtifact)
    ensures
        0 <= slot(list, artifact) <= list.len(),
        slot(list, artifact) > 0 ==> precedes(list[slot(list, artifact) - 1], artifact),
        forall|i: int| slot(list, artifact) <= i < list.len() ==> !precedes(list[i], artifact),
    decreases list.len(),
{
    if list.len() != 0 && !precedes(list.last(), artifact) {
        let front = list.drop_last();
        lemma_slot(front, artifact);
        assert forall|i: int| slot(list, artifact) <= i < list.len() implies !precedes(
            list[i],
            artifact,
        ) by {
            if i < front.len() {
                assert(front[i] == list[i]);
            }
        }
        if slot(list, artifact) > 0 {
            assert(front[slot(list, artifact) - 1] == list[slot(list, artifact) - 1]);
        }
    }
}

/// Placing an artifact keeps an ordered list ordered and adds the
/// artifact to what the list holds.
pub proof fn lemma_placed(list: Seq<TestArtifact>, artifact: TestArtifact)
    requires
        in_order(list),
    ensures
        in_order(placed(list, artifact)),
        placed(list, artifact).to_multiset() == list.to_multiset().insert(artifact),
        placed(list, artifact).len() == list.len() + 1,
{
    lemma_slot(list, artifact);
    let at = slot(list, artifact);
    let after = placed(list, artifact);
    to_multiset_insert(list, at, artifact);
    assert forall|i: int, j: int| 0 <= i < j < after.len() implies precedes(after[i], after[j]) by {
        if j == at {
            if i < at - 1 {
                lemma_precedes_transitive(list[i], list[at - 1], artifact);
            }
        } else if i == at {
            lemma_precedes_total(list[j - 1], artifact);
        } else if i < at && at < j {
            assert(precedes(list[i], list[j - 1]));
        } else if j < at {
            assert(precedes(list[i], list[j]));
        } else {
            assert(precedes(list[i - 1], list[j - 1]));
        }
    }
}

/// The tests run in order, and they are the tests that were announced.
pub proof fn lemma_execution_order(emitted: Seq<TestArtifact>)
    ensures
        in_order(execution_order(emitted)),
        execution_order(emitted).to_multiset() == emitted.to_multiset(),
        execution_order(emitted).len() == emitted.len(),
    decreases emitted.len(),
{
    broadcast use group_to_multiset_ensures;

    if emitted.len() == 0 {
        assert(emitted =~= Seq::empty());
    } else {
        lemma_execution_order(emitted.drop_last());
        lemma_placed(execution_order(emitted.drop_last()), emitted.last());
        assert(emitted =~= emitted.drop_last().push(emitted.last()));
        to_multiset_build(emitted.drop_last(), emitted.last());
    }
}

/// Puts `artifact` in its slot in the ordered `list`.
pub fn place(list: &mut Vec<TestArtifact>, artifact: TestArtifact)
    ensures
        final(list)@ == placed(old(list)@, artifact),
{
    let mut at: usize = list.len();
    proof {
        assert(list@.take(at as int) =~= list@);
    }
    while at > 0 && !runs_before(&list[at - 1], &artifact)
        invariant
            at <= list.len(),
            list@ == old(list)@,
            slot(list@, artifact) == slot(list@.take(at as int), artifact),
        decreases at,
    {
        proof {
            assert(list@.take(at as int).last() == list@[at - 1]);
            assert(list@.take(at as int).drop_last() =~= list@.take(at - 1));
        }
        at = at - 1;
    }
    proof {
        if at > 0 {
            assert(list@.take(at as int).last() == list@[at - 1]);
        }
    }
    list.insert(at, artifact);
}

/// Brings the announced artifacts into the order in which they run.
pub fn sort_artifacts(emitted: Vec<TestArtifact>) -> (sorted: Vec<TestArtifact>)
    ensures
        sorted@ == execution_order(emitted@),
{
    let mut sorted: Vec<TestArtifact> = Vec::new();
    let ghost all = emitted@;
    for artifact in iter: emitted
        invariant
            iter.seq() == all,
            sorted@ == execution_order(all.take(iter.index())),
    {
        proof {
            let next = all.take(iter.index() + 1);
            assert(next.drop_last() =~= all.take(iter.index()));
            assert(next.last() == artifact);
        }
        place(&mut sorted, artifact);
    }
    proof {
        assert(all.take(all.len() as int) =~= all);
    }
    sorted
}

/// Every artifact of the execution order was announced.
proof fn lemma_execution_order_member(emitted: Seq<TestArtifact>, i: int) -> (j: int)
    requires
        0 <= i < execution_order(emitted).len(),
    ensures
        0 <= j < emitted.len(),
        emitted[j] == execution_order(emitted)[i],
{
    broadcast use group_to_multiset_ensures;

    lemma_execution_order(emitted);
    let x = execution_order(emitted)[i];
    assert(execution_order(emitted).contains(x));
    assert(emitted.to_multiset().count(x) > 0);
    assert(emitted.contains(x));
    choose|j: int| 0 <= j < emitted.len() && emitted[j] == x
}

/// Placing an artifact whose key no artifact of the list has keeps the
/// keys distinct.
proof fn lemma_placed_distinct(list: Seq<TestArtifact>, artifact: TestArtifact)
    requires
        distinct_keys(list),
        forall|i: int| 0 <= i < list.len() ==> !same_key(list[i], artifact),
    ensures
        distinct_keys(placed(list, artifact)),
{
    lemma_slot(list, artifact);
    let at = slot(list, artifact);
    let after = placed(list, artifact);
    assert forall|i: int, j: int| 0 <= i < j < after.len() implies !same_key(after[i], after[j]) by {
        if j == at {
            assert(!same_key(list[i], artifact));
        } else if i == at {
            assert(!same_key(list[j - 1], artifact));
        } else if i < at && at < j {
            assert(!same_key(list[i], list[j - 1]));
        } else if j < at {
            assert(!same_key(list[i], list[j]));
        } else {
            assert(!same_key(list[i - 1], list[j - 1]));
        }
    }
}

/// Where no two announced artifacts share package identifier and target
/// name, none of the execution order do either, and the order is strict:
/// each test must run before every later one.
pub proof fn lemma_execution_order_strict(emitted: Seq<TestArtifact>)
    requires
        distinct_keys(emitted),
    ensures
        distinct_keys(execution_order(emitted)),
        in_strict_order(execution_order(emitted)),
    decreases emitted.len(),
{
    lemma_execution_order(emitted);
    if emitted.len() != 0 {
        let front = emitted.drop_last();
        let last = emitted.last();
        assert forall|i: int, j: int| 0 <= i < j < front.len() implies !same_key(
            front[i],
            front[j],
        ) by {
            assert(front[i] == emitted[i] && front[j] == emitted[j]);
        }
        lemma_execution_order_strict(front);
        let ordered = execution_order(front);
        assert forall|i: int| 0 <= i < ordered.len() implies !same_key(ordered[i], last) by {
            let j = lemma_execution_order_member(front, i);
            assert(front[j] == emitted[j]);
            assert(!same_key(emitted[j], emitted[emitted.len() - 1]));
        }
        lemma_placed_distinct(ordered, last);
    }
}

/// Two lists in strict order that hold the same artifacts are equal.
pub proof fn lemma_strict_order_unique(x: Seq<TestArtifact>, y: Seq<TestArtifact>)
    requires
        in_strict_order(x),
        in_strict_order(y),
        x.to_multiset() == y.to_multiset(),
    ensures
        x == y,
    decreases x.len(),
{
    broadcast use group_to_multiset_ensures;

    to_multiset_len(x);
    to_multiset_len(y);
    if x.len() == 0 {
        assert(x =~= y);
    } else {
        let n = x.len() - 1;
        assert(x.contains(x[n]));
        assert(y.to_multiset().count(x[n]) > 0);
        assert(y.contains(x[n]));
        let j = choose|j: int| 0 <= j < y.len() && y[j] == x[n];
        assert(y.contains(y[n]));
        assert(x.to_multiset().count(y[n]) > 0);
        assert(x.contains(y[n]));
        let i = choose|i: int| 0 <= i < x.len() && x[i] == y[n];
        if i < n {
            assert(strictly_precedes(x[i], x[n]));
            if j < n {
                assert(strictly_precedes(y[j], y[n]));
                lemma_precedes_antisymmetric(x[i], x[n]);
            }
        }
        assert(x[n] == y[n]);
        to_multiset_remove(x, n);
        to_multiset_remove(y, n);
        assert(x.remove(n) =~= x.drop_last());
        assert(y.remove(n) =~= y.drop_last());
        assert forall|a: int, b: int| 0 <= a < b < x.drop_last().len() implies strictly_precedes(
            x.drop_last()[a],
            x.drop_last()[b],
        ) by {
            assert(strictly_precedes(x[a], x[b]));
        }
        assert forall|a: int, b: int| 0 <= a < b < y.drop_last().len() implies strictly_precedes(
            y.drop_last()[a],
            y.drop_last()[b],
        ) by {
            assert(strictly_precedes(y[a], y[b]));
        }
        lemma_strict_order_unique(x.drop_last(), y.drop_last());
        assert(x =~= x.drop_last().push(x[n]));
        assert(y =~= y.drop_last().push(y[n]));
    }
}

/// Keys that are distinct in one list are distinct in every list that
/// holds the same artifacts.
proof fn lemma_distinct_keys_permuted(a: Seq<TestArtifact>, b: Seq<TestArtifact>)
    requires
        distinct_keys(a),
        a.to_multiset() == b.to_multiset(),
    ensures
        distinct_keys(b),
{
    broadcast use group_to_multiset_ensures;

    assert(a.no_duplicates()) by {
        assert forall|i: int, j: int| 0 <= i < a.len() && 0 <= j < a.len() && i != j implies a[i]
            != a[j] by {
            if i < j {
                assert(!same_key(a[i], a[j]));
            } else {
                assert(!same_key(a[j], a[i]));
            }
        }
    }
    a.lemma_multiset_has_no_duplicates();
    b.lemma_multiset_has_no_duplicates_conv();
    assert forall|i: int, j: int| 0 <= i < j < b.len() implies !same_key(b[i], b[j]) by {
        assert(b.contains(b[i]));
        assert(b.contains(b[j]));
        assert(a.to_multiset().count(b[i]) > 0);
        assert(a.to_multiset().count(b[j]) > 0);
        assert(a.contains(b[i]));
        assert(a.contains(b[j]));
        let p = choose|p: int| 0 <= p < a.len() && a[p] == b[i];
        let q = choose|q: int| 0 <= q < a.len() && a[q] == b[j];
        assert(b[i] != b[j]);
        if p < q {
            assert(!same_key(a[p], a[q]));
        } else if q < p {
            assert(!same_key(a[q], a[p]));
        }
    }
}

/// The order in which the tests run does not depend on the order in
/// which the build tool announced them, as long as no two of them share
/// package identifier and target name.
pub proof fn lemma_execution_order_independent(first: Seq<TestArtifact>, second: Seq<TestArtifact>)
    requires
        distinct_keys(first),
        first.to_multiset() == second.to_multiset(),
    ensures
        execution_order(first) == execution_order(second),
{
    lemma_distinct_keys_permuted(first, second);
    lemma_execution_order(first);
    lemma_execution_order(second);
    lemma_execution_order_strict(first);
    lemma_execution_order_strict(second);
    lemma_strict_order_unique(execution_order(first), execution_order(second));
}

} // verus!
