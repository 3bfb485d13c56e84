//! Properties of the decoder, stated over the same spec functions its
//! contracts use and proved once and for all.

use vstd::prelude::*;
use crate::config::{ConfigItem, ConfigValue};
use crate::de::{
    bool_of, identifier_of, identifier_of_frames, number_of, single_value_of, string_of,
    DeError, Deserializer, Error, FrameView,
};

verus! {

/// A single-scalar boolean node decodes, as a boolean, to the literal value
/// it carries, unchanged.
pub proof fn lemma_bool_round_trip(frames: Seq<FrameView>, item: ConfigItem, b: bool)
    requires
        frames.len() > 0,
        frames.last() == FrameView::Struct(item),
        item.values@ == seq![ConfigValue::Boolean(b)],
    ensures
        bool_of(frames) == Ok::<bool, Error>(b),
{
}

/// A single-scalar number node decodes, as a number, to the bit pattern it
/// carries, unchanged.
pub proof fn lemma_number_round_trip(frames: Seq<FrameView>, item: ConfigItem, n: u64)
    requires
        frames.len() > 0,
        frames.last() == FrameView::Struct(item),
        item.values@ == seq![ConfigValue::Number(n)],
    ensures
        number_of(frames) == Ok::<u64, Error>(n),
{
}

/// A single-scalar string node decodes, as a string, to the very characters
/// it carries, unchanged.
pub proof fn lemma_string_round_trip(frames: Seq<FrameView>, item: ConfigItem, s: String)
    requires
        frames.len() > 0,
        frames.last() == FrameView::Struct(item),
        item.values@ == seq![ConfigValue::String(s)],
    ensures
        string_of(frames) == Ok::<Seq<char>, Error>(s@),
{
}

/// A node that does not hold exactly one scalar cannot be read as a single
/// value: every scalar request on it fails with `ExpectSingleValue`.
pub proof fn lemma_single_value_required(frames: Seq<FrameView>, item: ConfigItem)
    requires
        frames.len() > 0,
        frames.last() == FrameView::Struct(item),
        item.values@.len() != 1,
    ensures
        single_value_of(frames) == Err::<ConfigValue, Error>(Error(DeError::ExpectSingleValue)),
{
}

/// A named block — children present and a string first value — resolves its
/// identifier to that first value; the node's own key is never the name.
pub proof fn lemma_named_block_identifier(frames: Seq<FrameView>, item: ConfigItem, s: String)
    requires
        frames.len() > 0,
        frames.last() == FrameView::Struct(item),
        item.children@.len() > 0,
        item.values@.len() > 0,
        item.values@[0] == ConfigValue::String(s),
    ensures
        identifier_of_frames(frames) == Ok::<Seq<char>, Error>(s@),
        s@ != item.key@ ==> identifier_of_frames(frames) != Ok::<Seq<char>, Error>(item.key@),
{
}

/// Decoding reads nothing but the frame stack: two engines with equal stacks,
/// whatever trees they were opened over and whether or not their root request
/// is spent, answer every scalar request alike. Together with the engine
/// contracts, which pin each answer to the stack, this is why decoding the
/// same tree twice into the same shape gives equal results.
pub proof fn lemma_decode_deterministic<'a, 'b>(d1: Deserializer<'a>, d2: Deserializer<'b>)
    requires
        d1.frames() == d2.frames(),
    ensures
        d1.spec_current() == d2.spec_current(),
        d1.spec_single_value() == d2.spec_single_value(),
        d1.spec_bool() == d2.spec_bool(),
        d1.spec_number() == d2.spec_number(),
        d1.spec_string() == d2.spec_string(),
        d1.spec_identifier() == d2.spec_identifier(),
{
}

/// One step of the element iterator, as its contract states it: the first
/// step pushes a sequence frame for the head scalar, later steps replace the
/// top frame, and the remaining scalars lose their head.
pub open spec fn seq_step(
    values: Seq<ConfigValue>,
    first: bool,
    depth: Seq<FrameView>,
) -> (Seq<ConfigValue>, bool, Seq<FrameView>)
    recommends
        values.len() > 0,
{
    let frame = FrameView::Sequence(values[0]);
    let depth2 = if first || depth.len() == 0 {
        depth.push(frame)
    } else {
        depth.update(depth.len() - 1, frame)
    };
    (values.drop_first(), false, depth2)
}

/// The element iterator after `k` steps from a fresh cursor.
pub open spec fn seq_run(
    values: Seq<ConfigValue>,
    depth: Seq<FrameView>,
    k: nat,
) -> (Seq<ConfigValue>, bool, Seq<FrameView>)
    decreases k,
{
    if k == 0 {
        (values, true, depth)
    } else {
        let (v, f, d) = seq_run(values, depth, (k - 1) as nat);
        seq_step(v, f, d)
    }
}

/// Element order is preserved: after the `k`-th step of a fresh element
/// iterator the engine sits on exactly one frame more than it started with,
/// that frame holds the `k`-th scalar of the list, and single-value
/// resolution hands that scalar back. Each nesting level costs one frame, so
/// the stack never outgrows the depth of the tree being visited.
pub proof fn lemma_seq_elements_in_order(
    values: Seq<ConfigValue>,
    depth: Seq<FrameView>,
    k: nat,
)
    requires
        1 <= k <= values.len(),
    ensures
        ({
            let (v, f, d) = seq_run(values, depth, k);
            &&& v == values.skip(k as int)
            &&& !f
            &&& d == depth.push(FrameView::Sequence(values[k - 1]))
            &&& single_value_of(d) == Ok::<ConfigValue, Error>(values[k - 1])
        }),
    decreases k,
{
    if k == 1 {
        assert(values.drop_first() =~= values.skip(1));
    } else {
        lemma_seq_elements_in_order(values, depth, (k - 1) as nat);
        let (v, f, d) = seq_run(values, depth, (k - 1) as nat);
        assert(v[0] == values[k - 1]);
        assert(d.update(d.len() - 1, FrameView::Sequence(values[k - 1])) =~= depth.push(
            FrameView::Sequence(values[k - 1]),
        ));
        assert(v.drop_first() =~= values.skip(k as int));
    }
}

/// One step of the field iterator over the nodes that remain, as its
/// contract states it.
pub open spec fn field_step(
    items: Seq<ConfigItem>,
    first: bool,
    depth: Seq<FrameView>,
) -> (Seq<ConfigItem>, bool, Seq<FrameView>)
    recommends
        items.len() > 0,
{
    let frame = FrameView::Struct(items[0]);
    let depth2 = if first || depth.len() == 0 {
        depth.push(frame)
    } else {
        depth.update(depth.len() - 1, frame)
    };
    (items.drop_first(), false, depth2)
}

/// The field iterator after `k` steps from a fresh cursor.
pub open spec fn field_run(
    items: Seq<ConfigItem>,
    depth: Seq<FrameView>,
    k: nat,
) -> (Seq<ConfigItem>, bool, Seq<FrameView>)
    decreases k,
{
    if k == 0 {
        (items, true, depth)
    } else {
        let (i, f, d) = field_run(items, depth, (k - 1) as nat);
        field_step(i, f, d)
    }
}

/// Fields are visited left to right and independently: after the `k`-th step
/// of a fresh field iterator the engine sits on the `k`-th node, whose
/// identifier names the field, and nothing but that one frame distinguishes
/// the engine from its starting state — which is why a skipped, unrecognized
/// field cannot disturb how its siblings decode.
pub proof fn lemma_fields_in_order(items: Seq<ConfigItem>, depth: Seq<FrameView>, k: nat)
    requires
        1 <= k <= items.len(),
    ensures
        ({
            let (i, f, d) = field_run(items, depth, k);
            &&& i == items.skip(k as int)
            &&& !f
            &&& d == depth.push(FrameView::Struct(items[k - 1]))
            &&& identifier_of_frames(d) == identifier_of(items[k - 1])
        }),
    decreases k,
{
    if k == 1 {
        assert(items.drop_first() =~= items.skip(1));
    } else {
        lemma_fields_in_order(items, depth, (k - 1) as nat);
        let (i, f, d) = field_run(items, depth, (k - 1) as nat);
        assert(i[0] == items[k - 1]);
        assert(d.update(d.len() - 1, FrameView::Struct(items[k - 1])) =~= depth.push(
            FrameView::Struct(items[k - 1]),
        ));
        assert(i.drop_first() =~= items.skip(k as int));
    }
}

} // verus!
