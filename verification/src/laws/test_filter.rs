//! Laws of the test filter: what a run of it leaves in a packet.

use crate::filters::{CreationError, Filter, FilterError, FilterFactory, ReadContext, WriteContext};
use crate::metadata::ValueView;
use crate::test::filter::{read_trace, write_trace, TestFilter};
use vstd::prelude::*;
use vstd::utf8::{decode_utf8, encode_utf8_decode_utf8, encode_utf8_valid_utf8, valid_utf8};

verus! {

/// What a read appends is the text `:odr:` followed by the source, whatever the
/// source is.
pub proof fn law_read_trace(source: Seq<char>)
    ensures
        valid_utf8(read_trace(source)),
        decode_utf8(read_trace(source)).take(5) == seq![':', 'o', 'd', 'r', ':'],
        decode_utf8(read_trace(source)).skip(5) == source,
{
    reveal_strlit(":odr:");
    encode_utf8_valid_utf8(":odr:"@ + source);
    encode_utf8_decode_utf8(":odr:"@ + source);
    assert((":odr:"@ + source).take(5) =~= seq![':', 'o', 'd', 'r', ':']);
    assert((":odr:"@ + source).skip(5) =~= source);
}

/// What a write appends is the text `:our:` followed by the source, by a colon and
/// by the destination, in this order, whatever they are.
pub proof fn law_write_trace(source: Seq<char>, dest: Seq<char>)
    ensures
        valid_utf8(write_trace(source, dest)),
        decode_utf8(write_trace(source, dest)).len() == 5 + source.len() + 1 + dest.len(),
        decode_utf8(write_trace(source, dest)).take(5) == seq![':', 'o', 'u', 'r', ':'],
        decode_utf8(write_trace(source, dest)).subrange(5, 5 + source.len() as int) == source,
        decode_utf8(write_trace(source, dest))[5 + source.len() as int] == ':',
        decode_utf8(write_trace(source, dest)).skip(5 + source.len() as int + 1) == dest,
{
    reveal_strlit(":our:");
    reveal_strlit(":");
    let text = ":our:"@ + source + ":"@ + dest;
    encode_utf8_valid_utf8(text);
    encode_utf8_decode_utf8(text);
    assert(text.take(5) =~= seq![':', 'o', 'u', 'r', ':']);
    assert(text.subrange(5, 5 + source.len() as int) =~= source);
    assert(text.skip(5 + source.len() as int + 1) =~= dest);
}

/// A read leaves the contents that were there and puts behind them the text
/// `:odr:` followed by the packet's source. It leaves the source and the endpoints
/// as they were, and never refuses.
pub proof fn law_read_appends_the_source(ctx: &mut ReadContext, answer: Result<(), FilterError>)
    requires
        call_ensures(<TestFilter as Filter>::read, (&TestFilter, ctx), answer),
    ensures
        answer is Ok,
        final(ctx).wf(),
        old(ctx).contents@.is_prefix_of(final(ctx).contents@),
        valid_utf8(final(ctx).contents@.skip(old(ctx).contents@.len() as int)),
        decode_utf8(final(ctx).contents@.skip(old(ctx).contents@.len() as int)) == seq![
            ':',
            'o',
            'd',
            'r',
            ':',
        ] + old(ctx).source@,
        final(ctx).source@ == old(ctx).source@,
        final(ctx).endpoints@.len() == old(ctx).endpoints@.len(),
        forall|i: int|
            0 <= i < old(ctx).endpoints@.len() ==> (#[trigger] final(ctx).endpoints@[i]).address@
                == old(ctx).endpoints@[i].address@ && final(ctx).endpoints@[i].metadata@
                == old(ctx).endpoints@[i].metadata@,
{
    let before = *old(ctx);
    let after = *final(ctx);
    let text = ":odr:"@ + before.source@;
    reveal_strlit(":odr:");
    assert(text =~= seq![':', 'o', 'd', 'r', ':'] + before.source@);
    encode_utf8_valid_utf8(text);
    encode_utf8_decode_utf8(text);
    assert(after@.contents == before@.contents + read_trace(before.source@));
    assert(after.contents@.skip(before.contents@.len() as int) =~= read_trace(before.source@));
    assert(after@.endpoints == before@.endpoints);
    assert(after@.endpoints.len() == after.endpoints@.len());
    assert(before@.endpoints.len() == before.endpoints@.len());
    assert forall|i: int| 0 <= i < before.endpoints@.len() implies (#[trigger]
    after.endpoints@[i]).address@ == before.endpoints@[i].address@ && after.endpoints@[i].metadata@
        == before.endpoints@[i].metadata@ by {
        assert(after@.endpoints[i] == before@.endpoints[i]);
    }
}

/// A read leaves `receive` under `downstream` if nothing was there, and `:receive`
/// behind the text that was. It leaves every other key as it was.
pub proof fn law_read_marks_downstream(ctx: &mut ReadContext, answer: Result<(), FilterError>)
    requires
        call_ensures(<TestFilter as Filter>::read, (&TestFilter, ctx), answer),
    ensures
        ({
            let before = old(ctx).metadata@;
            let after = final(ctx).metadata@;
            &&& after.contains_key("downstream"@)
            &&& !before.contains_key("downstream"@) ==> after["downstream"@] == ValueView::String(
                "receive"@,
            )
            &&& before.contains_key("downstream"@) ==> match before["downstream"@] {
                ValueView::String(text) => after["downstream"@] == ValueView::String(
                    text + ":receive"@,
                ),
                _ => true,
            }
            &&& forall|key: Seq<char>| #[trigger]
                after.contains_key(key) && key != "downstream"@ ==> before.contains_key(key)
            &&& forall|key: Seq<char>| #[trigger]
                before.contains_key(key) && key != "downstream"@ ==> after.contains_key(key)
                    && after[key] == before[key]
        }),
{
    assert(final(ctx)@.metadata == final(ctx).metadata@);
}

/// A write leaves the contents that were there and puts behind them the text
/// `:our:` followed by the packet's source, by a colon and by its destination. It
/// leaves the source and the destination as they were, and never refuses.
pub proof fn law_write_appends_source_and_destination(
    ctx: &mut WriteContext,
    answer: Result<(), FilterError>,
)
    requires
        call_ensures(<TestFilter as Filter>::write, (&TestFilter, ctx), answer),
    ensures
        answer is Ok,
        final(ctx).wf(),
        old(ctx).contents@.is_prefix_of(final(ctx).contents@),
        valid_utf8(final(ctx).contents@.skip(old(ctx).contents@.len() as int)),
        decode_utf8(final(ctx).contents@.skip(old(ctx).contents@.len() as int)) == seq![
            ':',
            'o',
            'u',
            'r',
            ':',
        ] + old(ctx).source@ + seq![':'] + old(ctx).dest@,
        final(ctx).source@ == old(ctx).source@,
        final(ctx).dest@ == old(ctx).dest@,
{
    let before = *old(ctx);
    let after = *final(ctx);
    let text = ":our:"@ + before.source@ + ":"@ + before.dest@;
    reveal_strlit(":our:");
    reveal_strlit(":");
    assert(text =~= seq![':', 'o', 'u', 'r', ':'] + before.source@ + seq![':'] + before.dest@);
    encode_utf8_valid_utf8(text);
    encode_utf8_decode_utf8(text);
    let trace = write_trace(before.source@, before.dest@);
    assert(after@.contents == before@.contents + trace);
    assert(after.contents@.skip(before.contents@.len() as int) =~= trace);
}

/// A write leaves `receive` under `upstream` if nothing was there, and `:receive`
/// behind the text that was. It leaves every other key as it was.
pub proof fn law_write_marks_upstream(ctx: &mut WriteContext, answer: Result<(), FilterError>)
    requires
        call_ensures(<TestFilter as Filter>::write, (&TestFilter, ctx), answer),
    ensures
        ({
            let before = old(ctx).metadata@;
            let after = final(ctx).metadata@;
            &&& after.contains_key("upstream"@)
            &&& !before.contains_key("upstream"@) ==> after["upstream"@] == ValueView::String(
                "receive"@,
            )
            &&& before.contains_key("upstream"@) ==> match before["upstream"@] {
                ValueView::String(text) => after["upstream"@] == ValueView::String(
                    text + ":receive"@,
                ),
                _ => true,
            }
            &&& forall|key: Seq<char>| #[trigger]
                after.contains_key(key) && key != "upstream"@ ==> before.contains_key(key)
            &&& forall|key: Seq<char>| #[trigger]
                before.contains_key(key) && key != "upstream"@ ==> after.contains_key(key)
                    && after[key] == before[key]
        }),
{
    assert(final(ctx)@.metadata == final(ctx).metadata@);
}

/// The test filter may read every packet that has no value, or a text, under
/// `downstream`, and may read it again after that.
pub proof fn law_every_packet_may_be_read(ctx: &mut ReadContext, answer: Result<(), FilterError>)
    requires
        old(ctx).wf(),
        old(ctx).metadata@.contains_key("downstream"@) ==> old(ctx).metadata@["downstream"@]
            is String,
        call_ensures(<TestFilter as Filter>::read, (&TestFilter, ctx), answer),
    ensures
        call_requires(<TestFilter as Filter>::read, (&TestFilter, ctx)),
        TestFilter.reads(old(ctx)@),
        TestFilter.reads(final(ctx)@),
{
}

/// The test filter may write every packet that has no value, or a text, under
/// `upstream`, and may write it again after that.
pub proof fn law_every_packet_may_be_written(
    ctx: &mut WriteContext,
    answer: Result<(), FilterError>,
)
    requires
        old(ctx).wf(),
        old(ctx).metadata@.contains_key("upstream"@) ==> old(ctx).metadata@["upstream"@]
            is String,
        call_ensures(<TestFilter as Filter>::write, (&TestFilter, ctx), answer),
    ensures
        call_requires(<TestFilter as Filter>::write, (&TestFilter, ctx)),
        TestFilter.writes(old(ctx)@),
        TestFilter.writes(final(ctx)@),
{
}

/// The test filter is made whatever its configuration, and its factory goes by the
/// name `TestFilter`.
pub proof fn law_test_filter_is_made(
    config: Option<()>,
    made: Result<TestFilter, CreationError>,
    factory: FilterFactory,
)
    requires
        call_ensures(TestFilter::try_from_config, (config,), made),
        call_ensures(TestFilter::factory, (), factory),
    ensures
        made is Ok,
        factory.name@ == "TestFilter"@,
        TestFilter::NAME@ == "TestFilter"@,
{
}

} // verus!
