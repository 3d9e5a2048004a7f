//! What the consumer's read loop does with each item the stream yields.
use vstd::prelude::*;
use crate::record::{Record, record_line, render_record};

verus! {

/// Prefix of the line reported for a transport error.
pub const ERROR_PREFIX: &'static str = "Kafka error: ";

/// One item of the subscription's stream: a record, or a transport error
/// given by its description.
pub enum StreamItem {
    Message(Record),
    Error(String),
}

/// Where a line goes.
#[derive(Clone, Copy, Debug, PartialEq, Eq, Structural)]
pub enum Channel {
    Stdout,
    Stderr,
}

/// A line to print, and where.
pub struct Output {
    pub channel: Channel,
    pub line: String,
}

/// Where the line for an item goes: records to standard output, errors to
/// the diagnostic stream.
pub open spec fn item_channel(item: StreamItem) -> Channel {
    match item {
        StreamItem::Message(_) => Channel::Stdout,
        StreamItem::Error(_) => Channel::Stderr,
    }
}

/// The line printed for an item.
pub open spec fn item_line(item: StreamItem) -> Seq<char> {
    match item {
        StreamItem::Message(r) => record_line(r),
        StreamItem::Error(e) => ERROR_PREFIX@ + e@,
    }
}

/// What the loop prints for a sequence of items, one output per item.
pub open spec fn outputs_of(items: Seq<StreamItem>) -> Seq<(Channel, Seq<char>)> {
    Seq::new(items.len(), |i: int| (item_channel(items[i]), item_line(items[i])))
}

/// The channel and text of each output.
pub open spec fn output_views(outs: Seq<Output>) -> Seq<(Channel, Seq<char>)> {
    Seq::new(outs.len(), |i: int| (outs[i].channel, outs[i].line@))
}

/// The output for one item of the stream. No item ends the loop: an error is
/// reported and the next item is handled like any other.
pub fn handle_item(item: &StreamItem) -> (o: Output)
    ensures
        o.channel == item_channel(*item),
        o.line@ == item_line(*item),
{
    match item {
        StreamItem::Message(r) => Output { channel: Channel::Stdout, line: render_record(r) },
        StreamItem::Error(e) => {
            let mut line = String::new();
            line.append(ERROR_PREFIX);
            line.append(e.as_str());
            Output { channel: Channel::Stderr, line }
        },
    }
}

/// The outputs for a run of items, in order, one for each.
pub fn handle_items(items: &Vec<StreamItem>) -> (outs: Vec<Output>)
    ensures
        output_views(outs@) == outputs_of(items@),
{
    let mut outs: Vec<Output> = Vec::new();
    let mut i: usize = 0;
    while i < items.len()
        invariant
            0 <= i <= items@.len(),
            outs@.len() == i,
            output_views(outs@) == outputs_of(items@.subrange(0, i as int)),
        decreases items@.len() - i,
    {
        let o = handle_item(&items[i]);
        let ghost before = outs@;
        outs.push(o);
        proof {
            assert forall|k: int| 0 <= k < i implies #[trigger] output_views(outs@)[k]
                == outputs_of(items@.subrange(0, i + 1))[k] by {
                assert(output_views(before)[k] == outputs_of(items@.subrange(0, i as int))[k]);
                assert(items@.subrange(0, i + 1)[k] == items@.subrange(0, i as int)[k]);
            }
            assert(items@.subrange(0, i + 1)[i as int] == items@[i as int]);
            assert(output_views(outs@) =~= outputs_of(items@.subrange(0, i + 1)));
        }
        i = i + 1;
    }
    proof {
        assert(items@.subrange(0, items@.len() as int) =~= items@);
    }
    outs
}

/// A transport error does not end the loop: a record that comes after an
/// error is still printed, on standard output, as its own line.
pub proof fn lemma_record_after_error_is_printed(items: Seq<StreamItem>, i: int, j: int)
    requires
        0 <= i < j < items.len(),
        items[i] is Error,
        items[j] is Message,
    ensures
        outputs_of(items).len() == items.len(),
        outputs_of(items)[j] == (Channel::Stdout, record_line(items[j]->Message_0)),
{
}

} // verus!
