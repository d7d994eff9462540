//! What holds of whole transfers.
use vstd::prelude::*;

use crate::bdx::codec::{
    decoded_message, length_end, offset_end, opcode_of, range_control, range_field, BdxStatusCode,
    InitView, MessageType, MessageView, RECEIVER_DRIVE,
};
use crate::bdx::serve::{
    abort_message, accept_message, bdx_message, bdx_report, going_on, init_verdict, input_step,
    input_read, negotiated, next_block_step, BlockRead, Input, OutgoingView, PhaseView,
    ProviderError, SentView, StepView,
};
use crate::error::Error;
use crate::le::{
    from_le16, from_le32, le16, le32, le_number, lemma_le16_reads_back, lemma_le32_reads_back,
    lemma_le_number_reads_back,
};
use crate::sc::{law_status_report_reads_back, read_report, ReportView};

verus! {

/// A transfer from its start: the phase it has come to, all that was sent, and how
/// it ended, if it did.
pub open spec fn run<E>(
    designator: Seq<u8>,
    limit: u16,
    image: Seq<u8>,
    inputs: Seq<Input<E>>,
) -> StepView<E>
    decreases inputs.len(),
{
    if inputs.len() == 0 {
        StepView { phase: PhaseView::AwaitInit, sends: Seq::empty(), outcome: None }
    } else {
        let before = run(designator, limit, image, inputs.drop_last());
        let step = input_step(designator, limit, image, before.phase, inputs.last());
        StepView {
            phase: step.phase,
            sends: before.sends + step.sends,
            outcome: if before.outcome is Some {
                before.outcome
            } else {
                step.outcome
            },
        }
    }
}

/// A transfer with one more input is one step further. So a server that has come to the
/// phase of a run stays with it: what it sends for the next event, and the phase that it
/// comes to, are those of the run with that event's input.
pub proof fn law_one_more_input_is_one_more_step<E>(
    designator: Seq<u8>,
    limit: u16,
    image: Seq<u8>,
    inputs: Seq<Input<E>>,
    input: Input<E>,
)
    ensures
        ({
            let before = run(designator, limit, image, inputs);
            let step = input_step(designator, limit, image, before.phase, input);
            let after = run(designator, limit, image, inputs.push(input));
            &&& after.phase == step.phase
            &&& after.sends == before.sends + step.sends
            &&& after.outcome == if before.outcome is Some {
                before.outcome
            } else {
                step.outcome
            }
        }),
{
    assert(inputs.push(input).drop_last() =~= inputs);
}

/// How many blocks an image is sent in. An empty image is sent in one empty block.
pub open spec fn block_count(length: nat, block_size: u16) -> int {
    if length == 0 {
        1
    } else {
        (length - 1) / block_size as int + 1
    }
}

/// Where block number `counter` ends.
pub open spec fn block_end(length: nat, block_size: u16, counter: int) -> int {
    if (counter + 1) * block_size < length {
        (counter + 1) * block_size
    } else {
        length as int
    }
}

/// The bytes of the image that block number `counter` carries.
pub open spec fn block_data(image: Seq<u8>, block_size: u16, counter: int) -> Seq<u8> {
    image.subrange(counter * block_size, block_end(image.len(), block_size, counter))
}

/// Block number `counter` of an image.
pub open spec fn image_block(image: Seq<u8>, block_size: u16, counter: u32) -> SentView {
    SentView {
        counter,
        message_type: if counter + 1 == block_count(image.len(), block_size) {
            MessageType::BlockEof
        } else {
            MessageType::Block
        },
        payload: le32(counter) + block_data(image, block_size, counter as int),
    }
}

/// The message that carries block number `counter` of an image.
pub open spec fn block_message(image: Seq<u8>, block_size: u16, counter: u32) -> OutgoingView {
    let block = image_block(image, block_size, counter);
    bdx_message(block.message_type, block.payload)
}

/// Counters that start at 0 and where each repeats the one before or is one higher.
pub open spec fn orderly(counters: Seq<u32>) -> bool {
    &&& counters.len() > 0 ==> counters[0] == 0
    &&& forall|i: int|
        0 < i < counters.len() ==> counters[i - 1] <= #[trigger] counters[i] <= counters[i - 1] + 1
}

/// How many distinct blocks orderly counters stand for.
pub open spec fn blocks_sent(counters: Seq<u32>) -> int {
    if counters.len() == 0 {
        0
    } else {
        counters.last() + 1
    }
}

/// Whether what was sent is an acceptance, followed by blocks of the image with
/// these counters, in order.
pub open spec fn served(
    image: Seq<u8>,
    sends: Seq<OutgoingView>,
    block_size: u16,
    counters: Seq<u32>,
) -> bool {
    &&& block_size > 0
    &&& orderly(counters)
    &&& blocks_sent(counters) <= block_count(image.len(), block_size)
    &&& sends == seq![accept_message(block_size, image.len() as u64)] + Seq::new(
        counters.len(),
        |i: int| block_message(image, block_size, counters[i]),
    )
}

proof fn lemma_block_count(length: nat, block_size: u16, counter: int)
    requires
        block_size > 0,
        counter >= 0,
        counter * block_size < length || (counter == 0 && length == 0),
    ensures
        (counter + 1) * block_size >= length <==> counter + 1 == block_count(length, block_size),
        (counter + 1) * block_size < length <==> counter + 1 < block_count(length, block_size),
        (counter + 1) * block_size == counter * block_size + block_size,
{
    let size = block_size as int;
    assert((counter + 1) * size == counter * size + size) by (nonlinear_arith);
    if length > 0 {
        let q = (length - 1) / size;
        vstd::arithmetic::div_mod::lemma_fundamental_div_mod(length - 1, size);
        vstd::arithmetic::div_mod::lemma_mod_bound(length - 1, size);
        assert(q * size <= length - 1 < (q + 1) * size) by (nonlinear_arith)
            requires
                length - 1 == size * q + (length - 1) % size,
                0 <= (length - 1) % size < size,
        ;
        assert(counter <= q) by (nonlinear_arith)
            requires
                counter * size <= length - 1,
                length - 1 < (q + 1) * size,
                size > 0,
        ;
        if counter + 1 <= q {
            assert((counter + 1) * size <= q * size) by (nonlinear_arith)
                requires
                    counter + 1 <= q,
                    size > 0,
            ;
        } else {
            assert(counter == q);
        }
    }
}

/// Whether what was sent is nothing, or an acceptance of blocks of this size, followed
/// by blocks of the image in order.
pub open spec fn lawful_head(image: Seq<u8>, block_size: u16, head: Seq<OutgoingView>) -> bool {
    head.len() == 0 || exists|counters: Seq<u32>| #[trigger]
        served(image, head, block_size, counters)
}

/// Whether what was sent is nothing, or one report that breaks the transfer off.
pub open spec fn lawful_tail(tail: Seq<OutgoingView>) -> bool {
    tail.len() == 0 || exists|status: BdxStatusCode| tail == seq![#[trigger] abort_message(status)]
}

/// Whether what was sent is lawful up to a report that breaks the transfer off.
pub open spec fn lawful_end(image: Seq<u8>, block_size: u16, sends: Seq<OutgoingView>) -> bool {
    exists|head: Seq<OutgoingView>, tail: Seq<OutgoingView>|
        sends == #[trigger] (head + tail) && lawful_head(image, block_size, head) && lawful_tail(
            tail,
        )
}

/// The block size that the first message of a transfer leads to: the smaller of what
/// it proposes and what is served, or 0 if it proposes nothing.
pub open spec fn agreed_size<E>(limit: u16, inputs: Seq<Input<E>>) -> u16 {
    if inputs.len() == 0 {
        0
    } else {
        match inputs[0] {
            Input::Message { message: MessageView::ReceiveInit(init), .. } => negotiated(
                init.max_block_size,
                limit,
            ),
            _ => 0,
        }
    }
}

/// Whether the whole image was sent.
pub open spec fn all_sent(
    image: Seq<u8>,
    sends: Seq<OutgoingView>,
    block_size: u16,
    counters: Seq<u32>,
) -> bool {
    &&& served(image, sends, block_size, counters)
    &&& blocks_sent(counters) == block_count(image.len(), block_size)
}

/// What holds of a transfer at every point.
#[verifier::opaque]
spec fn consistent<E>(size: u16, image: Seq<u8>, r: StepView<E>) -> bool {
    match r.phase {
        PhaseView::AwaitInit => r.sends.len() == 0 && r.outcome is None,
        PhaseView::Serving { length, block_size, offset, next_counter, last_response } => {
            &&& r.outcome is None
            &&& length == image.len()
            &&& block_size == size && size > 0
            &&& offset == next_counter * block_size
            &&& next_counter > 0 ==> offset < length
            &&& last_response == if next_counter == 0 {
                None
            } else {
                Some(image_block(image, block_size, (next_counter - 1) as u32))
            }
            &&& exists|counters: Seq<u32>| #[trigger]
                served(image, r.sends, block_size, counters) && blocks_sent(counters)
                    == next_counter
        },
        PhaseView::AwaitAck(sent) => {
            &&& r.outcome is None
            &&& sent == image_block(image, size, sent.counter)
            &&& exists|counters: Seq<u32>|
                {
                    &&& #[trigger] all_sent(image, r.sends, size, counters)
                    &&& sent.counter == counters.last()
                    &&& counters.len() > 0
                }
        },
        PhaseView::Finished => match r.outcome {
            None => false,
            Some(Ok(_)) => exists|counters: Seq<u32>| #[trigger]
                all_sent(image, r.sends, size, counters),
            Some(Err(_)) => lawful_end(image, size, r.sends),
        },
    }
}

/// One more block in its turn.
proof fn lemma_one_more_block(
    image: Seq<u8>,
    sends: Seq<OutgoingView>,
    block_size: u16,
    counters: Seq<u32>,
    counter: u32,
)
    requires
        served(image, sends, block_size, counters),
        counter == blocks_sent(counters) || counter + 1 == blocks_sent(counters),
        counter + 1 <= block_count(image.len(), block_size),
    ensures
        served(
            image,
            sends + seq![block_message(image, block_size, counter)],
            block_size,
            counters.push(counter),
        ),
        blocks_sent(counters.push(counter)) == counter + 1,
{
    let more = counters.push(counter);
    assert(orderly(more)) by {
        assert forall|i: int| 0 < i < more.len() implies more[i - 1] <= #[trigger] more[i]
            <= more[i - 1] + 1 by {
            if i < counters.len() {
                assert(counters[i - 1] <= counters[i] <= counters[i - 1] + 1);
            }
        }
    }
    assert(sends + seq![block_message(image, block_size, counter)] =~= seq![
        accept_message(block_size, image.len() as u64),
    ] + Seq::new(more.len(), |i: int| block_message(image, block_size, more[i])));
}

/// What holds of a transfer while blocks are asked for: the counters of what was sent.
proof fn lemma_serving<E>(size: u16, image: Seq<u8>, r: StepView<E>) -> (counters: Seq<u32>)
    requires
        consistent(size, image, r),
        r.phase is Serving,
    ensures
        r.outcome is None,
        r.phase matches PhaseView::Serving { length, block_size, offset, next_counter, .. } && {
            &&& length == image.len()
            &&& block_size == size && size > 0
            &&& offset == next_counter * block_size
            &&& next_counter > 0 ==> offset < length
            &&& served(image, r.sends, block_size, counters)
            &&& blocks_sent(counters) == next_counter
        },
{
    reveal(consistent);
    match r.phase {
        PhaseView::Serving { block_size, next_counter, .. } => choose|counters: Seq<u32>|
            #[trigger] served(image, r.sends, block_size, counters) && blocks_sent(counters)
                == next_counter,
        _ => arbitrary(),
    }
}

/// What holds of a transfer whose last block has been sent: the counters of what was
/// sent.
proof fn lemma_awaiting_ack<E>(size: u16, image: Seq<u8>, r: StepView<E>) -> (counters: Seq<u32>)
    requires
        consistent(size, image, r),
        r.phase is AwaitAck,
    ensures
        r.outcome is None,
        r.phase matches PhaseView::AwaitAck(sent) && {
            &&& sent == image_block(image, size, sent.counter)
            &&& all_sent(image, r.sends, size, counters)
            &&& sent.counter == counters.last()
            &&& counters.len() > 0
        },
{
    reveal(consistent);
    match r.phase {
        PhaseView::AwaitAck(sent) => choose|counters: Seq<u32>|
            {
                &&& #[trigger] all_sent(image, r.sends, size, counters)
                &&& sent.counter == counters.last()
                &&& counters.len() > 0
            },
        _ => arbitrary(),
    }
}

/// While a transfer goes on, what was sent is lawful.
proof fn lemma_going_on_is_lawful<E>(size: u16, image: Seq<u8>, r: StepView<E>)
    requires
        consistent(size, image, r),
        !(r.phase is Finished),
    ensures
        lawful_head(image, size, r.sends),
{
    reveal(consistent);
    match r.phase {
        PhaseView::Serving { .. } => {
            let counters = lemma_serving(size, image, r);
            assert(served(image, r.sends, size, counters));
        },
        PhaseView::AwaitAck(_) => {
            let counters = lemma_awaiting_ack(size, image, r);
            assert(served(image, r.sends, size, counters));
        },
        _ => {},
    }
}

/// The block that a query in its turn is answered with.
proof fn lemma_next_block<E>(
    image: Seq<u8>,
    block_size: u16,
    offset: u64,
    counter: u32,
    read_failure: Option<E>,
)
    requires
        image.len() <= u64::MAX,
        block_size > 0,
        offset == counter * block_size,
        offset < image.len() || (counter == 0 && image.len() == 0),
        read_failure is None,
    ensures
        ({
            let length = image.len() as u64;
            let step = next_block_step(image, length, block_size, offset, counter, read_failure);
            let block = block_message(image, block_size, counter);
            let sent = image_block(image, block_size, counter);
            if counter + 1 == block_count(image.len(), block_size) {
                step == going_on::<E>(PhaseView::AwaitAck(sent), block)
            } else {
                &&& counter + 1 < block_count(image.len(), block_size)
                &&& (counter + 1) * block_size < length
                &&& counter < u32::MAX ==> step == going_on::<E>(
                    PhaseView::Serving {
                        length,
                        block_size,
                        offset: ((counter + 1) * block_size) as u64,
                        next_counter: (counter + 1) as u32,
                        last_response: Some(sent),
                    },
                    block,
                )
                &&& counter == u32::MAX ==> step == (StepView::<E> {
                    phase: PhaseView::Finished,
                    sends: seq![block, abort_message(BdxStatusCode::BadBlockCounter)],
                    outcome: Some(Err(ProviderError::UnexpectedMessage)),
                })
            }
        }),
{
    lemma_block_count(image.len(), block_size, counter as int);
}

/// A transfer after one more input.
spec fn after_step<E>(
    designator: Seq<u8>,
    limit: u16,
    image: Seq<u8>,
    before: StepView<E>,
    input: Input<E>,
) -> StepView<E> {
    let step = input_step(designator, limit, image, before.phase, input);
    StepView { phase: step.phase, sends: before.sends + step.sends, outcome: step.outcome }
}

proof fn lemma_step_broken_off<E>(
    designator: Seq<u8>,
    limit: u16,
    size: u16,
    image: Seq<u8>,
    before: StepView<E>,
    input: Input<E>,
)
    requires
        consistent(size, image, before),
        !(before.phase is Finished),
        ({
            let step = input_step(designator, limit, image, before.phase, input);
            &&& step.phase is Finished
            &&& step.outcome is Some && step.outcome->0 is Err
            &&& lawful_tail(step.sends)
        }),
    ensures
        consistent(size, image, after_step(designator, limit, image, before, input)),
{
    reveal(consistent);
    let step = input_step(designator, limit, image, before.phase, input);
    lemma_going_on_is_lawful(size, image, before);
    assert(lawful_end(image, size, before.sends + step.sends));
}

proof fn lemma_step_await_init<E>(
    designator: Seq<u8>,
    limit: u16,
    size: u16,
    image: Seq<u8>,
    before: StepView<E>,
    message: MessageView,
    read_failure: Option<E>,
)
    requires
        image.len() <= u64::MAX,
        consistent(size, image, before),
        before.phase is AwaitInit,
        message matches MessageView::ReceiveInit(init) ==> size == negotiated(
            init.max_block_size,
            limit,
        ),
    ensures
        consistent(
            size,
            image,
            after_step(designator, limit, image, before, Input::Message { message, read_failure }),
        ),
{
    reveal(consistent);
    let input = Input::Message { message, read_failure };
    let after = after_step(designator, limit, image, before, input);
    if let PhaseView::Serving { block_size, next_counter, .. } = after.phase {
        assert(next_counter * block_size == 0) by (nonlinear_arith)
            requires
                next_counter == 0,
        ;
        let counters = Seq::<u32>::empty();
        lemma_at_least_one_block(image.len(), block_size);
        assert(after.sends =~= seq![accept_message(block_size, image.len() as u64)] + Seq::new(
            counters.len(),
            |i: int| block_message(image, block_size, counters[i]),
        ));
        assert(served(image, after.sends, block_size, counters));
    } else {
        lemma_step_broken_off(designator, limit, size, image, before, input);
    }
}

/// A transfer in which more blocks can be asked for.
proof fn lemma_still_serving<E>(
    size: u16,
    image: Seq<u8>,
    r: StepView<E>,
    counters: Seq<u32>,
    next_counter: u32,
)
    requires
        image.len() <= u64::MAX,
        next_counter > 0,
        size > 0,
        next_counter * size < image.len(),
        served(image, r.sends, size, counters),
        blocks_sent(counters) == next_counter,
        r.outcome is None,
        r.phase == (PhaseView::Serving {
            length: image.len() as u64,
            block_size: size,
            offset: (next_counter * size) as u64,
            next_counter,
            last_response: Some(image_block(image, size, (next_counter - 1) as u32)),
        }),
    ensures
        consistent(size, image, r),
{
    reveal(consistent);
    assert(next_counter * size >= 0) by (nonlinear_arith);
}

/// A transfer in which the last block has been sent.
proof fn lemma_last_block_sent<E>(
    size: u16,
    image: Seq<u8>,
    r: StepView<E>,
    counters: Seq<u32>,
)
    requires
        counters.len() > 0,
        all_sent(image, r.sends, size, counters),
        r.outcome is None,
        r.phase == PhaseView::AwaitAck(image_block(image, size, counters.last())),
    ensures
        consistent(size, image, r),
{
    reveal(consistent);
}

/// A transfer that was broken off by a report.
proof fn lemma_broken_off<E>(
    size: u16,
    image: Seq<u8>,
    r: StepView<E>,
    head: Seq<OutgoingView>,
    status: BdxStatusCode,
)
    requires
        lawful_head(image, size, head),
        r.sends == head + seq![abort_message(status)],
        r.phase is Finished,
        r.outcome is Some,
        r.outcome->0 is Err,
    ensures
        consistent(size, image, r),
{
    reveal(consistent);
    let tail = seq![abort_message(status)];
    assert(lawful_tail(tail));
}

#[verifier::spinoff_prover]
#[verifier::rlimit(30)]
proof fn lemma_step_next_block<E>(
    designator: Seq<u8>,
    limit: u16,
    size: u16,
    image: Seq<u8>,
    before: StepView<E>,
    counter: u32,
)
    requires
        image.len() <= u64::MAX,
        consistent(size, image, before),
        before.phase matches PhaseView::Serving { next_counter, .. } && counter == next_counter,
    ensures
        consistent(
            size,
            image,
            after_step(
                designator,
                limit,
                image,
                before,
                Input::Message { message: MessageView::BlockQuery(counter), read_failure: None },
            ),
        ),
{
    let counters = lemma_serving(size, image, before);
    let input = Input::<E>::Message {
        message: MessageView::BlockQuery(counter),
        read_failure: None,
    };
    let after = after_step(designator, limit, image, before, input);
    if let PhaseView::Serving { length, block_size, offset, .. } = before.phase {
        let block = block_message(image, block_size, counter);
        let more = counters.push(counter);
        let sends = before.sends + seq![block];
        assert(counter == 0 ==> counter * block_size == 0) by (nonlinear_arith);
        lemma_next_block::<E>(image, block_size, offset, counter, None);
        lemma_one_more_block(image, before.sends, block_size, counters, counter);
        let step = next_block_step::<E>(image, length, block_size, offset, counter, None);
        assert(input_step(designator, limit, image, before.phase, input) == step);
        if counter + 1 == block_count(image.len(), block_size) {
            lemma_last_block_sent(size, image, after, more);
        } else if counter < u32::MAX {
            lemma_still_serving(size, image, after, more, (counter + 1) as u32);
        } else {
            assert(served(image, sends, block_size, more));
            assert(after.sends =~= sends + seq![abort_message(BdxStatusCode::BadBlockCounter)]);
            lemma_broken_off(size, image, after, sends, BdxStatusCode::BadBlockCounter);
        }
    }
}

proof fn lemma_step_serving<E>(
    designator: Seq<u8>,
    limit: u16,
    size: u16,
    image: Seq<u8>,
    before: StepView<E>,
    message: MessageView,
    read_failure: Option<E>,
)
    requires
        image.len() <= u64::MAX,
        consistent(size, image, before),
        before.phase is Serving,
    ensures
        consistent(
            size,
            image,
            after_step(designator, limit, image, before, Input::Message { message, read_failure }),
        ),
{
    reveal(consistent);
    let input = Input::Message { message, read_failure };
    let after = after_step(designator, limit, image, before, input);
    if let PhaseView::Serving { length, block_size, offset, next_counter, last_response } =
        before.phase {
        if after.phase is Finished && lawful_tail(
            input_step(designator, limit, image, before.phase, input).sends,
        ) {
            lemma_step_broken_off(designator, limit, size, image, before, input);
        } else if let MessageView::BlockQuery(counter) = message {
            if counter == next_counter {
                lemma_step_next_block(designator, limit, size, image, before, counter);
            } else {
                let counters = lemma_serving(size, image, before);
                let block = block_message(image, block_size, counter);
                lemma_one_more_block(image, before.sends, block_size, counters, counter);
                assert(after.sends == before.sends + seq![block]);
                assert(served(image, after.sends, block_size, counters.push(counter)));
            }
        }
    }
}

proof fn lemma_step_await_ack<E>(
    designator: Seq<u8>,
    limit: u16,
    size: u16,
    image: Seq<u8>,
    before: StepView<E>,
    message: MessageView,
    read_failure: Option<E>,
)
    requires
        consistent(size, image, before),
        before.phase is AwaitAck,
    ensures
        consistent(
            size,
            image,
            after_step(designator, limit, image, before, Input::Message { message, read_failure }),
        ),
{
    reveal(consistent);
    let input = Input::Message { message, read_failure };
    let after = after_step(designator, limit, image, before, input);
    if let PhaseView::AwaitAck(sent) = before.phase {
        let counters = lemma_awaiting_ack(size, image, before);
        if after.outcome is None {
            let more = counters.push(sent.counter);
            let block = block_message(image, size, sent.counter);
            lemma_one_more_block(image, before.sends, size, counters, sent.counter);
            assert(after.sends == before.sends + seq![block]);
            assert(more.last() == sent.counter);
            assert(all_sent(image, after.sends, size, more));
        } else if after.outcome->0 is Ok {
            assert(after.sends =~= before.sends);
            assert(all_sent(image, after.sends, size, counters));
        } else {
            lemma_step_broken_off(designator, limit, size, image, before, input);
        }
    }
}

proof fn lemma_step<E>(
    designator: Seq<u8>,
    limit: u16,
    size: u16,
    image: Seq<u8>,
    before: StepView<E>,
    input: Input<E>,
)
    requires
        image.len() <= u64::MAX,
        consistent(size, image, before),
        !(before.phase is Finished),
        before.phase is AwaitInit ==> size == agreed_size(limit, seq![input]),
    ensures
        consistent(size, image, after_step(designator, limit, image, before, input)),
{
    match input {
        Input::Message { message, read_failure } => match before.phase {
            PhaseView::AwaitInit => lemma_step_await_init(
                designator,
                limit,
                size,
                image,
                before,
                message,
                read_failure,
            ),
            PhaseView::Serving { .. } => lemma_step_serving(
                designator,
                limit,
                size,
                image,
                before,
                message,
                read_failure,
            ),
            _ => lemma_step_await_ack(
                designator,
                limit,
                size,
                image,
                before,
                message,
                read_failure,
            ),
        },
        _ => lemma_step_broken_off(designator, limit, size, image, before, input),
    }
}

proof fn lemma_at_least_one_block(length: nat, block_size: u16)
    requires
        block_size > 0,
    ensures
        block_count(length, block_size) >= 1,
{
    if length > 0 {
        vstd::arithmetic::div_mod::lemma_div_pos_is_pos(length - 1, block_size as int);
    }
}

/// What holds of a transfer holds at every point of it.
proof fn lemma_run<E>(
    designator: Seq<u8>,
    limit: u16,
    size: u16,
    image: Seq<u8>,
    inputs: Seq<Input<E>>,
)
    requires
        image.len() <= u64::MAX,
        inputs.len() > 0 ==> size == agreed_size(limit, inputs),
    ensures
        consistent(size, image, run(designator, limit, image, inputs)),
        run(designator, limit, image, inputs).phase is AwaitInit ==> inputs.len() == 0,
    decreases inputs.len(),
{
    reveal(consistent);
    if inputs.len() > 0 {
        let before = run(designator, limit, image, inputs.drop_last());
        lemma_run(designator, limit, size, image, inputs.drop_last());
        if before.phase is Finished {
            assert(before.sends + Seq::<OutgoingView>::empty() =~= before.sends);
        } else {
            lemma_step(designator, limit, size, image, before, inputs.last());
        }
    }
}

/// At every point of a transfer, what was sent is nothing, or an acceptance of blocks
/// of the agreed size, followed by blocks of the image: block 0 first, and each time the
/// same block again or the next one. A transfer that ended with
/// an error may have sent one report behind that, and no other transfer has.
pub proof fn law_only_blocks_of_the_image_are_sent<E>(
    designator: Seq<u8>,
    limit: u16,
    image: Seq<u8>,
    inputs: Seq<Input<E>>,
)
    requires
        image.len() <= u64::MAX,
    ensures
        ({
            let r = run(designator, limit, image, inputs);
            match r.outcome {
                Some(Err(_)) => lawful_end(image, agreed_size(limit, inputs), r.sends),
                _ => lawful_head(image, agreed_size(limit, inputs), r.sends),
            }
        }),
{
    reveal(consistent);
    let r = run(designator, limit, image, inputs);
    let size = agreed_size(limit, inputs);
    lemma_run(designator, limit, size, image, inputs);
    if r.phase is Finished {
        if r.outcome->0 is Ok {
            let counters = choose|counters: Seq<u32>| #[trigger]
                all_sent(image, r.sends, size, counters);
            assert(served(image, r.sends, size, counters));
        }
    } else {
        lemma_going_on_is_lawful(size, image, r);
    }
}

/// Orderly counters leave nothing out.
proof fn lemma_orderly_counters_leave_nothing_out(counters: Seq<u32>, counter: u32)
    requires
        orderly(counters),
        counter < blocks_sent(counters),
    ensures
        counters.contains(counter),
    decreases counters.len(),
{
    if counters.last() == counter {
        assert(counters[counters.len() - 1] == counter);
    } else {
        let fewer = counters.drop_last();
        assert(counters.len() > 1);
        assert(counters[counters.len() - 2] <= counters[counters.len() - 1]
            <= counters[counters.len() - 2] + 1);
        assert(orderly(fewer)) by {
            assert forall|i: int| 0 < i < fewer.len() implies fewer[i - 1] <= #[trigger] fewer[i]
                <= fewer[i - 1] + 1 by {
                assert(counters[i - 1] <= counters[i] <= counters[i - 1] + 1);
            }
        }
        lemma_orderly_counters_leave_nothing_out(fewer, counter);
        let i = choose|i: int| 0 <= i < fewer.len() && fewer[i] == counter;
        assert(counters[i] == counter);
    }
}

/// Whether an acceptance and every block of the image are among what was sent.
pub open spec fn image_delivered(
    image: Seq<u8>,
    sends: Seq<OutgoingView>,
    block_size: u16,
) -> bool {
    &&& block_size > 0
    &&& sends.len() > 0
    &&& sends[0] == accept_message(block_size, image.len() as u64)
    &&& forall|counter: u32|
        counter < block_count(image.len(), block_size) ==> sends.contains(
            #[trigger] block_message(image, block_size, counter),
        )
    &&& block_count(image.len(), block_size) <= u32::MAX + 1
}

/// A transfer that ended well sent every block of the image, in the agreed size.
pub proof fn law_success_means_the_image_was_sent<E>(
    designator: Seq<u8>,
    limit: u16,
    image: Seq<u8>,
    inputs: Seq<Input<E>>,
)
    requires
        image.len() <= u64::MAX,
        run(designator, limit, image, inputs).outcome == Some(Ok::<(), ProviderError<E>>(())),
    ensures
        image_delivered(
            image,
            run(designator, limit, image, inputs).sends,
            agreed_size(limit, inputs),
        ),
{
    reveal(consistent);
    let sends = run(designator, limit, image, inputs).sends;
    let block_size = agreed_size(limit, inputs);
    lemma_run(designator, limit, block_size, image, inputs);
    let counters = choose|counters: Seq<u32>| #[trigger]
        all_sent(image, sends, block_size, counters);
    lemma_at_least_one_block(image.len(), block_size);
    assert forall|counter: u32|
        counter < block_count(image.len(), block_size) implies sends.contains(
        #[trigger] block_message(image, block_size, counter),
    ) by {
        lemma_orderly_counters_leave_nothing_out(counters, counter);
        let i = choose|i: int| 0 <= i < counters.len() && counters[i] == counter;
        assert(sends[i + 1] == block_message(image, block_size, counter));
    }
}

/// The data of the first `count` blocks, put together.
pub open spec fn assembled(image: Seq<u8>, block_size: u16, count: int) -> Seq<u8>
    decreases count,
{
    if count <= 0 {
        Seq::empty()
    } else {
        assembled(image, block_size, count - 1) + block_data(image, block_size, count - 1)
    }
}

proof fn lemma_assembled(image: Seq<u8>, block_size: u16, count: int)
    requires
        block_size > 0,
        0 < count <= block_count(image.len(), block_size),
    ensures
        assembled(image, block_size, count) == image.take(
            block_end(image.len(), block_size, count - 1),
        ),
        (count - 1) * block_size < image.len() || (count == 1 && image.len() == 0),
        0 <= (count - 1) * block_size <= block_end(image.len(), block_size, count - 1)
            <= image.len(),
    decreases count,
{
    let size = block_size as int;
    assert(0 * size == 0) by (nonlinear_arith);
    if count == 1 {
        assert(assembled(image, block_size, 0) =~= Seq::empty());
        assert(1 * size == size) by (nonlinear_arith);
        assert(assembled(image, block_size, 1) =~= image.take(
            block_end(image.len(), block_size, 0),
        ));
    } else {
        lemma_assembled(image, block_size, count - 1);
        lemma_block_count(image.len(), block_size, count - 2);
        assert((count - 1) * size < image.len());
        assert((count - 1 + 1) * size == (count - 1) * size + size) by (nonlinear_arith);
        assert(assembled(image, block_size, count) =~= image.take(
            block_end(image.len(), block_size, count - 1),
        ));
    }
}

/// The data of all blocks, put together by their counters, is the image.
pub proof fn law_blocks_make_up_the_image(image: Seq<u8>, block_size: u16)
    requires
        block_size > 0,
    ensures
        assembled(image, block_size, block_count(image.len(), block_size)) == image,
{
    let count = block_count(image.len(), block_size);
    lemma_at_least_one_block(image.len(), block_size);
    lemma_assembled(image, block_size, count);
    lemma_block_count(image.len(), block_size, count - 1);
    assert(image.take(image.len() as int) =~= image);
}

/// A receiver finds the counter of a block in front and the data behind it, and the
/// data is never more than a block.
pub proof fn law_a_block_carries_its_counter_and_data(
    image: Seq<u8>,
    block_size: u16,
    counter: u32,
)
    requires
        block_size > 0,
        counter < block_count(image.len(), block_size),
    ensures
        ({
            let payload = block_message(image, block_size, counter).payload;
            &&& from_le32(payload.take(4)) == counter
            &&& payload.skip(4) == block_data(image, block_size, counter as int)
            &&& payload.len() <= 4 + block_size
        }),
{
    let payload = block_message(image, block_size, counter).payload;
    lemma_le32_reads_back(counter);
    lemma_assembled(image, block_size, counter + 1);
    lemma_block_count(image.len(), block_size, counter as int);
    assert(payload.take(4) =~= le32(counter));
    assert(payload.skip(4) =~= block_data(image, block_size, counter as int));
}

/// How each end of a transfer is announced to the peer, and what is announced goes
/// with no other end.
pub open spec fn announced<E>(step: StepView<E>) -> bool {
    match step.outcome {
        None => forall|status: BdxStatusCode|
            !step.sends.contains(#[trigger] abort_message(status)),
        Some(Ok(_)) => step.sends.len() == 0,
        Some(Err(ProviderError::Matter(_))) => step.sends.len() == 0,
        Some(Err(ProviderError::Source(_))) => step.sends == seq![
            abort_message(BdxStatusCode::Unknown),
        ],
        Some(Err(ProviderError::Codec(_))) => step.sends == seq![
            abort_message(BdxStatusCode::BadMessageContents),
        ],
        Some(Err(ProviderError::Cancelled)) => step.sends.len() == 0 || step.sends == seq![
            abort_message(BdxStatusCode::Unknown),
        ],
        Some(Err(ProviderError::UnexpectedMessage)) => step.sends.len() > 0 && (exists|
            status: BdxStatusCode,
        |
            step.sends.last() == #[trigger] abort_message(status) && status
                != BdxStatusCode::Unknown && status != BdxStatusCode::BadMessageContents),
        Some(Err(ProviderError::UnauthenticatedPeer)) => false,
    }
}

/// A transfer that the peer spoiled, that could not be read or that was cancelled here
/// ends with a report to the peer; one that the peer or the transport gave up ends
/// in silence; and a transfer that goes on reports nothing.
pub proof fn law_ends_are_announced<E>(
    designator: Seq<u8>,
    limit: u16,
    image: Seq<u8>,
    phase: PhaseView,
    input: Input<E>,
)
    ensures
        announced(input_step(designator, limit, image, phase, input)),
        input is Cancelled && !(phase is Finished) ==> input_step(
            designator,
            limit,
            image,
            phase,
            input,
        ).sends == seq![abort_message(BdxStatusCode::Unknown)],
        input is PeerReport ==> input_step(designator, limit, image, phase, input).sends.len()
            == 0,
{
}

/// Once a transfer has ended, nothing more is sent and the end stays what it was,
/// whatever else comes in.
pub proof fn law_an_ended_transfer_stays_ended<E>(
    designator: Seq<u8>,
    limit: u16,
    image: Seq<u8>,
    inputs: Seq<Input<E>>,
    more: Seq<Input<E>>,
)
    requires
        image.len() <= u64::MAX,
        run(designator, limit, image, inputs).outcome is Some,
    ensures
        run(designator, limit, image, inputs + more) == run(designator, limit, image, inputs),
    decreases more.len(),
{
    reveal(consistent);
    let ended = run(designator, limit, image, inputs);
    let size = agreed_size(limit, inputs);
    lemma_run(designator, limit, size, image, inputs);
    if more.len() == 0 {
        assert(inputs + more =~= inputs);
    } else {
        law_an_ended_transfer_stays_ended(designator, limit, image, inputs, more.drop_last());
        assert((inputs + more).drop_last() =~= inputs + more.drop_last());
        assert(ended.sends + Seq::<OutgoingView>::empty() =~= ended.sends);
    }
}

/// Asking again for the block that was sent last gets the same message again and
/// changes nothing else.
pub proof fn law_a_repeated_query_gets_the_same_block<E>(
    designator: Seq<u8>,
    limit: u16,
    image: Seq<u8>,
    inputs: Seq<Input<E>>,
    counter: u32,
    read_failure: Option<E>,
)
    requires
        image.len() <= u64::MAX,
        ({
            let r = run(designator, limit, image, inputs);
            match r.phase {
                PhaseView::Serving { next_counter, .. } => counter + 1 == next_counter,
                PhaseView::AwaitAck(sent) => counter == sent.counter,
                _ => false,
            }
        }),
    ensures
        ({
            let r = run(designator, limit, image, inputs);
            let query = Input::Message { message: MessageView::BlockQuery(counter), read_failure };
            let again = run(designator, limit, image, inputs.push(query));
            &&& r.sends.len() > 0
            &&& again == (StepView::<E> { sends: r.sends.push(r.sends.last()), ..r })
        }),
{
    reveal(consistent);
    let r = run(designator, limit, image, inputs);
    let query = Input::Message { message: MessageView::BlockQuery(counter), read_failure };
    let size = agreed_size(limit, inputs);
    lemma_run(designator, limit, size, image, inputs);
    assert(inputs.push(query).drop_last() =~= inputs);
    match r.phase {
        PhaseView::Serving { .. } => {
            let counters = lemma_serving(size, image, r);
            let block = block_message(image, size, counter);
            assert(r.sends.last() == block);
            assert(r.sends + seq![block] =~= r.sends.push(block));
        },
        PhaseView::AwaitAck(_) => {
            let counters = lemma_awaiting_ack(size, image, r);
            let block = block_message(image, size, counter);
            assert(r.sends.last() == block);
            assert(r.sends + seq![block] =~= r.sends.push(block));
        },
        _ => {},
    }
}

/// The report that breaks a transfer off reads back as a failure of the BDX protocol
/// with the status that broke it off.
pub proof fn law_an_abort_reads_back(status: BdxStatusCode)
    ensures
        read_report(abort_message(status).payload) == Ok::<ReportView, Error>(bdx_report(status)),
{
    law_status_report_reads_back(bdx_report(status));
}

/// The inputs of a receiver that proposes a transfer and asks for the first `count`
/// blocks in order, where reading never fails.
pub open spec fn straight_queries<E>(init: InitView, count: int) -> Seq<Input<E>> {
    seq![
        Input::Message { message: MessageView::ReceiveInit(init), read_failure: None },
    ] + Seq::new(
        count as nat,
        |i: int| Input::Message { message: MessageView::BlockQuery(i as u32), read_failure: None },
    )
}

/// What a query in its turn leads to while a transfer goes on.
proof fn lemma_query_in_turn<E>(
    designator: Seq<u8>,
    limit: u16,
    size: u16,
    image: Seq<u8>,
    before: StepView<E>,
    counter: u32,
)
    requires
        image.len() <= u64::MAX,
        consistent(size, image, before),
        before.phase matches PhaseView::Serving { next_counter, .. } && next_counter == counter,
    ensures
        ({
            let size = before.phase->block_size;
            let query = Input::<E>::Message {
                message: MessageView::BlockQuery(counter),
                read_failure: None,
            };
            let step = input_step(designator, limit, image, before.phase, query);
            &&& counter + 1 == block_count(image.len(), size) ==> step.outcome is None
                && step.phase == PhaseView::AwaitAck(image_block(image, size, counter))
            &&& counter + 1 < block_count(image.len(), size) && counter < u32::MAX ==> step.outcome
                is None && step.phase is Serving && step.phase->block_size == size
                && step.phase->next_counter == counter + 1
        }),
{
    reveal(consistent);
    let size = before.phase->block_size;
    assert(counter == 0 ==> counter * size == 0) by (nonlinear_arith);
    lemma_next_block::<E>(image, size, before.phase->offset, counter, None);
}

proof fn lemma_straight_queries<E>(
    designator: Seq<u8>,
    limit: u16,
    image: Seq<u8>,
    init: InitView,
    count: int,
)
    requires
        image.len() <= u64::MAX,
        init_verdict(init, designator, limit, image.len() as u64) is Ok,
        0 <= count <= block_count(image.len(), negotiated(init.max_block_size, limit)),
        block_count(image.len(), negotiated(init.max_block_size, limit)) <= u32::MAX + 1,
    ensures
        ({
            let size = negotiated(init.max_block_size, limit);
            let r = run(designator, limit, image, straight_queries::<E>(init, count));
            &&& r.outcome is None
            &&& count == block_count(image.len(), size) ==> r.phase == PhaseView::AwaitAck(
                image_block(image, size, (count - 1) as u32),
            )
            &&& count < block_count(image.len(), size) ==> r.phase is Serving
                && r.phase->block_size == size && r.phase->next_counter == count
        }),
    decreases count,
{
    let size = negotiated(init.max_block_size, limit);
    let inputs = straight_queries::<E>(init, count);
    if count == 0 {
        lemma_at_least_one_block(image.len(), size);
        law_one_more_input_is_one_more_step(
            designator,
            limit,
            image,
            Seq::<Input<E>>::empty(),
            inputs[0],
        );
        assert(inputs =~= Seq::<Input<E>>::empty().push(inputs[0]));
    } else {
        let counter = (count - 1) as u32;
        let earlier = straight_queries::<E>(init, count - 1);
        let before = run(designator, limit, image, earlier);
        let query = Input::<E>::Message {
            message: MessageView::BlockQuery(counter),
            read_failure: None,
        };
        lemma_straight_queries::<E>(designator, limit, image, init, count - 1);
        law_one_more_input_is_one_more_step(designator, limit, image, earlier, query);
        assert(inputs =~= earlier.push(query));
        lemma_run(designator, limit, size, image, earlier);
        lemma_query_in_turn(designator, limit, size, image, before, counter);
    }
}

/// A receiver that proposes an acceptable transfer, asks for the blocks in order and
/// acknowledges the last one is served to the end, if the image can be read and has
/// no more blocks than there are counters.
pub proof fn law_a_straight_receiver_is_served<E>(
    designator: Seq<u8>,
    limit: u16,
    image: Seq<u8>,
    init: InitView,
)
    requires
        image.len() <= u64::MAX,
        init_verdict(init, designator, limit, image.len() as u64) is Ok,
        block_count(image.len(), negotiated(init.max_block_size, limit)) <= u32::MAX + 1,
    ensures
        ({
            let count = block_count(image.len(), negotiated(init.max_block_size, limit));
            let acknowledged = Input::Message {
                message: MessageView::BlockAckEof((count - 1) as u32),
                read_failure: None,
            };
            let inputs = straight_queries::<E>(init, count).push(acknowledged);
            run(designator, limit, image, inputs).outcome == Some(Ok::<(), ProviderError<E>>(()))
        }),
{
    let count = block_count(image.len(), negotiated(init.max_block_size, limit));
    let acknowledged = Input::<E>::Message {
        message: MessageView::BlockAckEof((count - 1) as u32),
        read_failure: None,
    };
    let inputs = straight_queries::<E>(init, count).push(acknowledged);
    lemma_at_least_one_block(image.len(), negotiated(init.max_block_size, limit));
    lemma_straight_queries::<E>(designator, limit, image, init, count);
    assert(inputs.drop_last() =~= straight_queries::<E>(init, count));
}

/// What is asked for of the image in a transfer, one part after the other: for each
/// input, what `needed_read` tells the server to read.
pub open spec fn reads<E>(
    designator: Seq<u8>,
    limit: u16,
    image: Seq<u8>,
    inputs: Seq<Input<E>>,
) -> Seq<BlockRead>
    decreases inputs.len(),
{
    if inputs.len() == 0 {
        Seq::empty()
    } else {
        let earlier = reads(designator, limit, image, inputs.drop_last());
        let before = run(designator, limit, image, inputs.drop_last());
        match input_read(before.phase, inputs.last()) {
            Some(read) => earlier.push(read),
            None => earlier,
        }
    }
}

/// What is read for block number `counter`: the block, and within the image.
pub open spec fn reads_block(
    length: nat,
    block_size: u16,
    counter: int,
    read: BlockRead,
) -> bool {
    &&& 0 <= counter < block_count(length, block_size)
    &&& read.offset == counter * block_size
    &&& read.offset + read.len == block_end(length, block_size, counter)
    &&& read.len <= block_size
    &&& read.offset + read.len <= length
}

/// What the image is asked for in a transfer is the block of the query.
proof fn lemma_input_read<E>(size: u16, image: Seq<u8>, r: StepView<E>, input: Input<E>)
    requires
        image.len() <= u64::MAX,
        consistent(size, image, r),
        input_read(r.phase, input) is Some,
    ensures
        r.phase is Serving,
        input matches Input::Message { message: MessageView::BlockQuery(counter), .. } && counter
            == r.phase->next_counter,
        reads_block(
            image.len(),
            size,
            r.phase->next_counter as int,
            input_read(r.phase, input)->0,
        ),
{
    reveal(consistent);
    let counter = r.phase->next_counter;
    assert(counter == 0 ==> counter * size == 0) by (nonlinear_arith);
    lemma_at_least_one_block(image.len(), size);
    if image.len() > 0 {
        lemma_block_count(image.len(), size, counter as int);
    } else {
        assert((counter + 1) * size >= 0) by (nonlinear_arith);
    }
}

/// Only a read moves the transfer on to the next block.
proof fn lemma_only_reads_move_on<E>(
    designator: Seq<u8>,
    limit: u16,
    size: u16,
    image: Seq<u8>,
    r: StepView<E>,
    input: Input<E>,
)
    requires
        image.len() <= u64::MAX,
        consistent(size, image, r),
        !(r.phase is Finished),
    ensures
        ({
            let next = input_step(designator, limit, image, r.phase, input).phase;
            &&& !(next is AwaitInit)
            &&& next is Serving && r.phase is AwaitInit ==> next->next_counter == 0
                && input_read(r.phase, input) is None
            &&& next is Serving && r.phase is Serving ==> next->next_counter == (
            if input_read(r.phase, input) is Some {
                r.phase->next_counter + 1
            } else {
                r.phase->next_counter as int
            })
            &&& next is Serving ==> !(r.phase is AwaitAck)
        }),
{
    reveal(consistent);
}

/// The k-th part that a transfer asks for of the image is block number k, in the agreed
/// size, and never beyond the image, whatever comes in and however the transfer ends.
/// While blocks are served, every block up to the next one has been asked for once.
///
/// This is about what the image is asked for, not about calls of `read_at`: those leave
/// nothing behind that could be counted.
pub proof fn law_each_block_is_asked_for_once<E>(
    designator: Seq<u8>,
    limit: u16,
    image: Seq<u8>,
    inputs: Seq<Input<E>>,
)
    requires
        image.len() <= u64::MAX,
    ensures
        ({
            let made = reads(designator, limit, image, inputs);
            let phase = run(designator, limit, image, inputs).phase;
            &&& forall|k: int|
                0 <= k < made.len() ==> reads_block(
                    image.len(),
                    agreed_size(limit, inputs),
                    k,
                    #[trigger] made[k],
                )
            &&& phase is AwaitInit ==> made.len() == 0
            &&& phase matches PhaseView::Serving { next_counter, .. } ==> made.len()
                == next_counter
        }),
    decreases inputs.len(),
{
    if inputs.len() > 0 {
        let earlier = inputs.drop_last();
        let before = run(designator, limit, image, earlier);
        let size = agreed_size(limit, inputs);
        law_each_block_is_asked_for_once(designator, limit, image, earlier);
        lemma_run(designator, limit, size, image, earlier);
        if !(before.phase is Finished) {
            lemma_only_reads_move_on(designator, limit, size, image, before, inputs.last());
        }
        if input_read(before.phase, inputs.last()) is Some {
            lemma_input_read(size, image, before, inputs.last());
        }
        assert forall|k: int|
            0 <= k < reads(designator, limit, image, inputs).len() implies reads_block(
            image.len(),
            size,
            k,
            #[trigger] reads(designator, limit, image, inputs)[k],
        ) by {
            if k < reads(designator, limit, image, earlier).len() {
                let read = reads(designator, limit, image, earlier)[k];
                assert(reads_block(image.len(), agreed_size(limit, earlier), k, read));
            }
        }
    }
}

/// The image is asked for something only to answer a new query, and then for the block
/// of that query. A repeated query and every other input are answered without it.
///
/// This too is about what the image is asked for, not about calls of `read_at`.
pub proof fn law_only_new_queries_read<E>(
    designator: Seq<u8>,
    limit: u16,
    image: Seq<u8>,
    inputs: Seq<Input<E>>,
    input: Input<E>,
)
    requires
        image.len() <= u64::MAX,
    ensures
        ({
            let made = reads(designator, limit, image, inputs);
            let read = input_read(run(designator, limit, image, inputs).phase, input);
            read is Some ==> {
                &&& input matches Input::Message { message: MessageView::BlockQuery(counter), .. }
                    && counter == made.len()
                &&& reads_block(
                    image.len(),
                    agreed_size(limit, inputs),
                    made.len() as int,
                    read->0,
                )
            }
        }),
{
    law_each_block_is_asked_for_once(designator, limit, image, inputs);
    let r = run(designator, limit, image, inputs);
    lemma_run(designator, limit, agreed_size(limit, inputs), image, inputs);
    if input_read(r.phase, input) is Some {
        lemma_input_read(agreed_size(limit, inputs), image, r, input);
    }
}

/// The body of a proposal that names a file and says nothing of a range.
pub open spec fn plain_proposal(
    max_block_size: u16,
    file_designator: Seq<u8>,
    metadata: Seq<u8>,
) -> Seq<u8> {
    seq![RECEIVER_DRIVE, 0u8] + le16(max_block_size) + le16(file_designator.len() as u16)
        + file_designator + metadata
}

/// A receiver that drives the transfer and names the file, by a body without a range,
/// is understood, and its proposal is taken for blocks of any size.
pub proof fn law_a_plain_proposal_is_taken(
    max_block_size: u16,
    file_designator: Seq<u8>,
    metadata: Seq<u8>,
    limit: u16,
    image_length: u64,
)
    requires
        file_designator.len() <= u16::MAX,
        max_block_size > 0,
        limit > 0,
    ensures
        ({
            let body = plain_proposal(max_block_size, file_designator, metadata);
            let decoded = decoded_message(opcode_of(MessageType::ReceiveInit), body);
            &&& decoded matches Some(MessageView::ReceiveInit(init)) && {
                &&& init.max_block_size == max_block_size
                &&& init.file_designator == file_designator
                &&& init.metadata == metadata
                &&& init_verdict(init, file_designator, limit, image_length) is Ok
            }
        }),
{
    let body = plain_proposal(max_block_size, file_designator, metadata);
    let name_len = file_designator.len() as u16;
    lemma_le16_reads_back(max_block_size);
    lemma_le16_reads_back(name_len);
    assert(body[0] == RECEIVER_DRIVE && body[1] == 0);
    assert(body.subrange(2, 4) =~= le16(max_block_size));
    assert(body.subrange(4, 6) =~= le16(name_len));
    assert(body.subrange(6, 6 + name_len) =~= file_designator);
    assert(body.skip(6 + name_len) =~= metadata);
    assert(body.subrange(4, 4).len() == 0);
}

/// Queries and acknowledgements are read by their first four bytes. What follows them
/// is not looked at.
pub proof fn law_counters_are_read(counter: u32, rest: Seq<u8>)
    ensures
        decoded_message(opcode_of(MessageType::BlockQuery), le32(counter) + rest) == Some(
            MessageView::BlockQuery(counter),
        ),
        decoded_message(opcode_of(MessageType::BlockAckEof), le32(counter) + rest) == Some(
            MessageView::BlockAckEof(counter),
        ),
{
    lemma_le32_reads_back(counter);
    assert((le32(counter) + rest).take(4) =~= le32(counter));
}

/// A receiver finds the block size and the length of the image in the acceptance. No
/// offset is said, and no length of an empty image.
pub proof fn law_an_acceptance_tells_its_terms(block_size: u16, length: u64)
    ensures
        ({
            let body = accept_message(block_size, length).payload;
            let meta = accept_message(block_size, length).meta;
            &&& meta.proto_id == 2 && meta.proto_opcode == 0x05 && meta.reliable
            &&& decoded_message(opcode_of(MessageType::ReceiveAccept), body) is Some
            &&& body[0] == 0x20
            &&& from_le16(body.subrange(2, 4)) == block_size
            &&& offset_end(body) == 4
            &&& length_end(body) == body.len()
            &&& le_number(body.subrange(offset_end(body), length_end(body))) == length
        }),
{
    let body = accept_message(block_size, length).payload;
    let wide = length > u32::MAX;
    lemma_le16_reads_back(block_size);
    lemma_le_number_reads_back(length);
    assert(body.subrange(2, 4) =~= le16(block_size));
    assert(body[1] == range_control(0, length, wide));
    assert(body.skip(4) =~= range_field(length, wide));
    assert(body.subrange(4, body.len() as int) =~= range_field(length, wide));
}

} // verus!
