//! What each message and event is answered with.
use vstd::prelude::*;

use crate::bdx::codec::{
    decoded_message, opcode_of, status_number, BdxStatusCode, CodecError, InitView, MessageType,
    MessageView,
};
use crate::bdx::laws::{law_an_ended_transfer_stays_ended, run};
use crate::bdx::serve::{
    abort_message, accept_message, bdx_message, block_len_at, block_step, event_input,
    init_verdict, input_read, input_step, negotiated, read_failure, Event, Input, OutgoingView,
    PhaseView, ProviderError, SentView, StepView,
};
use crate::error::Error;
use crate::message::MessageMeta;
use crate::sc::law_where_a_report_holds_its_fields;

verus! {

/// Whether a step ends the transfer with an error, and tells the peer by one report.
pub open spec fn ends_with_report<E>(
    step: StepView<E>,
    status: BdxStatusCode,
    error: ProviderError<E>,
) -> bool {
    &&& step.phase is Finished
    &&& step.outcome == Some(Err::<(), ProviderError<E>>(error))
    &&& step.sends == seq![abort_message(status)]
}

/// Whether a step ends the transfer with an error and tells the peer nothing.
pub open spec fn ends_in_silence<E>(step: StepView<E>, error: ProviderError<E>) -> bool {
    &&& step.phase is Finished
    &&& step.outcome == Some(Err::<(), ProviderError<E>>(error))
    &&& step.sends.len() == 0
}

/// A proposal is taken only if the receiver drives and the sender does not, in version 0,
/// with blocks of some size on both sides, from the start of the image, for a limit on the
/// length that the image keeps, and for the very file that is served, byte for byte. It is
/// taken wherever all of that holds.
pub proof fn law_which_proposals_are_taken(
    init: InitView,
    designator: Seq<u8>,
    limit: u16,
    length: u64,
)
    ensures
        init_verdict(init, designator, limit, length) is Ok <==> {
            &&& init.file_designator == designator
            &&& init.control & 0x20 == 0x20
            &&& init.control & 0x10 == 0
            &&& init.version == 0
            &&& init.max_block_size > 0
            &&& limit > 0
            &&& init.start_offset == 0
            &&& init.max_length == 0 || length <= init.max_length
        },
{
    let control = init.control;
    assert(control & 0x20 == 0x20 <==> control / 0x20 % 2 == 1) by (bit_vector);
    assert(control & 0x10 == 0 <==> control / 0x10 % 2 == 0) by (bit_vector);
}

/// A proposal is taken for no more than one file: where it is taken for one, every other
/// file, also one whose name differs in a single byte, is refused.
pub proof fn law_a_proposal_is_for_one_file(
    init: InitView,
    designator: Seq<u8>,
    other: Seq<u8>,
    limit: u16,
    length: u64,
)
    requires
        init_verdict(init, designator, limit, length) is Ok,
        other != designator,
    ensures
        init_verdict(init, other, limit, length) == Err::<(), BdxStatusCode>(
            BdxStatusCode::TransferMethodNotSupported,
        ),
{
    law_which_proposals_are_taken(init, designator, limit, length);
}

/// A refused proposal is too long exactly where a shorter image would have been taken, and
/// else not supported.
pub proof fn law_why_proposals_are_refused(
    init: InitView,
    designator: Seq<u8>,
    limit: u16,
    length: u64,
)
    requires
        init_verdict(init, designator, limit, length) is Err,
    ensures
        init_verdict(init, designator, limit, length) == Err::<(), BdxStatusCode>(
            if init_verdict(init, designator, limit, 0) is Ok {
                BdxStatusCode::LengthTooLarge
            } else {
                BdxStatusCode::TransferMethodNotSupported
            },
        ),
{
}

/// The agreed block size suits both sides and is no smaller than it has to be.
pub proof fn law_the_agreed_size_suits_both(theirs: u16, ours: u16)
    ensures
        negotiated(theirs, ours) <= theirs,
        negotiated(theirs, ours) <= ours,
        negotiated(theirs, ours) == theirs || negotiated(theirs, ours) == ours,
{
}

/// A block is as long as the size and the rest of the image allow, and no shorter. There is
/// none past the end of the image, and none without a size.
pub proof fn law_how_long_a_block_is(offset: u64, length: u64, block_size: u16)
    ensures
        block_len_at(offset, length, block_size) is Some <==> block_size > 0 && offset <= length,
        block_len_at(offset, length, block_size) matches Some(len) ==> {
            &&& 0 <= len <= block_size
            &&& offset + len <= length
            &&& len == block_size || offset + len == length
        },
{
}

/// BDX messages travel under protocol 2, reliably, and carry their payload as it is.
pub proof fn law_how_bdx_messages_travel(message_type: MessageType, payload: Seq<u8>)
    ensures
        bdx_message(message_type, payload).meta.proto_id == 2,
        bdx_message(message_type, payload).meta.proto_opcode == opcode_of(message_type),
        bdx_message(message_type, payload).meta.reliable,
        bdx_message(message_type, payload).payload == payload,
{
}

/// A transfer is broken off by a status report of the secure channel, sent reliably: a
/// failure, of protocol 2, with the number of the status, and nothing more.
pub proof fn law_how_a_transfer_is_broken_off(status: BdxStatusCode)
    ensures
        ({
            let report = abort_message(status);
            &&& report.meta.proto_id == 0
            &&& report.meta.proto_opcode == 0x40
            &&& report.meta.reliable
            &&& report.payload.len() == 8
            &&& report.payload[0] == 1 && report.payload[1] == 0
            &&& report.payload[2] == 2
            &&& report.payload[3] == 0 && report.payload[4] == 0 && report.payload[5] == 0
            &&& report.payload[6] + 0x100 * report.payload[7] == status_number(status)
        }),
{
    law_where_a_report_holds_its_fields(crate::bdx::serve::bdx_report(status));
}

/// Before a transfer is proposed, a proposal that is taken is accepted in the agreed size,
/// and everything is set to the start of the image. All else is refused: a proposal for
/// what speaks against it, and any other message as unexpected.
pub proof fn law_how_a_transfer_is_opened<E>(
    designator: Seq<u8>,
    limit: u16,
    image: Seq<u8>,
    message: MessageView,
    failure: Option<E>,
)
    requires
        image.len() <= u64::MAX,
    ensures
        ({
            let input = Input::Message { message, read_failure: failure };
            let step = input_step(designator, limit, image, PhaseView::AwaitInit, input);
            match message {
                MessageView::ReceiveInit(init) => match init_verdict(
                    init,
                    designator,
                    limit,
                    image.len() as u64,
                ) {
                    Ok(_) => {
                        &&& step.outcome is None
                        &&& step.sends == seq![
                            accept_message(
                                negotiated(init.max_block_size, limit),
                                image.len() as u64,
                            ),
                        ]
                        &&& step.phase is Serving
                        &&& step.phase->length == image.len()
                        &&& step.phase->block_size == negotiated(init.max_block_size, limit)
                        &&& step.phase->offset == 0
                        &&& step.phase->next_counter == 0
                        &&& step.phase->last_response is None
                    },
                    Err(status) => ends_with_report(
                        step,
                        status,
                        ProviderError::UnexpectedMessage,
                    ),
                },
                _ => ends_with_report(
                    step,
                    BdxStatusCode::UnexpectedMessage,
                    ProviderError::UnexpectedMessage,
                ),
            }
        }),
{
}

/// A new query is answered with the bytes of the image from the offset on, as many as a
/// block takes, behind the counter. The block is marked as the last exactly where it ends
/// the image, and then its acknowledgement is waited for. Else the next block is the next
/// in turn, unless the counters are used up, which ends the transfer. What was sent is kept
/// as it was sent.
pub proof fn law_how_a_new_query_is_answered<E>(
    designator: Seq<u8>,
    limit: u16,
    image: Seq<u8>,
    phase: PhaseView,
)
    requires
        phase is Serving,
        phase->length == image.len(),
        phase->offset <= phase->length,
        phase->block_size > 0,
    ensures
        ({
            let input = Input::<E>::Message {
                message: MessageView::BlockQuery(phase->next_counter),
                read_failure: None,
            };
            let step = input_step(designator, limit, image, phase, input);
            let counter = phase->next_counter;
            let end = if phase->offset + phase->block_size < image.len() {
                phase->offset + phase->block_size
            } else {
                image.len() as int
            };
            &&& step.sends.len() >= 1
            &&& step.sends[0].meta.proto_id == 2
            &&& step.sends[0].meta.proto_opcode == (if end == image.len() {
                0x12
            } else {
                0x11int
            })
            &&& step.sends[0].meta.reliable
            &&& step.sends[0].payload.len() == 4 + end - phase->offset
            &&& step.sends[0].payload.skip(4) == image.subrange(phase->offset as int, end)
            &&& counter == step.sends[0].payload[0] + 0x100 * step.sends[0].payload[1]
                + 0x1_0000 * step.sends[0].payload[2] + 0x100_0000 * step.sends[0].payload[3]
            &&& end == image.len() ==> {
                &&& step.outcome is None
                &&& step.sends.len() == 1
                &&& step.phase matches PhaseView::AwaitAck(sent) && keeps(
                    sent,
                    counter,
                    step.sends[0],
                )
            }
            &&& end < image.len() && counter < u32::MAX ==> {
                &&& step.outcome is None
                &&& step.sends.len() == 1
                &&& step.phase is Serving
                &&& step.phase->length == phase->length
                &&& step.phase->block_size == phase->block_size
                &&& step.phase->offset == end
                &&& step.phase->next_counter == counter + 1
                &&& step.phase->last_response matches Some(sent) && keeps(
                    sent,
                    counter,
                    step.sends[0],
                )
            }
            &&& end < image.len() && counter == u32::MAX ==> {
                &&& step.sends.len() == 2
                &&& step.sends[1] == abort_message(BdxStatusCode::BadBlockCounter)
                &&& step.phase is Finished
                &&& step.outcome == Some(
                    Err::<(), ProviderError<E>>(ProviderError::UnexpectedMessage),
                )
            }
        }),
{
    let end = if phase->offset + phase->block_size < image.len() {
        phase->offset + phase->block_size
    } else {
        image.len() as int
    };
    let input = Input::<E>::Message {
        message: MessageView::BlockQuery(phase->next_counter),
        read_failure: None,
    };
    let step = input_step(designator, limit, image, phase, input);
    assert(step.sends[0].payload.skip(4) =~= image.subrange(phase->offset as int, end));
}

/// Whether what is kept of a block is the message that carried it.
pub open spec fn keeps(sent: SentView, counter: u32, message: OutgoingView) -> bool {
    &&& sent.counter == counter
    &&& opcode_of(sent.message_type) == message.meta.proto_opcode
    &&& sent.payload == message.payload
}

/// A new query for which the image cannot be read ends the transfer with the error of the
/// image, and the peer is told of an unknown failure.
pub proof fn law_how_an_unreadable_block_is_answered<E>(
    designator: Seq<u8>,
    limit: u16,
    image: Seq<u8>,
    phase: PhaseView,
    failure: E,
)
    requires
        phase is Serving,
        phase->offset <= phase->length,
        phase->block_size > 0,
    ensures
        ends_with_report(
            input_step(
                designator,
                limit,
                image,
                phase,
                Input::Message {
                    message: MessageView::BlockQuery(phase->next_counter),
                    read_failure: Some(failure),
                },
            ),
            BdxStatusCode::Unknown,
            ProviderError::Source(failure),
        ),
{
}

/// While blocks are asked for, the query for the block that was sent last gets that block
/// again and changes nothing; a query for any other block that is not the next has a bad
/// counter; and every other message is unexpected.
pub proof fn law_how_other_messages_are_answered<E>(
    designator: Seq<u8>,
    limit: u16,
    image: Seq<u8>,
    phase: PhaseView,
    message: MessageView,
    failure: Option<E>,
)
    requires
        phase is Serving,
        message != MessageView::BlockQuery(phase->next_counter),
    ensures
        ({
            let input = Input::Message { message, read_failure: failure };
            let step = input_step(designator, limit, image, phase, input);
            let repeated = message matches MessageView::BlockQuery(counter) && counter
                < phase->next_counter && phase->last_response is Some
                && phase->last_response->0.counter == counter;
            &&& repeated ==> {
                &&& step.phase == phase
                &&& step.outcome is None
                &&& step.sends.len() == 1
                &&& step.sends[0].meta.proto_id == 2
                &&& step.sends[0].meta.reliable
                &&& keeps(
                    phase->last_response->0,
                    phase->last_response->0.counter,
                    step.sends[0],
                )
            }
            &&& !repeated && message is BlockQuery ==> ends_with_report(
                step,
                BdxStatusCode::BadBlockCounter,
                ProviderError::UnexpectedMessage,
            )
            &&& !(message is BlockQuery) ==> ends_with_report(
                step,
                BdxStatusCode::UnexpectedMessage,
                ProviderError::UnexpectedMessage,
            )
        }),
{
}

/// After the last block, its acknowledgement, and nothing else, ends the transfer well. A
/// query for it gets it again and changes nothing. The acknowledgement of another block has
/// a bad counter, and every other message is unexpected.
pub proof fn law_how_the_end_is_answered<E>(
    designator: Seq<u8>,
    limit: u16,
    image: Seq<u8>,
    sent: SentView,
    message: MessageView,
    failure: Option<E>,
)
    ensures
        ({
            let phase = PhaseView::AwaitAck(sent);
            let input = Input::Message { message, read_failure: failure };
            let step = input_step(designator, limit, image, phase, input);
            &&& step.outcome == Some(Ok::<(), ProviderError<E>>(())) <==> message
                == MessageView::BlockAckEof(sent.counter)
            &&& message == MessageView::BlockAckEof(sent.counter) ==> step.phase is Finished
                && step.sends.len() == 0
            &&& message == MessageView::BlockQuery(sent.counter) ==> {
                &&& step.phase == phase
                &&& step.outcome is None
                &&& step.sends.len() == 1
                &&& step.sends[0].meta.proto_id == 2
                &&& step.sends[0].meta.reliable
                &&& keeps(sent, sent.counter, step.sends[0])
            }
            &&& message is BlockAckEof && message != MessageView::BlockAckEof(sent.counter)
                ==> ends_with_report(
                step,
                BdxStatusCode::BadBlockCounter,
                ProviderError::UnexpectedMessage,
            )
            &&& !(message is BlockAckEof) && message != MessageView::BlockQuery(sent.counter)
                ==> ends_with_report(
                step,
                BdxStatusCode::UnexpectedMessage,
                ProviderError::UnexpectedMessage,
            )
        }),
{
}

/// At every point before the end, a body that does not decode is answered as bad contents,
/// a message of no BDX kind as unexpected, and cancelling here as an unknown failure. A
/// report of the peer and a failure to receive are not answered. Each ends the transfer
/// with its own error, and a failure to receive with the very error. After the end, nothing
/// is answered.
pub proof fn law_how_events_are_answered<E>(
    designator: Seq<u8>,
    limit: u16,
    image: Seq<u8>,
    phase: PhaseView,
    input: Input<E>,
)
    ensures
        ({
            let step = input_step(designator, limit, image, phase, input);
            if phase is Finished {
                &&& step.phase is Finished
                &&& step.outcome is None
                &&& step.sends.len() == 0
            } else {
                match input {
                    Input::Message { .. } => true,
                    Input::Malformed(error) => ends_with_report(
                        step,
                        BdxStatusCode::BadMessageContents,
                        ProviderError::Codec(error),
                    ),
                    Input::Foreign => ends_with_report(
                        step,
                        BdxStatusCode::UnexpectedMessage,
                        ProviderError::UnexpectedMessage,
                    ),
                    Input::PeerReport => ends_in_silence(step, ProviderError::Cancelled),
                    Input::ReceiveFailed(error) => ends_in_silence(
                        step,
                        ProviderError::Matter(error),
                    ),
                    Input::Cancelled => ends_with_report(
                        step,
                        BdxStatusCode::Unknown,
                        ProviderError::Cancelled,
                    ),
                }
            }
        }),
{
}

/// How what comes in is told apart, by protocol and opcode: a status report of the secure
/// channel is the peer's; what is not of protocol 2, or of no known kind, is foreign; and
/// the rest is what its body holds, or malformed where the body is too short.
pub proof fn law_how_events_are_told_apart<E>(
    meta: MessageMeta,
    payload: &[u8],
    error: Error,
    outcome: Option<Result<(), ProviderError<E>>>,
)
    ensures
        ({
            let input = event_input(Event::Received { meta, payload }, outcome);
            let opcode = meta.proto_opcode;
            let known = opcode == 0x01 || opcode == 0x02 || opcode == 0x04 || opcode == 0x05
                || opcode == 0x10 || opcode == 0x11 || opcode == 0x12 || opcode == 0x13 || opcode
                == 0x14;
            &&& input is PeerReport <==> meta.proto_id == 0 && opcode == 0x40
            &&& input is Foreign <==> !(meta.proto_id == 0 && opcode == 0x40) && (meta.proto_id
                != 2 || !known)
            &&& meta.proto_id == 2 && known ==> match decoded_message(opcode, payload@) {
                Some(message) => input == (Input::Message {
                    message,
                    read_failure: read_failure(outcome),
                }),
                None => input == Input::<E>::Malformed(CodecError::Truncated),
            }
        }),
        event_input(Event::ReceiveFailed(error), outcome) == Input::<E>::ReceiveFailed(error),
        event_input(Event::Cancelled, outcome) == Input::<E>::Cancelled,
{
}

/// A read failure is the error of the image that a transfer ended with, and there is none
/// where it ended otherwise or did not end.
pub proof fn law_what_a_read_failure_is<E>(error: E, other: ProviderError<E>)
    requires
        !(other is Source),
    ensures
        read_failure(Some(Err::<(), ProviderError<E>>(ProviderError::Source(error)))) == Some(
            error,
        ),
        read_failure(Some(Err::<(), ProviderError<E>>(other))) is None,
        read_failure::<E>(Some(Ok(()))) is None,
        read_failure::<E>(None) is None,
{
}

/// Only a query for the next block makes the image be asked, for as many bytes as a block
/// takes from the offset on.
pub proof fn law_what_the_image_is_asked_for<E>(phase: PhaseView, input: Input<E>)
    ensures
        input_read(phase, input) matches Some(read) ==> {
            &&& phase is Serving
            &&& input matches Input::Message { message, .. } && message
                == MessageView::BlockQuery(phase->next_counter)
            &&& read.offset == phase->offset
            &&& read.len <= phase->block_size
            &&& read.offset + read.len <= phase->length
            &&& read.len == phase->block_size || read.offset + read.len == phase->length
        },
        phase is Serving && phase->block_size > 0 && phase->offset <= phase->length && (
        input matches Input::Message { message, .. } && message == MessageView::BlockQuery(
            phase->next_counter,
        )) ==> input_read(phase, input) is Some,
{
}

/// What was read is sent as it was read, behind its counter, and an error of reading is
/// passed on.
pub proof fn law_what_was_read_is_sent<E>(
    length: u64,
    block_size: u16,
    offset: u64,
    counter: u32,
    data: Seq<u8>,
    error: E,
)
    requires
        offset + data.len() <= length,
    ensures
        ({
            let step = block_step::<E>(length, block_size, offset, counter, Ok(data));
            &&& step.sends.len() >= 1
            &&& step.sends[0].meta.proto_id == 2
            &&& step.sends[0].meta.proto_opcode == (if offset + data.len() == length {
                0x12
            } else {
                0x11int
            })
            &&& step.sends[0].payload.len() == 4 + data.len()
            &&& step.sends[0].payload.skip(4) == data
            &&& counter == step.sends[0].payload[0] + 0x100 * step.sends[0].payload[1]
                + 0x1_0000 * step.sends[0].payload[2] + 0x100_0000 * step.sends[0].payload[3]
        }),
        ends_with_report(
            block_step(length, block_size, offset, counter, Err(error)),
            BdxStatusCode::Unknown,
            ProviderError::Source(error),
        ),
{
    let step = block_step::<E>(length, block_size, offset, counter, Ok(data));
    assert(step.sends[0].payload.skip(4) =~= data);
}

/// Whatever a transfer sends under the BDX protocol, the acceptance and every block, it
/// sends because it was opened by a proposal of a receiver that drives, from the start,
/// for the very file that is served.
pub proof fn law_only_the_named_file_is_sent<E>(
    designator: Seq<u8>,
    limit: u16,
    image: Seq<u8>,
    inputs: Seq<Input<E>>,
    i: int,
)
    requires
        image.len() <= u64::MAX,
        0 <= i < run(designator, limit, image, inputs).sends.len(),
        run(designator, limit, image, inputs).sends[i].meta.proto_id == 2,
    ensures
        inputs.len() > 0,
        inputs[0] matches Input::Message { message: MessageView::ReceiveInit(init), .. } && {
            &&& init.file_designator == designator
            &&& init.control & 0x20 == 0x20
            &&& init.control & 0x10 == 0
            &&& init.version == 0
            &&& init.start_offset == 0
            &&& init.max_length == 0 || image.len() <= init.max_length
        },
{
    lemma_the_first_input_decides(designator, limit, image, inputs);
    match inputs[0] {
        Input::Message { message: MessageView::ReceiveInit(init), .. } => {
            law_which_proposals_are_taken(init, designator, limit, image.len() as u64);
        },
        _ => {},
    }
}

/// A transfer that ends well was opened by a proposal for the very file that is served.
pub proof fn law_success_is_for_the_named_file<E>(
    designator: Seq<u8>,
    limit: u16,
    image: Seq<u8>,
    inputs: Seq<Input<E>>,
)
    requires
        image.len() <= u64::MAX,
        run(designator, limit, image, inputs).outcome == Some(Ok::<(), ProviderError<E>>(())),
    ensures
        inputs.len() > 0,
        inputs[0] matches Input::Message { message: MessageView::ReceiveInit(init), .. }
            && init.file_designator == designator,
{
    lemma_the_first_input_decides(designator, limit, image, inputs);
    match inputs[0] {
        Input::Message { message: MessageView::ReceiveInit(init), .. } => {
            law_which_proposals_are_taken(init, designator, limit, image.len() as u64);
        },
        _ => {},
    }
}

/// Where the first input is no proposal that is taken, the transfer ends there, and nothing
/// but a report is sent.
proof fn lemma_the_first_input_decides<E>(
    designator: Seq<u8>,
    limit: u16,
    image: Seq<u8>,
    inputs: Seq<Input<E>>,
)
    requires
        image.len() <= u64::MAX,
    ensures
        ({
            let r = run(designator, limit, image, inputs);
            ||| inputs.len() == 0 && r.sends.len() == 0 && r.outcome is None
            ||| inputs.len() > 0 && (inputs[0] matches Input::Message {
                message: MessageView::ReceiveInit(init),
                ..
            } && init_verdict(init, designator, limit, image.len() as u64) is Ok)
            ||| {
                &&& inputs.len() > 0
                &&& r.outcome is Some
                &&& r.outcome->0 is Err
                &&& forall|i: int|
                    0 <= i < r.sends.len() ==> (#[trigger] r.sends[i]).meta.proto_id == 0
            }
        }),
{
    reveal_with_fuel(run, 2);
    if inputs.len() > 0 {
        let first = inputs.take(1);
        assert(first.drop_last() =~= Seq::<Input<E>>::empty());
        assert(inputs =~= first + inputs.skip(1));
        if run(designator, limit, image, first).outcome is Some {
            law_an_ended_transfer_stays_ended(designator, limit, image, first, inputs.skip(1));
        }
    }
}

} // verus!
