//! Timed requests: announcing that the next request must come in time.
use vstd::prelude::*;

use crate::epoch::{max_nanos, Duration};
use crate::error::Error;
use crate::tlv::{TLVTag, TLVValue, TLVWrite, TLV};

verus! {

/// Announces a request that expires.
#[derive(Debug, Clone, PartialEq, Eq, Hash)]
pub struct TimedReq {
    /// The time that the request may take to come, in milliseconds.
    pub timeout: u16,
}

/// The elements of a timed request, for a revision of the interaction model.
pub open spec fn timed_elements(request: TimedReq, tag: TLVTag, im_revision: u8) -> Seq<TLV> {
    seq![
        TLV { tag, value: TLVValue::Structure },
        TLV { tag: TLVTag::Context(0), value: TLVValue::U16(request.timeout) },
        TLV { tag: TLVTag::Context(255), value: TLVValue::U8(im_revision) },
        TLV { tag: TLVTag::Anonymous, value: TLVValue::EndContainer },
    ]
}

/// Whether one of these elements, behind those before it, can be refused with this
/// error.
pub open spec fn refused_element<W: TLVWrite>(
    written: Seq<TLV>,
    elements: Seq<TLV>,
    error: Error,
) -> bool {
    exists|i: int|
        0 <= i < elements.len() && W::refuses(
            written + elements.take(i),
            #[trigger] elements[i],
            error,
        )
}

/// The nanosecond at which a request expires that was announced at another.
pub open spec fn expiry_nanos(now: int, timeout: u16) -> int {
    now + timeout * 1_000_000
}

impl Default for TimedReq {
    fn default() -> (request: Self)
        ensures
            request.timeout == 0,
    {
        TimedReq { timeout: 0 }
    }
}

impl TimedReq {
    /// Writes the request under `tag`, with the revision of the interaction model. What
    /// the writer refuses ends the writing, with the error of the writer.
    pub fn to_tlv<W: TLVWrite>(&self, tag: &TLVTag, im_revision: u8, tw: &mut W) -> (r: Result<
        (),
        Error,
    >)
        ensures
            r is Ok ==> final(tw).written() == old(tw).written() + timed_elements(
                *self,
                *tag,
                im_revision,
            ),
            r matches Err(error) ==> refused_element::<W>(
                old(tw).written(),
                timed_elements(*self, *tag, im_revision),
                error,
            ),
    {
        let ghost before = tw.written();
        let ghost elements = timed_elements(*self, *tag, im_revision);
        proof {
            assert(before + elements.take(0) =~= before);
            assert(before + elements.take(1) =~= before.push(elements[0]));
            assert(before + elements.take(2) =~= before.push(elements[0]).push(elements[1]));
            assert(before + elements.take(3) =~= before.push(elements[0]).push(elements[1]).push(
                elements[2],
            ));
        }
        tw.start_struct(tag)?;
        tw.u16(&TLVTag::Context(0), self.timeout)?;
        tw.u8(&TLVTag::Context(255), im_revision)?;
        tw.end_container()?;
        assert(tw.written() =~= before + elements);
        Ok(())
    }

    /// The elements of the request under `tag`, with the revision of the interaction
    /// model.
    pub fn tlv_iter(&self, tag: TLVTag, im_revision: u8) -> (elements: Vec<Result<TLV, Error>>)
        ensures
            elements@ == timed_elements(*self, tag, im_revision).map_values(
                |tlv: TLV| Ok::<TLV, Error>(tlv),
            ),
    {
        let elements = vec![
            Ok(TLV::structure(tag)),
            Ok(TLV::u16(TLVTag::Context(0), self.timeout)),
            Ok(TLV::u8(TLVTag::Context(255), im_revision)),
            Ok(TLV::end_container()),
        ];
        assert(elements@ =~= timed_elements(*self, tag, im_revision).map_values(
            |tlv: TLV| Ok::<TLV, Error>(tlv),
        ));
        elements
    }

    /// When a request that was announced at `now` expires, if that moment can be told.
    pub fn expiry(&self, now: Duration) -> (instant: Option<Duration>)
        ensures
            instant is Some <==> expiry_nanos(now@, self.timeout) <= max_nanos(),
            instant matches Some(instant) ==> instant@ == expiry_nanos(now@, self.timeout),
            instant is Some <==> now@ + self.timeout * 1_000_000 <= max_nanos(),
            instant matches Some(instant) ==> instant@ == now@ + self.timeout * 1_000_000,
    {
        now.checked_add(Duration::from_millis(self.timeout as u64))
    }

    /// When the request expires that follows this announcement, counted from the moment
    /// that `epoch` tells.
    pub fn timeout_instant<E: Fn() -> Duration>(&self, epoch: E) -> (instant: Duration)
        requires
            epoch.requires(()),
            forall|now: Duration|
                epoch.ensures((), now) ==> now@ + self.timeout * 1_000_000 <= max_nanos(),
        ensures
            exists|now: Duration| #[trigger]
                epoch.ensures((), now) && instant@ == now@ + self.timeout * 1_000_000,
    {
        let now = epoch();
        let instant = self.expiry(now);
        instant.unwrap()
    }
}

/// The elements tell which request they are of, whatever they stand under.
pub proof fn law_elements_tell_the_request(
    first: TimedReq,
    second: TimedReq,
    tag: TLVTag,
    im_revision: u8,
)
    requires
        timed_elements(first, tag, im_revision) == timed_elements(second, tag, im_revision),
    ensures
        first == second,
{
    assert(timed_elements(first, tag, im_revision)[1] == timed_elements(
        second,
        tag,
        im_revision,
    )[1]);
}

/// A timeout counts milliseconds: of two timeouts the longer one ends later, by as many
/// milliseconds as it is longer, a thousand of them make a second, and none at all ends
/// now.
pub proof fn law_timeouts_count_milliseconds(now: int, shorter: u16, longer: u16)
    requires
        shorter <= longer,
    ensures
        expiry_nanos(now, 0) == now,
        1000 * (expiry_nanos(now, longer) - expiry_nanos(now, shorter)) == (longer - shorter)
            * 1_000_000_000,
        max_nanos() == 0x1_0000_0000_0000_0000 * 1_000_000_000 - 1,
{
}

/// A request lies between the start and the end of a structure under its tag, the timeout
/// under context tag 0 and the revision of the interaction model under 255.
pub proof fn law_where_a_request_holds_its_timeout(
    request: TimedReq,
    tag: TLVTag,
    im_revision: u8,
)
    ensures
        ({
            let elements = timed_elements(request, tag, im_revision);
            &&& elements.len() == 4
            &&& elements[0].tag == tag && elements[0].value == TLVValue::Structure
            &&& elements[1].tag == TLVTag::Context(0) && elements[1].value == TLVValue::U16(
                request.timeout,
            )
            &&& elements[2].tag == TLVTag::Context(255) && elements[2].value == TLVValue::U8(
                im_revision,
            )
            &&& elements[3].tag == TLVTag::Anonymous && elements[3].value
                == TLVValue::EndContainer
        }),
{
}

} // verus!
