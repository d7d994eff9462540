//! Timed requests and the spans they count in.
use matter_services::epoch::Duration;
use matter_services::error::{Error, ErrorCode};
use matter_services::timed::TimedReq;
use matter_services::tlv::{TLVTag, TLVValue, TLVWrite, TLV};

fn at(secs: u64, nanos: u32) -> Duration {
    Duration::new(secs, nanos).unwrap()
}

#[test]
fn a_request_expires_its_timeout_after_now() {
    let request = TimedReq { timeout: 2500 };
    let instant = request.timeout_instant(|| at(10, 700_000_000));
    assert_eq!(instant, at(13, 200_000_000));
    assert_eq!(instant.as_secs(), 13);
    assert_eq!(instant.subsec_nanos(), 200_000_000);
    assert_eq!(TimedReq::default().timeout_instant(|| at(10, 5)), at(10, 5));
    let longest = TimedReq { timeout: u16::MAX };
    assert_eq!(longest.expiry(at(0, 0)), Some(at(65, 535_000_000)));
}

#[test]
fn an_expiry_past_the_end_of_time_cannot_be_told() {
    let last = at(u64::MAX, 999_999_999);
    assert_eq!(TimedReq { timeout: 0 }.expiry(last), Some(last));
    assert_eq!(TimedReq { timeout: 1 }.expiry(last), None);
    assert_eq!(
        TimedReq { timeout: 999 }.expiry(at(u64::MAX, 1_000_000)),
        None
    );
    assert_eq!(
        TimedReq { timeout: 999 }.expiry(at(u64::MAX, 999_999)),
        Some(at(u64::MAX, 999_999_999))
    );
}

#[test]
fn spans_agree_with_the_standard_library() {
    let parts = [0u64, 1, 59, u64::MAX - 1, u64::MAX];
    let fractions = [0u32, 1, 999_999_999];
    for secs in parts {
        for nanos in fractions {
            for millis in [0u64, 1, 999, 1000, 65_535, u64::MAX] {
                let ours = at(secs, nanos).checked_add(Duration::from_millis(millis));
                let theirs = std::time::Duration::new(secs, nanos)
                    .checked_add(std::time::Duration::from_millis(millis));
                assert_eq!(
                    ours.map(|span| (span.as_secs(), span.subsec_nanos())),
                    theirs.map(|span| (span.as_secs(), span.subsec_nanos()))
                );
            }
        }
    }
    assert_eq!(Duration::new(1, 2_000_000_001), Some(at(3, 1)));
    assert_eq!(Duration::new(u64::MAX, 1_000_000_000), None);
}

#[test]
fn a_request_is_a_structure_of_two_numbers() {
    let request = TimedReq { timeout: 0x1234 };
    let tag = TLVTag::Context(7);
    let expected = [
        TLV { tag, value: TLVValue::Structure },
        TLV { tag: TLVTag::Context(0), value: TLVValue::U16(0x1234) },
        TLV { tag: TLVTag::Context(255), value: TLVValue::U8(12) },
        TLV { tag: TLVTag::Anonymous, value: TLVValue::EndContainer },
    ];
    let mut written: Vec<TLV> = vec![TLV::u8(TLVTag::Anonymous, 1)];
    request.to_tlv(&tag, 12, &mut written).unwrap();
    assert_eq!(written[1..], expected);
    let elements: Result<Vec<TLV>, Error> = request.tlv_iter(tag, 12).into_iter().collect();
    assert_eq!(elements.unwrap(), expected);
}

/// Takes a number of elements.
struct Limited {
    elements: Vec<TLV>,
    room: usize,
}

impl Limited {
    fn take(&mut self, element: TLV) -> Result<(), Error> {
        if self.elements.len() == self.room {
            return Err(Error::new(ErrorCode::NoSpace));
        }
        self.elements.push(element);
        Ok(())
    }
}

impl TLVWrite for Limited {
    fn start_struct(&mut self, tag: &TLVTag) -> Result<(), Error> {
        self.take(TLV::structure(*tag))
    }

    fn u8(&mut self, tag: &TLVTag, value: u8) -> Result<(), Error> {
        self.take(TLV::u8(*tag, value))
    }

    fn u16(&mut self, tag: &TLVTag, value: u16) -> Result<(), Error> {
        self.take(TLV::u16(*tag, value))
    }

    fn end_container(&mut self) -> Result<(), Error> {
        self.take(TLV::end_container())
    }
}

#[test]
fn what_the_writer_refuses_ends_the_writing() {
    for room in 0..4 {
        let mut writer = Limited { elements: Vec::new(), room };
        let r = TimedReq { timeout: 1 }.to_tlv(&TLVTag::Anonymous, 12, &mut writer);
        assert_eq!(r, Err(Error::new(ErrorCode::NoSpace)));
        assert_eq!(writer.elements.len(), room);
    }
    let mut writer = Limited { elements: Vec::new(), room: 4 };
    assert_eq!(TimedReq { timeout: 1 }.to_tlv(&TLVTag::Anonymous, 12, &mut writer), Ok(()));
}
