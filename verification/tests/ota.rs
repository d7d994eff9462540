//! The OTA software update provider.
use matter_services::error::{Error, ErrorCode};
use matter_services::ota::{
    ApplyUpdateActionEnum, ApplyUpdateRequestRequest, ApplyUpdateResponse, Dataver,
    DownloadProtocolEnum, ImagePolicy, NotifyUpdateAppliedRequest, OtaImage,
    OtaSoftwareUpdateProviderHandler, QueryImageRequest, QueryImageResponse, StatusEnum,
    MAX_IMAGE_URI_LEN, MAX_REQUESTOR_METADATA_LEN, MAX_SOFTWARE_VERSION_STRING_LEN,
    MAX_UPDATE_TOKEN_LEN,
};

#[test]
fn image_policy_requires_matching_device_and_newer_version() {
    let policy = ImagePolicy {
        vendor_id: 0x1234,
        product_id: 0x5678,
        software_version: 12,
        min_hardware_version: Some(2),
        max_hardware_version: Some(4),
    };

    assert!(policy.matches(0x1234, 0x5678, 11, Some(3)));
    assert!(!policy.matches(0x1234, 0x5678, 12, Some(3)));
    assert!(!policy.matches(0x9999, 0x5678, 11, Some(3)));
    assert!(!policy.matches(0x1234, 0x5678, 11, Some(1)));
    assert!(!policy.matches(0x1234, 0x5678, 11, Some(5)));
}

#[test]
fn hardware_policy_requires_a_reported_hardware_version_when_bounded() {
    let policy = ImagePolicy {
        vendor_id: 1,
        product_id: 2,
        software_version: 3,
        min_hardware_version: Some(1),
        max_hardware_version: None,
    };

    assert!(!policy.matches(1, 2, 2, None));
    assert!(policy.matches(1, 2, 2, Some(1)));
    assert!(policy.matches(1, 2, 2, Some(u16::MAX)));
}

fn image<'a>(
    uri: &'a str,
    version_string: &'a str,
    token: &'a [u8],
    metadata: Option<&'a [u8]>,
) -> OtaImage<'a> {
    OtaImage {
        policy: ImagePolicy {
            vendor_id: 1,
            product_id: 2,
            software_version: 3,
            min_hardware_version: None,
            max_hardware_version: None,
        },
        image_uri: uri,
        software_version_string: version_string,
        update_token: token,
        metadata_for_requestor: metadata,
        protocols: &[DownloadProtocolEnum::HTTPS],
    }
}

#[test]
fn image_is_rejected_when_response_fields_exceed_idl_limits() {
    let valid = image("https://host/image.ota", "3", b"token", Some(b"meta"));
    assert!(OtaSoftwareUpdateProviderHandler::image_is_encodable(valid));

    assert!(!OtaSoftwareUpdateProviderHandler::image_is_encodable(image(
        &"u".repeat(MAX_IMAGE_URI_LEN + 1),
        "3",
        b"token",
        None
    )));
    assert!(!OtaSoftwareUpdateProviderHandler::image_is_encodable(image(
        "https://host/image.ota",
        &"v".repeat(MAX_SOFTWARE_VERSION_STRING_LEN + 1),
        b"token",
        None
    )));
    assert!(!OtaSoftwareUpdateProviderHandler::image_is_encodable(image(
        "https://host/image.ota",
        "3",
        &vec![0; MAX_UPDATE_TOKEN_LEN + 1],
        None
    )));
    assert!(!OtaSoftwareUpdateProviderHandler::image_is_encodable(image(
        "https://host/image.ota",
        "3",
        b"token",
        Some(&vec![0; MAX_REQUESTOR_METADATA_LEN + 1])
    )));
    assert!(!OtaSoftwareUpdateProviderHandler::image_is_encodable(image(
        "", "3", b"token", None
    )));
}

#[test]
fn apply_action_requires_exact_token_and_advertised_version() {
    let image = image("https://host/image.ota", "3", b"opaque token", None);
    let handler = OtaSoftwareUpdateProviderHandler::new(Dataver::new(0), Some(image));

    assert_eq!(
        handler.apply_action(b"opaque token", 3),
        ApplyUpdateActionEnum::Proceed
    );
    assert_eq!(
        handler.apply_action(b"wrong token", 3),
        ApplyUpdateActionEnum::Discontinue
    );
    assert_eq!(
        handler.apply_action(b"opaque token", 4),
        ApplyUpdateActionEnum::Discontinue
    );
    assert_eq!(
        handler.apply_action(&[], 3),
        ApplyUpdateActionEnum::Discontinue
    );
    assert_eq!(
        handler.apply_action(&vec![0; MAX_UPDATE_TOKEN_LEN + 1], 3),
        ApplyUpdateActionEnum::Discontinue
    );
}

const BROKEN: Error = Error { code: ErrorCode::InvalidData };

const HTTPS_ONLY: [Result<DownloadProtocolEnum, Error>; 1] = [Ok(DownloadProtocolEnum::HTTPS)];

fn request() -> QueryImageRequest<'static> {
    QueryImageRequest {
        vendor_id: Ok(1),
        product_id: Ok(2),
        software_version: Ok(2),
        hardware_version: Ok(None),
        protocols_supported: Ok(&HTTPS_ONLY),
    }
}

fn no_offer(status: StatusEnum) -> QueryImageResponse<'static> {
    QueryImageResponse {
        status,
        delayed_action_time: None,
        image_uri: None,
        software_version: None,
        software_version_string: None,
        update_token: None,
        user_consent_needed: None,
        metadata_for_requestor: None,
    }
}

fn handler<'a>() -> OtaSoftwareUpdateProviderHandler<'a> {
    let image = image("https://host/image.ota", "3.0", b"token", Some(b"meta"));
    OtaSoftwareUpdateProviderHandler::new(Dataver::new(7), Some(image))
}

#[test]
fn a_matching_device_is_offered_the_image() {
    let response = handler().handle_query_image(&request()).unwrap();
    assert_eq!(
        response,
        QueryImageResponse {
            status: StatusEnum::UpdateAvailable,
            delayed_action_time: None,
            image_uri: Some("https://host/image.ota"),
            software_version: Some(3),
            software_version_string: Some("3.0"),
            update_token: Some(b"token"),
            user_consent_needed: None,
            metadata_for_requestor: Some(b"meta"),
        }
    );
}

#[test]
fn an_offered_update_may_be_applied_and_reported() {
    let handler = handler();
    let response = handler.handle_query_image(&request()).unwrap();
    let token = response.update_token.unwrap().to_vec();
    let version = response.software_version.unwrap();
    assert_eq!(
        handler.handle_apply_update_request(&ApplyUpdateRequestRequest {
            update_token: Ok(&token),
            new_version: Ok(version),
        }),
        Ok(ApplyUpdateResponse {
            action: ApplyUpdateActionEnum::Proceed,
            delayed_action_time: 0,
        })
    );
    assert_eq!(
        handler.handle_notify_update_applied(&NotifyUpdateAppliedRequest {
            update_token: Ok(&token),
            software_version: Ok(version),
        }),
        Ok(())
    );
}

#[test]
fn what_was_not_offered_is_neither_applied_nor_reported() {
    let handler = handler();
    for (token, version) in [(&b"token"[..], 4), (&b"other"[..], 3), (&b""[..], 3)] {
        assert!(!handler.token_matches(token, version));
        assert_eq!(
            handler.handle_apply_update_request(&ApplyUpdateRequestRequest {
                update_token: Ok(token),
                new_version: Ok(version),
            }),
            Ok(ApplyUpdateResponse {
                action: ApplyUpdateActionEnum::Discontinue,
                delayed_action_time: 0,
            })
        );
        assert_eq!(
            handler.handle_notify_update_applied(&NotifyUpdateAppliedRequest {
                update_token: Ok(token),
                software_version: Ok(version),
            }),
            Err(Error::new(ErrorCode::InvalidAction))
        );
    }
    let empty = OtaSoftwareUpdateProviderHandler::new(Dataver::new(0), None);
    assert!(!empty.token_matches(b"token", 3));
    let nameless = image("uri", "3", b"", None);
    let nameless = OtaSoftwareUpdateProviderHandler::new(Dataver::new(0), Some(nameless));
    assert!(!nameless.token_matches(b"", 3));
    let long = [9; MAX_UPDATE_TOKEN_LEN + 1];
    let overlong = image("uri", "3", &long, None);
    let overlong = OtaSoftwareUpdateProviderHandler::new(Dataver::new(0), Some(overlong));
    assert!(!overlong.token_matches(&long, 3));
}

#[test]
fn nothing_is_offered_without_an_image_to_offer() {
    let broken = QueryImageRequest {
        vendor_id: Err(BROKEN),
        product_id: Err(BROKEN),
        software_version: Err(BROKEN),
        hardware_version: Err(BROKEN),
        protocols_supported: Err(BROKEN),
    };
    let empty = OtaSoftwareUpdateProviderHandler::new(Dataver::new(0), None);
    assert_eq!(
        empty.handle_query_image(&broken),
        Ok(no_offer(StatusEnum::NotAvailable))
    );
    let unfit = image("", "3", b"token", None);
    let unfit = OtaSoftwareUpdateProviderHandler::new(Dataver::new(0), Some(unfit));
    assert_eq!(
        unfit.handle_query_image(&broken),
        Ok(no_offer(StatusEnum::NotAvailable))
    );
}

#[test]
fn the_first_field_that_cannot_be_read_decides() {
    let codes = [
        ErrorCode::Invalid,
        ErrorCode::InvalidAction,
        ErrorCode::InvalidData,
        ErrorCode::InvalidOpcode,
        ErrorCode::TruncatedPacket,
    ];
    let mut asked = QueryImageRequest {
        vendor_id: Err(Error::new(codes[0])),
        product_id: Err(Error::new(codes[1])),
        software_version: Err(Error::new(codes[2])),
        hardware_version: Err(Error::new(codes[3])),
        protocols_supported: Err(Error::new(codes[4])),
    };
    let handler = handler();
    assert_eq!(handler.handle_query_image(&asked).unwrap_err().code(), codes[0]);
    asked.vendor_id = Ok(1);
    assert_eq!(handler.handle_query_image(&asked).unwrap_err().code(), codes[1]);
    asked.product_id = Ok(2);
    assert_eq!(handler.handle_query_image(&asked).unwrap_err().code(), codes[2]);
    asked.software_version = Ok(3);
    assert_eq!(handler.handle_query_image(&asked).unwrap_err().code(), codes[3]);
    asked.hardware_version = Ok(None);
    assert_eq!(
        handler.handle_query_image(&asked),
        Ok(no_offer(StatusEnum::NotAvailable))
    );
    asked.software_version = Ok(2);
    assert_eq!(handler.handle_query_image(&asked).unwrap_err().code(), codes[4]);

    let mut apply = ApplyUpdateRequestRequest {
        update_token: Err(Error::new(codes[0])),
        new_version: Err(Error::new(codes[1])),
    };
    assert_eq!(handler.handle_apply_update_request(&apply).unwrap_err().code(), codes[0]);
    apply.update_token = Ok(b"token");
    assert_eq!(handler.handle_apply_update_request(&apply).unwrap_err().code(), codes[1]);

    let mut notify = NotifyUpdateAppliedRequest {
        update_token: Err(Error::new(codes[0])),
        software_version: Err(Error::new(codes[1])),
    };
    assert_eq!(handler.handle_notify_update_applied(&notify).unwrap_err().code(), codes[0]);
    notify.update_token = Ok(b"token");
    assert_eq!(handler.handle_notify_update_applied(&notify).unwrap_err().code(), codes[1]);
}

#[test]
fn a_device_without_a_common_protocol_is_told_so() {
    let handler = handler();
    let mut asked = request();
    let other = [Ok(DownloadProtocolEnum::BDXSynchronous), Err(BROKEN)];
    asked.protocols_supported = Ok(&other);
    assert_eq!(
        handler.handle_query_image(&asked),
        Ok(no_offer(StatusEnum::DownloadProtocolNotSupported))
    );
    asked.protocols_supported = Ok(&[]);
    assert_eq!(
        handler.handle_query_image(&asked),
        Ok(no_offer(StatusEnum::DownloadProtocolNotSupported))
    );
    let among_others = [
        Err(BROKEN),
        Ok(DownloadProtocolEnum::VendorSpecific),
        Ok(DownloadProtocolEnum::HTTPS),
    ];
    asked.protocols_supported = Ok(&among_others);
    assert_eq!(
        handler.handle_query_image(&asked).unwrap().status,
        StatusEnum::UpdateAvailable
    );
}

#[test]
fn fields_at_their_limits_are_offered() {
    let uri = "u".repeat(MAX_IMAGE_URI_LEN);
    let version = "v".repeat(MAX_SOFTWARE_VERSION_STRING_LEN);
    let token = [1; MAX_UPDATE_TOKEN_LEN];
    let metadata = [2; MAX_REQUESTOR_METADATA_LEN];
    let widest = image(&uri, &version, &token, Some(&metadata));
    assert!(OtaSoftwareUpdateProviderHandler::image_is_encodable(widest));
    let narrowest = image("u", "", &token[..1], Some(&[]));
    assert!(OtaSoftwareUpdateProviderHandler::image_is_encodable(narrowest));
    let tokenless = image("u", "", b"", None);
    assert!(!OtaSoftwareUpdateProviderHandler::image_is_encodable(tokenless));
    // Lengths are counted in bytes.
    let accented = "\u{e9}".repeat(MAX_IMAGE_URI_LEN / 2 + 1);
    let accented = image(&accented, "", b"token", None);
    assert!(!OtaSoftwareUpdateProviderHandler::image_is_encodable(accented));
}

#[test]
fn hardware_bounds_are_inclusive() {
    let mut policy = ImagePolicy {
        vendor_id: 1,
        product_id: 2,
        software_version: 3,
        min_hardware_version: Some(2),
        max_hardware_version: Some(4),
    };
    assert!(policy.matches(1, 2, 2, Some(2)));
    assert!(policy.matches(1, 2, 2, Some(4)));
    assert!(!policy.matches(1, 2, 2, None));
    policy.min_hardware_version = None;
    assert!(policy.matches(1, 2, 2, Some(0)));
    assert!(!policy.matches(1, 2, 2, Some(5)));
    assert!(!policy.matches(1, 2, 2, None));
    policy.max_hardware_version = None;
    assert!(policy.matches(1, 2, 2, None));
    assert!(policy.matches(1, 2, 2, Some(9)));
    assert!(!policy.matches(1, 3, 2, None));
}

#[test]
fn the_data_version_counts_around() {
    let mut handler = handler();
    assert_eq!(handler.dataver(), 7);
    handler.dataver_changed();
    assert_eq!(handler.dataver(), 8);
    assert_eq!(handler.adapt().0.dataver(), 8);
    let mut dataver = Dataver::new(u32::MAX);
    dataver.changed();
    assert_eq!(dataver.get(), 0);
}
