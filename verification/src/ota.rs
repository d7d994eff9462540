//! The OTA software update provider: which image is offered to whom, and which update
//! may be applied.
use vstd::prelude::*;
use vstd::string::*;

use crate::bytes::equal_bytes;
use crate::error::{Error, ErrorCode};

verus! {

/// The longest image URI that a response can carry, in bytes.
pub const MAX_IMAGE_URI_LEN: usize = 256;

/// The longest software version string that a response can carry, in bytes.
pub const MAX_SOFTWARE_VERSION_STRING_LEN: usize = 64;

/// The longest update token.
pub const MAX_UPDATE_TOKEN_LEN: usize = 32;

/// The most metadata for the requestor that a response can carry, in bytes.
pub const MAX_REQUESTOR_METADATA_LEN: usize = 512;

/// How an image can be downloaded.
#[derive(Clone, Copy, Debug, PartialEq, Eq, Structural)]
pub enum DownloadProtocolEnum {
    BDXSynchronous,
    BDXAsynchronous,
    HTTPS,
    VendorSpecific,
}

/// The answer to the question for an image.
#[derive(Clone, Copy, Debug, PartialEq, Eq, Structural)]
pub enum StatusEnum {
    UpdateAvailable,
    Busy,
    NotAvailable,
    DownloadProtocolNotSupported,
}

/// The answer to the question whether an update may be applied.
#[derive(Clone, Copy, Debug, PartialEq, Eq, Structural)]
pub enum ApplyUpdateActionEnum {
    Proceed,
    AwaitNextAction,
    Discontinue,
}

/// Which devices an image is for, and what it updates them to.
#[derive(Clone, Copy, Debug, PartialEq, Eq, Structural)]
pub struct ImagePolicy {
    pub vendor_id: u16,
    pub product_id: u16,
    pub software_version: u32,
    pub min_hardware_version: Option<u16>,
    pub max_hardware_version: Option<u16>,
}

/// Whether a hardware version, where one is reported, keeps the bounds of a policy. A
/// policy with a bound turns away a device that reports none.
pub open spec fn hardware_fits(policy: ImagePolicy, hardware_version: Option<u16>) -> bool {
    ||| policy.min_hardware_version is None && policy.max_hardware_version is None
    ||| {
        &&& hardware_version is Some
        &&& policy.min_hardware_version matches Some(min) ==> min <= hardware_version->0
        &&& policy.max_hardware_version matches Some(max) ==> hardware_version->0 <= max
    }
}

/// Whether an image is for a device, and newer than what the device runs.
pub open spec fn policy_fits(
    policy: ImagePolicy,
    vendor_id: u16,
    product_id: u16,
    current_version: u32,
    hardware_version: Option<u16>,
) -> bool {
    &&& policy.vendor_id == vendor_id
    &&& policy.product_id == product_id
    &&& current_version < policy.software_version
    &&& hardware_fits(policy, hardware_version)
}

impl ImagePolicy {
    /// Whether this image is newer and targets the requesting device.
    pub fn matches(
        &self,
        vendor_id: u16,
        product_id: u16,
        current_version: u32,
        hardware_version: Option<u16>,
    ) -> (fits: bool)
        ensures
            fits == policy_fits(*self, vendor_id, product_id, current_version, hardware_version),
    {
        vendor_id == self.vendor_id && product_id == self.product_id && current_version
            < self.software_version && match (
            self.min_hardware_version,
            self.max_hardware_version,
            hardware_version,
        ) {
            (None, None, _) => true,
            (Some(min), None, Some(version)) => version >= min,
            (None, Some(max), Some(version)) => version <= max,
            (Some(min), Some(max), Some(version)) => version >= min && version <= max,
            _ => false,
        }
    }
}

/// An image that the provider can offer.
#[derive(Clone, Copy, Debug)]
pub struct OtaImage<'a> {
    pub policy: ImagePolicy,
    pub image_uri: &'a str,
    pub software_version_string: &'a str,
    pub update_token: &'a [u8],
    pub metadata_for_requestor: Option<&'a [u8]>,
    pub protocols: &'a [DownloadProtocolEnum],
}

/// Whether a response can carry what it says of an image.
pub open spec fn encodable(image: OtaImage<'_>) -> bool {
    &&& 0 < image.image_uri.spec_bytes().len() <= MAX_IMAGE_URI_LEN
    &&& image.software_version_string.spec_bytes().len() <= MAX_SOFTWARE_VERSION_STRING_LEN
    &&& 0 < image.update_token@.len() <= MAX_UPDATE_TOKEN_LEN
    &&& image.metadata_for_requestor matches Some(metadata) ==> metadata@.len()
        <= MAX_REQUESTOR_METADATA_LEN
}

/// Whether a token and a version are those of the image on offer.
pub open spec fn names_image(image: Option<OtaImage<'_>>, token: Seq<u8>, version: u32) -> bool {
    &&& image is Some
    &&& image->0.policy.software_version == version
    &&& image->0.update_token@ == token
    &&& 0 < token.len() <= MAX_UPDATE_TOKEN_LEN
}

/// What a device asks for an image with. Each field is what came of reading it, and is
/// an error where the request did not hold it in the right form.
#[derive(Clone, Copy, Debug)]
pub struct QueryImageRequest<'a> {
    pub vendor_id: Result<u16, Error>,
    pub product_id: Result<u16, Error>,
    pub software_version: Result<u32, Error>,
    pub hardware_version: Result<Option<u16>, Error>,
    pub protocols_supported: Result<&'a [Result<DownloadProtocolEnum, Error>], Error>,
}

/// What a device asks to apply an update with. Each field is what came of reading it.
#[derive(Clone, Copy, Debug)]
pub struct ApplyUpdateRequestRequest<'a> {
    pub update_token: Result<&'a [u8], Error>,
    pub new_version: Result<u32, Error>,
}

/// What a device tells of an applied update. Each field is what came of reading it.
#[derive(Clone, Copy, Debug)]
pub struct NotifyUpdateAppliedRequest<'a> {
    pub update_token: Result<&'a [u8], Error>,
    pub software_version: Result<u32, Error>,
}

/// The response to a question for an image.
#[derive(Clone, Copy, Debug, PartialEq, Eq)]
pub struct QueryImageResponse<'a> {
    pub status: StatusEnum,
    pub delayed_action_time: Option<u32>,
    pub image_uri: Option<&'a str>,
    pub software_version: Option<u32>,
    pub software_version_string: Option<&'a str>,
    pub update_token: Option<&'a [u8]>,
    pub user_consent_needed: Option<bool>,
    pub metadata_for_requestor: Option<&'a [u8]>,
}

/// The response to the question whether an update may be applied.
#[derive(Clone, Copy, Debug, PartialEq, Eq, Structural)]
pub struct ApplyUpdateResponse {
    pub action: ApplyUpdateActionEnum,
    pub delayed_action_time: u32,
}

/// A response that offers nothing.
pub open spec fn no_offer<'a>(status: StatusEnum) -> QueryImageResponse<'a> {
    QueryImageResponse {
        status,
        delayed_action_time: None,
        image_uri: None,
        software_version: None,
        software_version_string: None,
        update_token: None,
        user_consent_needed: None,
        metadata_for_requestor: None,
    }
}

/// The response that offers an image.
pub open spec fn offer<'a>(image: OtaImage<'a>) -> QueryImageResponse<'a> {
    QueryImageResponse {
        status: StatusEnum::UpdateAvailable,
        delayed_action_time: None,
        image_uri: Some(image.image_uri),
        software_version: Some(image.policy.software_version),
        software_version_string: Some(image.software_version_string),
        update_token: Some(image.update_token),
        user_consent_needed: None,
        metadata_for_requestor: image.metadata_for_requestor,
    }
}

/// Whether some protocol that an image can be downloaded with was asked for. Entries
/// that could not be read stand for no protocol.
pub open spec fn share_protocol(
    supported: Seq<DownloadProtocolEnum>,
    requested: Seq<Result<DownloadProtocolEnum, Error>>,
) -> bool {
    exists|i: int, j: int|
        0 <= i < supported.len() && 0 <= j < requested.len() && #[trigger] requested[j] == Ok::<
            DownloadProtocolEnum,
            Error,
        >(#[trigger] supported[i])
}

/// How a question for an image is answered.
///
/// The request is read only where there is an image to offer, and its protocols only
/// where the image is for the device. The first field that cannot be read decides.
pub open spec fn query_answer<'a>(
    image: Option<OtaImage<'a>>,
    request: QueryImageRequest<'_>,
) -> Result<QueryImageResponse<'a>, Error> {
    if image is None || !encodable(image->0) {
        Ok(no_offer(StatusEnum::NotAvailable))
    } else if request.vendor_id is Err {
        Err(request.vendor_id->Err_0)
    } else if request.product_id is Err {
        Err(request.product_id->Err_0)
    } else if request.software_version is Err {
        Err(request.software_version->Err_0)
    } else if request.hardware_version is Err {
        Err(request.hardware_version->Err_0)
    } else if !policy_fits(
        image->0.policy,
        request.vendor_id->Ok_0,
        request.product_id->Ok_0,
        request.software_version->Ok_0,
        request.hardware_version->Ok_0,
    ) {
        Ok(no_offer(StatusEnum::NotAvailable))
    } else if request.protocols_supported is Err {
        Err(request.protocols_supported->Err_0)
    } else if !share_protocol(image->0.protocols@, request.protocols_supported->Ok_0@) {
        Ok(no_offer(StatusEnum::DownloadProtocolNotSupported))
    } else {
        Ok(offer(image->0))
    }
}

/// What is answered where a token and a version were to be read: the first that cannot
/// be read decides.
pub open spec fn apply_answer(
    image: Option<OtaImage<'_>>,
    request: ApplyUpdateRequestRequest<'_>,
) -> Result<ApplyUpdateResponse, Error> {
    if request.update_token is Err {
        Err(request.update_token->Err_0)
    } else if request.new_version is Err {
        Err(request.new_version->Err_0)
    } else {
        Ok(
            ApplyUpdateResponse {
                action: if names_image(
                    image,
                    request.update_token->Ok_0@,
                    request.new_version->Ok_0,
                ) {
                    ApplyUpdateActionEnum::Proceed
                } else {
                    ApplyUpdateActionEnum::Discontinue
                },
                delayed_action_time: 0,
            },
        )
    }
}

/// How the report of an applied update is answered: the first field that cannot be read
/// decides.
pub open spec fn notify_answer(
    image: Option<OtaImage<'_>>,
    request: NotifyUpdateAppliedRequest<'_>,
) -> Result<(), Error> {
    if request.update_token is Err {
        Err(request.update_token->Err_0)
    } else if request.software_version is Err {
        Err(request.software_version->Err_0)
    } else if names_image(image, request.update_token->Ok_0@, request.software_version->Ok_0) {
        Ok(())
    } else {
        Err(Error { code: ErrorCode::InvalidAction })
    }
}

/// The version of data that has changed once more.
pub open spec fn next_version(version: u32) -> u32 {
    ((version + 1) % 0x1_0000_0000) as u32
}

/// The version of the data of a cluster. It changes with the data, counting around.
#[derive(Clone, Copy, Debug, PartialEq, Eq, Structural)]
pub struct Dataver {
    version: u32,
}

impl View for Dataver {
    type V = u32;

    closed spec fn view(&self) -> u32 {
        self.version
    }
}

impl Dataver {
    /// Starts at `initial`.
    pub fn new(initial: u32) -> (dataver: Self)
        ensures
            dataver@ == initial,
    {
        Dataver { version: initial }
    }

    /// The current version.
    pub fn get(&self) -> (version: u32)
        ensures
            version == self@,
    {
        self.version
    }

    /// Notes that the data changed.
    pub fn changed(&mut self)
        ensures
            final(self)@ == next_version(old(self)@),
            final(self)@ == (old(self)@ + 1) % 0x1_0000_0000,
    {
        self.version = self.version.wrapping_add(1);
    }
}

/// A handler in the form in which a node takes it.
#[derive(Clone, Debug)]
pub struct HandlerAdaptor<T>(pub T);

/// Handles the commands of the cluster, for one image or none.
#[derive(Clone, Debug)]
pub struct OtaSoftwareUpdateProviderHandler<'a> {
    dataver: Dataver,
    image: Option<OtaImage<'a>>,
}

impl<'a> OtaSoftwareUpdateProviderHandler<'a> {
    /// The version of the cluster's data.
    pub closed spec fn data_version(&self) -> u32 {
        self.dataver@
    }

    /// The image on offer.
    pub closed spec fn offered(&self) -> Option<OtaImage<'a>> {
        self.image
    }

    /// A handler that offers `image`.
    pub fn new(dataver: Dataver, image: Option<OtaImage<'a>>) -> (handler: Self)
        ensures
            handler.data_version() == dataver@,
            handler.offered() == image,
    {
        OtaSoftwareUpdateProviderHandler { dataver, image }
    }

    /// This handler, in the form in which a node takes it.
    pub fn adapt(self) -> (adapted: HandlerAdaptor<Self>)
        ensures
            adapted.0 == self,
    {
        HandlerAdaptor(self)
    }

    /// Whether a token and a version are those of the image on offer.
    pub fn token_matches(&self, token: &[u8], version: u32) -> (named: bool)
        ensures
            named == names_image(self.offered(), token@, version),
    {
        match self.image {
            Some(image) => {
                image.policy.software_version == version && equal_bytes(image.update_token, token)
                    && token.len() != 0 && token.len() <= MAX_UPDATE_TOKEN_LEN
            },
            None => false,
        }
    }

    /// Whether an update may be applied.
    pub fn apply_action(&self, token: &[u8], version: u32) -> (action: ApplyUpdateActionEnum)
        ensures
            names_image(self.offered(), token@, version) ==> action
                == ApplyUpdateActionEnum::Proceed,
            !names_image(self.offered(), token@, version) ==> action
                == ApplyUpdateActionEnum::Discontinue,
    {
        if self.token_matches(token, version) {
            ApplyUpdateActionEnum::Proceed
        } else {
            ApplyUpdateActionEnum::Discontinue
        }
    }

    /// Whether a response can carry what it says of an image.
    pub fn image_is_encodable(image: OtaImage<'_>) -> (fits: bool)
        ensures
            fits == encodable(image),
    {
        let uri_len: usize = image.image_uri.as_bytes().len();
        let version_len: usize = image.software_version_string.as_bytes().len();
        let token_len: usize = image.update_token.len();
        uri_len != 0 && uri_len <= MAX_IMAGE_URI_LEN && version_len
            <= MAX_SOFTWARE_VERSION_STRING_LEN && token_len != 0 && token_len
            <= MAX_UPDATE_TOKEN_LEN && match image.metadata_for_requestor {
            Some(metadata) => metadata.len() <= MAX_REQUESTOR_METADATA_LEN,
            None => true,
        }
    }

    /// The version of the cluster's data.
    pub fn dataver(&self) -> (version: u32)
        ensures
            version == self.data_version(),
    {
        self.dataver.get()
    }

    /// Notes that the cluster's data changed.
    pub fn dataver_changed(&mut self)
        ensures
            final(self).data_version() == next_version(old(self).data_version()),
            final(self).data_version() == (old(self).data_version() + 1) % 0x1_0000_0000,
            final(self).offered() == old(self).offered(),
    {
        self.dataver.changed();
    }

    /// Answers a question for an image.
    pub fn handle_query_image(&self, request: &QueryImageRequest<'_>) -> (r: Result<
        QueryImageResponse<'a>,
        Error,
    >)
        ensures
            r == query_answer(self.offered(), *request),
    {
        let image = match self.image {
            Some(image) => image,
            None => {
                return Ok(without_offer(StatusEnum::NotAvailable));
            },
        };
        if !Self::image_is_encodable(image) {
            return Ok(without_offer(StatusEnum::NotAvailable));
        }
        let vendor_id: u16 = request.vendor_id?;
        let product_id: u16 = request.product_id?;
        let software_version: u32 = request.software_version?;
        let hardware_version = request.hardware_version?;
        if !image.policy.matches(vendor_id, product_id, software_version, hardware_version) {
            return Ok(without_offer(StatusEnum::NotAvailable));
        }
        let protocols = request.protocols_supported?;
        if !protocol_in_common(image.protocols, protocols) {
            return Ok(without_offer(StatusEnum::DownloadProtocolNotSupported));
        }
        Ok(
            QueryImageResponse {
                status: StatusEnum::UpdateAvailable,
                delayed_action_time: None,
                image_uri: Some(image.image_uri),
                software_version: Some(image.policy.software_version),
                software_version_string: Some(image.software_version_string),
                update_token: Some(image.update_token),
                user_consent_needed: None,
                metadata_for_requestor: image.metadata_for_requestor,
            },
        )
    }

    /// Answers the question whether an update may be applied.
    pub fn handle_apply_update_request(&self, request: &ApplyUpdateRequestRequest<'_>) -> (r:
        Result<ApplyUpdateResponse, Error>)
        ensures
            r == apply_answer(self.offered(), *request),
    {
        let token = request.update_token?;
        let version: u32 = request.new_version?;
        let action = self.apply_action(token, version);
        Ok(ApplyUpdateResponse { action, delayed_action_time: 0 })
    }

    /// Answers the report of an applied update.
    pub fn handle_notify_update_applied(&self, request: &NotifyUpdateAppliedRequest<'_>) -> (r:
        Result<(), Error>)
        ensures
            r == notify_answer(self.offered(), *request),
    {
        let token = request.update_token?;
        let version: u32 = request.software_version?;
        if !self.token_matches(token, version) {
            return Err(Error::new(ErrorCode::InvalidAction));
        }
        Ok(())
    }
}

/// A response that offers nothing.
fn without_offer<'a>(status: StatusEnum) -> (response: QueryImageResponse<'a>)
    ensures
        response == no_offer::<'a>(status),
{
    QueryImageResponse {
        status,
        delayed_action_time: None,
        image_uri: None,
        software_version: None,
        software_version_string: None,
        update_token: None,
        user_consent_needed: None,
        metadata_for_requestor: None,
    }
}

/// Whether some supported protocol was asked for.
fn protocol_in_common(
    supported: &[DownloadProtocolEnum],
    requested: &[Result<DownloadProtocolEnum, Error>],
) -> (common: bool)
    ensures
        common == share_protocol(supported@, requested@),
{
    let mut i: usize = 0;
    while i < supported.len()
        invariant
            i <= supported@.len(),
            forall|k: int, j: int|
                0 <= k < i && 0 <= j < requested@.len() ==> #[trigger] requested@[j] != Ok::<
                    DownloadProtocolEnum,
                    Error,
                >(#[trigger] supported@[k]),
        decreases supported@.len() - i,
    {
        let mut j: usize = 0;
        while j < requested.len()
            invariant
                i < supported@.len(),
                j <= requested@.len(),
                forall|k: int|
                    0 <= k < j ==> #[trigger] requested@[k] != Ok::<DownloadProtocolEnum, Error>(
                        supported@[i as int],
                    ),
            decreases requested@.len() - j,
        {
            if let Ok(protocol) = requested[j] {
                if protocol == supported[i] {
                    assert(requested@[j as int] == Ok::<DownloadProtocolEnum, Error>(
                        supported@[i as int],
                    ));
                    return true;
                }
            }
            j += 1;
        }
        i += 1;
    }
    false
}

/// An image is offered to a device exactly where a response can carry it, the request
/// could be read, the image is for the device and newer than what it runs, and the
/// device asked for a protocol that the image can be downloaded with.
pub proof fn law_who_is_offered_an_image(
    image: Option<OtaImage<'_>>,
    request: QueryImageRequest<'_>,
)
    ensures
        (query_answer(image, request) matches Ok(response) && response.status
            == StatusEnum::UpdateAvailable) <==> {
            &&& image is Some
            &&& encodable(image->0)
            &&& request.vendor_id == Ok::<u16, Error>(image->0.policy.vendor_id)
            &&& request.product_id == Ok::<u16, Error>(image->0.policy.product_id)
            &&& request.software_version is Ok
            &&& request.software_version->Ok_0 < image->0.policy.software_version
            &&& request.hardware_version is Ok
            &&& hardware_fits(image->0.policy, request.hardware_version->Ok_0)
            &&& request.protocols_supported is Ok
            &&& share_protocol(image->0.protocols@, request.protocols_supported->Ok_0@)
        },
{
}

/// What a response offers is within the limits of its fields and newer than what the
/// device runs. A response without an offer carries no field but its status.
pub proof fn law_an_offer_keeps_the_limits(
    image: Option<OtaImage<'_>>,
    request: QueryImageRequest<'_>,
)
    requires
        query_answer(image, request) is Ok,
    ensures
        ({
            let response = query_answer(image, request)->Ok_0;
            if response.status == StatusEnum::UpdateAvailable {
                &&& response.image_uri is Some
                &&& 0 < response.image_uri->0.spec_bytes().len() <= MAX_IMAGE_URI_LEN
                &&& response.software_version is Some
                &&& request.software_version->Ok_0 < response.software_version->0
                &&& response.software_version_string is Some
                &&& response.software_version_string->0.spec_bytes().len()
                    <= MAX_SOFTWARE_VERSION_STRING_LEN
                &&& response.update_token is Some
                &&& 0 < response.update_token->0@.len() <= MAX_UPDATE_TOKEN_LEN
                &&& response.metadata_for_requestor matches Some(metadata) ==> metadata@.len()
                    <= MAX_REQUESTOR_METADATA_LEN
            } else {
                response == no_offer(response.status)
            }
        }),
{
}

/// A device that hands back the token and the version of an offer may apply the update,
/// and its report of having done so is taken.
pub proof fn law_an_offered_update_may_be_applied(
    image: Option<OtaImage<'_>>,
    request: QueryImageRequest<'_>,
    apply: ApplyUpdateRequestRequest<'_>,
    notify: NotifyUpdateAppliedRequest<'_>,
)
    requires
        query_answer(image, request) matches Ok(response) && {
            &&& response.status == StatusEnum::UpdateAvailable
            &&& apply.update_token is Ok
            &&& apply.update_token->Ok_0@ == response.update_token->0@
            &&& apply.new_version == Ok::<u32, Error>(response.software_version->0)
            &&& notify.update_token is Ok
            &&& notify.update_token->Ok_0@ == response.update_token->0@
            &&& notify.software_version == Ok::<u32, Error>(response.software_version->0)
        },
    ensures
        apply_answer(image, apply) == Ok::<ApplyUpdateResponse, Error>(
            ApplyUpdateResponse {
                action: ApplyUpdateActionEnum::Proceed,
                delayed_action_time: 0,
            },
        ),
        notify_answer(image, notify) == Ok::<(), Error>(()),
{
}

/// The report of an applied update is taken exactly where the update might be applied.
pub proof fn law_reports_agree_with_permissions(
    image: Option<OtaImage<'_>>,
    token: Result<&[u8], Error>,
    version: Result<u32, Error>,
)
    ensures
        ({
            let apply = apply_answer(
                image,
                ApplyUpdateRequestRequest { update_token: token, new_version: version },
            );
            let notify = notify_answer(
                image,
                NotifyUpdateAppliedRequest { update_token: token, software_version: version },
            );
            &&& notify is Ok <==> (apply is Ok && apply->Ok_0.action
                == ApplyUpdateActionEnum::Proceed)
            &&& apply is Err ==> notify == Err::<(), Error>(apply->Err_0)
        }),
{
}

/// An image is for a device only where vendor and product are the same and the image is
/// newer. Each bound on the hardware version holds by itself: a device that reports less
/// than the least or more than the most is turned away, whatever the other bound is, and
/// so is one that reports nothing where there is a bound. All others are taken.
pub proof fn law_whom_an_image_is_for(
    policy: ImagePolicy,
    vendor_id: u16,
    product_id: u16,
    current_version: u32,
    hardware_version: Option<u16>,
)
    ensures
        ({
            let fits = policy_fits(
                policy,
                vendor_id,
                product_id,
                current_version,
                hardware_version,
            );
            &&& vendor_id != policy.vendor_id ==> !fits
            &&& product_id != policy.product_id ==> !fits
            &&& current_version >= policy.software_version ==> !fits
            &&& hardware_version is None && policy.min_hardware_version is Some ==> !fits
            &&& hardware_version is None && policy.max_hardware_version is Some ==> !fits
            &&& forall|reported: u16, least: u16|
                hardware_version == Some(reported) && policy.min_hardware_version == Some(least)
                    && reported < least ==> !fits
            &&& forall|reported: u16, most: u16|
                hardware_version == Some(reported) && policy.max_hardware_version == Some(most)
                    && reported > most ==> !fits
            &&& !fits ==> {
                ||| vendor_id != policy.vendor_id
                ||| product_id != policy.product_id
                ||| current_version >= policy.software_version
                ||| hardware_version is None && (policy.min_hardware_version is Some
                    || policy.max_hardware_version is Some)
                ||| hardware_version is Some && policy.min_hardware_version is Some
                    && hardware_version->0 < policy.min_hardware_version->0
                ||| hardware_version is Some && policy.max_hardware_version is Some
                    && hardware_version->0 > policy.max_hardware_version->0
            }
        }),
{
}

/// An image that is for a device stays for it with a wider bound, with an older running
/// version, and with any hardware version between two that it is for.
pub proof fn law_what_an_image_stays_for(
    policy: ImagePolicy,
    current_version: u32,
    older_version: u32,
    low: u16,
    between: u16,
    high: u16,
)
    requires
        older_version <= current_version,
        low <= between <= high,
        policy_fits(policy, policy.vendor_id, policy.product_id, current_version, Some(low)),
        policy_fits(policy, policy.vendor_id, policy.product_id, current_version, Some(high)),
    ensures
        policy_fits(policy, policy.vendor_id, policy.product_id, older_version, Some(between)),
        policy_fits(
            ImagePolicy { min_hardware_version: None, ..policy },
            policy.vendor_id,
            policy.product_id,
            current_version,
            Some(low),
        ),
        policy_fits(
            ImagePolicy { max_hardware_version: None, ..policy },
            policy.vendor_id,
            policy.product_id,
            current_version,
            Some(high),
        ),
{
}

/// What is offered is the image itself, field by field, and only to a device of its vendor
/// and product that runs an older version, on hardware within both bounds, and that can
/// download it.
pub proof fn law_an_offer_is_of_the_image_and_for_the_device(
    image: Option<OtaImage<'_>>,
    request: QueryImageRequest<'_>,
)
    requires
        query_answer(image, request) is Ok,
        query_answer(image, request)->Ok_0.status == StatusEnum::UpdateAvailable,
    ensures
        image is Some,
        ({
            let response = query_answer(image, request)->Ok_0;
            let offered = image->0;
            &&& response.image_uri == Some(offered.image_uri)
            &&& response.software_version == Some(offered.policy.software_version)
            &&& response.software_version_string == Some(offered.software_version_string)
            &&& response.update_token == Some(offered.update_token)
            &&& response.metadata_for_requestor == offered.metadata_for_requestor
            &&& response.delayed_action_time is None
            &&& response.user_consent_needed is None
        }),
        ({
            let policy = image->0.policy;
            &&& request.vendor_id == Ok::<u16, Error>(policy.vendor_id)
            &&& request.product_id == Ok::<u16, Error>(policy.product_id)
            &&& request.software_version is Ok
            &&& request.software_version->Ok_0 < policy.software_version
            &&& request.hardware_version is Ok
            &&& policy.min_hardware_version matches Some(least) ==> (
            request.hardware_version->Ok_0 matches Some(reported) && least <= reported)
            &&& policy.max_hardware_version matches Some(most) ==> (
            request.hardware_version->Ok_0 matches Some(reported) && reported <= most)
        }),
        request.protocols_supported is Ok,
        exists|i: int, j: int|
            0 <= i < image->0.protocols@.len() && 0 <= j
                < request.protocols_supported->Ok_0@.len()
                && #[trigger] request.protocols_supported->Ok_0@[j] == Ok::<
                DownloadProtocolEnum,
                Error,
            >(#[trigger] image->0.protocols@[i]),
{
}

/// What fits into a response: an address of 1 to 256 bytes, a version string of up to 64,
/// a token of 1 to 32, and up to 512 bytes of metadata. An image that fits is offered to
/// every device that it is for and that can download it, and one that does not fit to
/// none.
pub proof fn law_what_fits_is_offered(image: OtaImage<'_>, request: QueryImageRequest<'_>)
    requires
        request.vendor_id == Ok::<u16, Error>(image.policy.vendor_id),
        request.product_id == Ok::<u16, Error>(image.policy.product_id),
        request.software_version is Ok,
        request.software_version->Ok_0 < image.policy.software_version,
        request.hardware_version is Ok,
        image.policy.min_hardware_version matches Some(least) ==> (
        request.hardware_version->Ok_0 matches Some(reported) && least <= reported),
        image.policy.max_hardware_version matches Some(most) ==> (
        request.hardware_version->Ok_0 matches Some(reported) && reported <= most),
        request.protocols_supported is Ok,
        exists|i: int, j: int|
            0 <= i < image.protocols@.len() && 0 <= j < request.protocols_supported->Ok_0@.len()
                && #[trigger] request.protocols_supported->Ok_0@[j] == Ok::<
                DownloadProtocolEnum,
                Error,
            >(#[trigger] image.protocols@[i]),
    ensures
        query_answer(Some(image), request) is Ok,
        query_answer(Some(image), request)->Ok_0.status == (if {
            &&& 1 <= image.image_uri.spec_bytes().len() <= 256
            &&& image.software_version_string.spec_bytes().len() <= 64
            &&& 1 <= image.update_token@.len() <= 32
            &&& image.metadata_for_requestor is None
                || image.metadata_for_requestor->0@.len() <= 512
        } {
            StatusEnum::UpdateAvailable
        } else {
            StatusEnum::NotAvailable
        }),
{
}

/// Where nothing is offered, the status tells why: a device that an image fits and that
/// could read it is told that the protocol is missing only where it shares none with the
/// image, and everyone else that nothing is there. No response without an offer says
/// more than its status.
pub proof fn law_why_nothing_is_offered(
    image: Option<OtaImage<'_>>,
    request: QueryImageRequest<'_>,
)
    requires
        query_answer(image, request) is Ok,
        query_answer(image, request)->Ok_0.status != StatusEnum::UpdateAvailable,
    ensures
        ({
            let response = query_answer(image, request)->Ok_0;
            &&& response.image_uri is None
            &&& response.software_version is None
            &&& response.software_version_string is None
            &&& response.update_token is None
            &&& response.metadata_for_requestor is None
            &&& response.delayed_action_time is None
            &&& response.user_consent_needed is None
            &&& response.status == StatusEnum::NotAvailable || response.status
                == StatusEnum::DownloadProtocolNotSupported
        }),
        query_answer(image, request)->Ok_0.status == StatusEnum::DownloadProtocolNotSupported ==> {
            &&& image is Some
            &&& request.vendor_id == Ok::<u16, Error>(image->0.policy.vendor_id)
            &&& request.product_id == Ok::<u16, Error>(image->0.policy.product_id)
            &&& request.software_version is Ok
            &&& request.software_version->Ok_0 < image->0.policy.software_version
            &&& request.protocols_supported is Ok
            &&& forall|i: int, j: int|
                0 <= i < image->0.protocols@.len() && 0 <= j
                    < request.protocols_supported->Ok_0@.len()
                    ==> #[trigger] request.protocols_supported->Ok_0@[j] != Ok::<
                    DownloadProtocolEnum,
                    Error,
                >(#[trigger] image->0.protocols@[i])
        },
{
}

/// Without an image, and with one that a response could not carry, a question is answered
/// and never fails, however broken it is.
pub proof fn law_nothing_to_offer_is_told_to_everyone(
    image: OtaImage<'_>,
    request: QueryImageRequest<'_>,
)
    requires
        image.image_uri.spec_bytes().len() < 1 || image.image_uri.spec_bytes().len() > 256
            || image.software_version_string.spec_bytes().len() > 64 || image.update_token@.len()
            < 1 || image.update_token@.len() > 32 || (image.metadata_for_requestor is Some
            && image.metadata_for_requestor->0@.len() > 512),
    ensures
        query_answer(None, request) matches Ok(response) && response.status
            == StatusEnum::NotAvailable,
        query_answer(Some(image), request) matches Ok(response) && response.status
            == StatusEnum::NotAvailable,
{
}

/// Where there is an image that a response can carry, a question fails exactly where a
/// field that is needed cannot be read, and with the error of the first such field:
/// vendor, product, version, hardware, and, for a device that the image is for, protocols.
/// A device that the image is not for is told that nothing is there, whatever it says of
/// protocols.
pub proof fn law_which_field_a_question_fails_on(
    image: OtaImage<'_>,
    request: QueryImageRequest<'_>,
)
    requires
        1 <= image.image_uri.spec_bytes().len() <= 256,
        image.software_version_string.spec_bytes().len() <= 64,
        1 <= image.update_token@.len() <= 32,
        image.metadata_for_requestor is None || image.metadata_for_requestor->0@.len() <= 512,
    ensures
        ({
            let answer = query_answer(Some(image), request);
            let device_is_read = request.vendor_id is Ok && request.product_id is Ok
                && request.software_version is Ok && request.hardware_version is Ok;
            let least = image.policy.min_hardware_version;
            let most = image.policy.max_hardware_version;
            let hardware = request.hardware_version->Ok_0;
            let other_device = {
                ||| request.vendor_id->Ok_0 != image.policy.vendor_id
                ||| request.product_id->Ok_0 != image.policy.product_id
                ||| request.software_version->Ok_0 >= image.policy.software_version
                ||| hardware is None && (least is Some || most is Some)
                ||| hardware is Some && least is Some && hardware->0 < least->0
                ||| hardware is Some && most is Some && hardware->0 > most->0
            };
            &&& request.vendor_id matches Err(error) ==> answer is Err && answer->Err_0 == error
            &&& request.vendor_id is Ok ==> (request.product_id matches Err(error) ==> answer is Err
                && answer->Err_0 == error)
            &&& request.vendor_id is Ok && request.product_id is Ok ==> (
            request.software_version matches Err(error) ==> answer is Err && answer->Err_0
                == error)
            &&& request.vendor_id is Ok && request.product_id is Ok && request.software_version is Ok
                ==> (request.hardware_version matches Err(error) ==> answer is Err
                && answer->Err_0 == error)
            &&& device_is_read && other_device ==> answer is Ok && answer->Ok_0.status
                == StatusEnum::NotAvailable
            &&& device_is_read && !other_device ==> (
            request.protocols_supported matches Err(error) ==> answer is Err && answer->Err_0
                == error)
            &&& device_is_read && !other_device && request.protocols_supported is Ok ==> answer is Ok
                && answer->Ok_0.status != StatusEnum::NotAvailable
        }),
{
}

/// A device may go ahead exactly with the token and the version of the image on offer: the
/// very bytes, the very number, and a token of 1 to 32 bytes. It never has to wait.
pub proof fn law_who_may_go_ahead(image: Option<OtaImage<'_>>, token: &[u8], version: u32)
    ensures
        ({
            let answer = apply_answer(
                image,
                ApplyUpdateRequestRequest { update_token: Ok(token), new_version: Ok(version) },
            );
            &&& answer is Ok
            &&& answer->Ok_0.delayed_action_time == 0
            &&& answer->Ok_0.action == ApplyUpdateActionEnum::Proceed || answer->Ok_0.action
                == ApplyUpdateActionEnum::Discontinue
            &&& answer->Ok_0.action == ApplyUpdateActionEnum::Proceed <==> {
                &&& image is Some
                &&& version == image->0.policy.software_version
                &&& token@ == image->0.update_token@
                &&& 1 <= token@.len() <= 32
            }
        }),
{
}

/// The report of an applied update is taken exactly for the token and the version of the
/// image on offer, and is else no valid action.
pub proof fn law_which_reports_are_taken(image: Option<OtaImage<'_>>, token: &[u8], version: u32)
    ensures
        ({
            let answer = notify_answer(
                image,
                NotifyUpdateAppliedRequest {
                    update_token: Ok(token),
                    software_version: Ok(version),
                },
            );
            &&& answer is Ok <==> {
                &&& image is Some
                &&& version == image->0.policy.software_version
                &&& token@ == image->0.update_token@
                &&& 1 <= token@.len() <= 32
            }
            &&& answer matches Err(error) ==> error.code == ErrorCode::InvalidAction
        }),
{
}

/// No two versions, and no two tokens, may go ahead for one image.
pub proof fn law_one_token_and_one_version_go_ahead(
    image: Option<OtaImage<'_>>,
    first: ApplyUpdateRequestRequest<'_>,
    second: ApplyUpdateRequestRequest<'_>,
)
    requires
        apply_answer(image, first) matches Ok(answer) && answer.action
            == ApplyUpdateActionEnum::Proceed,
        apply_answer(image, second) matches Ok(answer) && answer.action
            == ApplyUpdateActionEnum::Proceed,
    ensures
        first.new_version == second.new_version,
        first.update_token->Ok_0@ == second.update_token->Ok_0@,
{
}

/// Requests to apply and reports fail where a field cannot be read, with the error of the
/// first such field.
pub proof fn law_which_field_a_token_request_fails_on(
    image: Option<OtaImage<'_>>,
    token: Result<&[u8], Error>,
    version: Result<u32, Error>,
)
    ensures
        ({
            let apply = apply_answer(
                image,
                ApplyUpdateRequestRequest { update_token: token, new_version: version },
            );
            let notify = notify_answer(
                image,
                NotifyUpdateAppliedRequest { update_token: token, software_version: version },
            );
            &&& token matches Err(error) ==> apply == Err::<ApplyUpdateResponse, Error>(error)
                && notify == Err::<(), Error>(error)
            &&& token is Ok ==> (version matches Err(error) ==> apply == Err::<
                ApplyUpdateResponse,
                Error,
            >(error) && notify == Err::<(), Error>(error))
            &&& token is Ok && version is Ok ==> apply is Ok
        }),
{
}

/// A change is one step up, and from the highest version back to the lowest, so that no
/// version stays and no two versions become the same.
pub proof fn law_versions_count_around(version: u32, other: u32)
    ensures
        version < u32::MAX ==> next_version(version) == version + 1,
        next_version(u32::MAX) == 0,
        next_version(version) != version,
        next_version(version) == next_version(other) ==> version == other,
{
}

} // verus!
