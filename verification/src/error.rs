//! The domain error entity and its status encoding.
//!
//! One concrete error type exists per domain; the User domain's is here.
//! An error holds a domain reason, an optional free-text message, a fallback
//! common reason, an optional wrapped common error, and optional metadata.
//! It renders deterministically, encodes into a transport status carrying
//! ordered detail records, and decodes back from one.

use vstd::prelude::*;
use vstd::string::StringExecFns;
use crate::common::CommonError;
use crate::metadata::{MetadataView, SkyErrorMetadata};
use crate::reason::{CommonErrorReason, UserErrorReason};
use crate::render::pairs_view;
use crate::status::{Code, ErrorInfo, ErrorInfoView, Status, StatusView};

verus! {

/// Either kind of reason; lets constructors accept both.
#[derive(Clone, Copy, Debug, PartialEq, Eq, Structural)]
pub enum SkyErrorReason {
    Common(CommonErrorReason),
    User(UserErrorReason),
}

impl From<CommonErrorReason> for SkyErrorReason {
    fn from(value: CommonErrorReason) -> (r: SkyErrorReason) {
        SkyErrorReason::Common(value)
    }
}

impl vstd::std_specs::convert::FromSpecImpl<CommonErrorReason> for SkyErrorReason {
    open spec fn obeys_from_spec() -> bool {
        true
    }

    open spec fn from_spec(v: CommonErrorReason) -> SkyErrorReason {
        SkyErrorReason::Common(v)
    }
}

impl From<UserErrorReason> for SkyErrorReason {
    fn from(value: UserErrorReason) -> (r: SkyErrorReason) {
        SkyErrorReason::User(value)
    }
}

impl vstd::std_specs::convert::FromSpecImpl<UserErrorReason> for SkyErrorReason {
    open spec fn obeys_from_spec() -> bool {
        true
    }

    open spec fn from_spec(v: UserErrorReason) -> SkyErrorReason {
        SkyErrorReason::User(v)
    }
}

/// Whether the conversion into a reason has a known meaning.
pub open spec fn reason_obeys_spec<R: Into<SkyErrorReason>>() -> bool {
    <R as vstd::std_specs::convert::IntoSpec<SkyErrorReason>>::obeys_into_spec()
}

/// The reason a value converts into.
pub open spec fn reason_spec<R: Into<SkyErrorReason>>(reason: R) -> SkyErrorReason {
    <R as vstd::std_specs::convert::IntoSpec<SkyErrorReason>>::into_spec(reason)
}

/// The classification a common error falls under. Total: every common error
/// kind maps to exactly one reason, and never to the unspecified sentinel.
pub open spec fn common_reason_of(e: CommonError) -> CommonErrorReason {
    match e {
        CommonError::ResourceNotFound => CommonErrorReason::ResourceNotFound,
        CommonError::Unauthorized => CommonErrorReason::Unauthorized,
        CommonError::RequiredFieldMissing => CommonErrorReason::RequiredFieldMissing,
        CommonError::InvalidName { .. } => CommonErrorReason::InvalidName,
        CommonError::InvalidNameAlternative { .. } => CommonErrorReason::InvalidName,
        CommonError::InvalidParent { .. } => CommonErrorReason::InvalidParent,
        CommonError::InvalidStringFormat { .. } => CommonErrorReason::InvalidStringFormat,
        CommonError::InvalidId => CommonErrorReason::InvalidId,
        CommonError::DuplicateId => CommonErrorReason::DuplicateId,
        CommonError::InvalidDisplayName => CommonErrorReason::InvalidDisplayName,
        CommonError::InvalidDateTime => CommonErrorReason::InvalidDateTime,
        CommonError::InvalidEnumValue => CommonErrorReason::InvalidEnumValue,
        CommonError::UnknownOneofVariant => CommonErrorReason::UnknownOneofVariant,
        CommonError::InvalidNumericValue => CommonErrorReason::InvalidNumericValue,
        CommonError::FailedConvertValue => CommonErrorReason::FailedConvertValue,
        CommonError::NumericOutOfRange => CommonErrorReason::NumericOutOfRange,
        CommonError::DuplicateValue => CommonErrorReason::DuplicateValue,
        CommonError::AlreadyExists => CommonErrorReason::AlreadyExists,
        CommonError::NotFound => CommonErrorReason::NotFound,
        CommonError::TypeMismatch => CommonErrorReason::TypeMismatch,
    }
}

/// Classifies a common error under the shared reason taxonomy.
pub fn get_common_error_reason(error: &CommonError) -> (r: CommonErrorReason)
    ensures
        r == common_reason_of(*error),
{
    match error {
        CommonError::ResourceNotFound => CommonErrorReason::ResourceNotFound,
        CommonError::Unauthorized => CommonErrorReason::Unauthorized,
        CommonError::RequiredFieldMissing => CommonErrorReason::RequiredFieldMissing,
        CommonError::InvalidName { .. } => CommonErrorReason::InvalidName,
        CommonError::InvalidNameAlternative { .. } => CommonErrorReason::InvalidName,
        CommonError::InvalidParent { .. } => CommonErrorReason::InvalidParent,
        CommonError::InvalidStringFormat { .. } => CommonErrorReason::InvalidStringFormat,
        CommonError::InvalidId => CommonErrorReason::InvalidId,
        CommonError::DuplicateId => CommonErrorReason::DuplicateId,
        CommonError::InvalidDisplayName => CommonErrorReason::InvalidDisplayName,
        CommonError::InvalidDateTime => CommonErrorReason::InvalidDateTime,
        CommonError::InvalidEnumValue => CommonErrorReason::InvalidEnumValue,
        CommonError::UnknownOneofVariant => CommonErrorReason::UnknownOneofVariant,
        CommonError::InvalidNumericValue => CommonErrorReason::InvalidNumericValue,
        CommonError::FailedConvertValue => CommonErrorReason::FailedConvertValue,
        CommonError::NumericOutOfRange => CommonErrorReason::NumericOutOfRange,
        CommonError::DuplicateValue => CommonErrorReason::DuplicateValue,
        CommonError::AlreadyExists => CommonErrorReason::AlreadyExists,
        CommonError::NotFound => CommonErrorReason::NotFound,
        CommonError::TypeMismatch => CommonErrorReason::TypeMismatch,
    }
}

/// The taxonomy mapping is total and never yields the unspecified sentinel.
pub proof fn lemma_common_reason_never_unspecified(e: CommonError)
    ensures
        common_reason_of(e) != CommonErrorReason::Unspecified,
{
}

/// The domain string for shared, cross-domain reasons.
pub fn common_error_domain() -> (r: &'static str)
    ensures
        r@ == "common.example.com"@,
{
    "common.example.com"
}

/// The domain string for the User domain's own reasons.
pub fn user_error_domain() -> (r: &'static str)
    ensures
        r@ == "sky.example.com/User"@,
{
    "sky.example.com/User"
}

/// The User domain string follows the convention: the shared prefix, a
/// slash, then the domain type name.
pub proof fn lemma_user_domain_convention()
    ensures
        "sky.example.com/User"@ == "sky.example.com"@ + "/User"@,
{
    reveal_strlit("sky.example.com/User");
    reveal_strlit("sky.example.com");
    reveal_strlit("/User");
    assert("sky.example.com/User"@ =~= "sky.example.com"@ + "/User"@);
}

/// The metadata an error effectively carries: absent metadata reads as the
/// default, all fields absent.
pub open spec fn effective_metadata(m: Option<SkyErrorMetadata>) -> MetadataView {
    match m {
        Option::None => MetadataView { user_name: Option::None },
        Option::Some(md) => md@,
    }
}

/// First write wins: a later value lands only where none is set yet.
pub open spec fn first_write(cur: Option<Seq<char>>, v: Seq<char>) -> Option<Seq<char>> {
    match cur {
        Option::Some(x) => Option::Some(x),
        Option::None => Option::Some(v),
    }
}

/// An error of the User domain.
#[derive(Debug)]
pub struct UserError {
    pub reason: UserErrorReason,
    pub message: Option<String>,
    pub common_reason: CommonErrorReason,
    pub common_error: Option<CommonError>,
    pub metadata: Option<SkyErrorMetadata>,
}

/// The User domain's result type.
pub type UserResult<T> = Result<T, UserError>;

/// The classifications and metadata read back from a status object.
pub ghost struct DecodedUserError {
    pub reason: UserErrorReason,
    pub common_reason: CommonErrorReason,
    pub metadata: Option<MetadataView>,
}

impl UserError {
    /// A fresh error from a reason: exactly one of the two classification
    /// fields becomes specified, the other stays the sentinel.
    pub open spec fn new_spec(reason: SkyErrorReason) -> UserError {
        match reason {
            SkyErrorReason::Common(c) => UserError {
                reason: UserErrorReason::Unspecified,
                message: Option::None,
                common_reason: c,
                common_error: Option::None,
                metadata: Option::None,
            },
            SkyErrorReason::User(u) => UserError {
                reason: u,
                message: Option::None,
                common_reason: CommonErrorReason::Unspecified,
                common_error: Option::None,
                metadata: Option::None,
            },
        }
    }

    /// Creates an error from a domain or common reason.
    pub fn new<R: Into<SkyErrorReason>>(reason: R) -> (r: UserError)
        ensures
            reason_obeys_spec::<R>() ==> r == UserError::new_spec(reason_spec(reason)),
            r.message is None,
            r.common_error is None,
            r.metadata is None,
            (r.common_reason == CommonErrorReason::Unspecified) || (r.reason
                == UserErrorReason::Unspecified),
    {
        let parsed: SkyErrorReason = reason.into();
        match parsed {
            SkyErrorReason::Common(c) => UserError {
                reason: UserErrorReason::Unspecified,
                message: Option::None,
                common_reason: c,
                common_error: Option::None,
                metadata: Option::None,
            },
            SkyErrorReason::User(u) => UserError {
                reason: u,
                message: Option::None,
                common_reason: CommonErrorReason::Unspecified,
                common_error: Option::None,
                metadata: Option::None,
            },
        }
    }

    /// Wraps a common error: classifies it under the taxonomy and keeps the
    /// original for rendering.
    pub fn new_common(common_error: CommonError) -> (r: UserError)
        ensures
            r.reason == UserErrorReason::Unspecified,
            r.common_reason == common_reason_of(common_error),
            r.common_error == Some(common_error),
            r.message is None,
            r.metadata is None,
    {
        let common_reason = get_common_error_reason(&common_error);
        UserError {
            reason: UserErrorReason::Unspecified,
            message: Option::None,
            common_reason,
            common_error: Option::Some(common_error),
            metadata: Option::None,
        }
    }

    /// Creates an error from a reason, with metadata attached.
    pub fn new_with_metadata<R: Into<SkyErrorReason>>(reason: R, metadata: SkyErrorMetadata) -> (r:
        UserError)
        ensures
            reason_obeys_spec::<R>() ==> r == (UserError {
                metadata: Some(metadata),
                ..UserError::new_spec(reason_spec(reason))
            }),
            r.metadata == Some(metadata),
            r.message is None,
            r.common_error is None,
    {
        let mut out = Self::new(reason);
        out.metadata = Option::Some(metadata);
        out
    }

    /// Creates an error from a reason, with a free-text message attached.
    pub fn new_with_message<R: Into<SkyErrorReason>>(reason: R, message: &str) -> (r: UserError)
        ensures
            reason_obeys_spec::<R>() ==> (r.reason == UserError::new_spec(
                reason_spec(reason),
            ).reason && r.common_reason == UserError::new_spec(reason_spec(reason)).common_reason),
            r.message matches Some(m) && m@ == message@,
            r.common_error is None,
            r.metadata is None,
    {
        let mut out = Self::new(reason);
        out.message = Option::Some(message.to_owned());
        out
    }

    /// Overwrites the domain reason.
    pub fn with_reason(self, reason: UserErrorReason) -> (r: UserError)
        ensures
            r == (UserError { reason, ..self }),
    {
        UserError { reason, ..self }
    }

    /// Overwrites the free-text message.
    pub fn with_message(self, message: &str) -> (r: UserError)
        ensures
            r.message matches Some(m) && m@ == message@,
            r.reason == self.reason,
            r.common_reason == self.common_reason,
            r.common_error == self.common_error,
            r.metadata == self.metadata,
    {
        UserError { message: Option::Some(message.to_owned()), ..self }
    }

    /// Creates an error carrying the given user name as metadata.
    pub fn user_name<R: Into<SkyErrorReason>>(value: &str, reason: R) -> (r: UserError)
        ensures
            reason_obeys_spec::<R>() ==> (r.reason == UserError::new_spec(
                reason_spec(reason),
            ).reason && r.common_reason == UserError::new_spec(reason_spec(reason)).common_reason),
            r.metadata matches Some(md) && md@.user_name == Some(value@),
            r.message is None,
            r.common_error is None,
    {
        Self::new_with_metadata(
            reason,
            SkyErrorMetadata { user_name: Option::Some(value.to_owned()) },
        )
    }

    /// Fills the user name metadata field, only if it is not set yet:
    /// context written close to the fault is never clobbered downstream.
    pub fn with_user_name(self, value: &str) -> (r: UserError)
        ensures
            r.reason == self.reason,
            r.common_reason == self.common_reason,
            r.message == self.message,
            r.common_error == self.common_error,
            r.metadata matches Some(md) && md@.user_name == first_write(
                effective_metadata(self.metadata).user_name,
                value@,
            ),
    {
        let metadata = match self.metadata {
            Option::Some(md) => {
                match md.user_name {
                    Option::Some(existing) => SkyErrorMetadata {
                        user_name: Option::Some(existing),
                    },
                    Option::None => SkyErrorMetadata { user_name: Option::Some(value.to_owned()) },
                }
            },
            Option::None => SkyErrorMetadata { user_name: Option::Some(value.to_owned()) },
        };
        UserError { metadata: Option::Some(metadata), ..self }
    }

    /// The reason name the error displays under: the common classification
    /// wins when it is specified.
    pub open spec fn reason_name_seq(self) -> Seq<char> {
        if self.common_reason != CommonErrorReason::Unspecified {
            self.common_reason.name_seq()
        } else {
            self.reason.name_seq()
        }
    }

    /// The deterministic rendering: the reason name, then in strict
    /// precedence the message, else the wrapped common error, else the
    /// metadata, else nothing.
    pub open spec fn display_seq(self) -> Seq<char> {
        self.reason_name_seq() + match self.message {
            Option::Some(m) => ": "@ + m@,
            Option::None => match self.common_error {
                Option::Some(ce) => ": "@ + ce.text_seq(),
                Option::None => match self.metadata {
                    Option::Some(md) => ": "@ + md@.display_seq(),
                    Option::None => Seq::<char>::empty(),
                },
            },
        }
    }

    /// Renders the error deterministically.
    pub fn display_string(&self) -> (r: String)
        ensures
            r@ == self.display_seq(),
    {
        let mut out = if self.common_reason != CommonErrorReason::Unspecified {
            self.common_reason.as_str_name().to_owned()
        } else {
            self.reason.as_str_name().to_owned()
        };
        match &self.message {
            Option::Some(m) => {
                out.append(": ");
                out.append(m.as_str());
            },
            Option::None => match &self.common_error {
                Option::Some(ce) => {
                    out.append(": ");
                    let text = ce.display_string();
                    out.append(text.as_str());
                },
                Option::None => match &self.metadata {
                    Option::Some(md) => {
                        out.append(": ");
                        let text = md.display_string();
                        out.append(text.as_str());
                    },
                    Option::None => {},
                },
            },
        }
        out
    }

    /// The detail records the error encodes to: the common record first if
    /// the common classification is specified, then the domain record if the
    /// domain reason is specified, both carrying the metadata map.
    pub open spec fn details_spec(self) -> Seq<ErrorInfoView> {
        let meta = effective_metadata(self.metadata).to_map_spec();
        let common_detail = ErrorInfoView {
            reason: self.common_reason.name_seq(),
            domain: "common.example.com"@,
            metadata: meta,
        };
        let user_detail = ErrorInfoView {
            reason: self.reason.name_seq(),
            domain: "sky.example.com/User"@,
            metadata: meta,
        };
        if self.common_reason != CommonErrorReason::Unspecified && self.reason
            != UserErrorReason::Unspecified {
            seq![common_detail, user_detail]
        } else if self.common_reason != CommonErrorReason::Unspecified {
            seq![common_detail]
        } else if self.reason != UserErrorReason::Unspecified {
            seq![user_detail]
        } else {
            Seq::<ErrorInfoView>::empty()
        }
    }

    /// The status the error encodes to.
    pub open spec fn status_spec(self) -> StatusView {
        StatusView {
            code: Code::InvalidArgument,
            message: self.display_seq(),
            details: self.details_spec(),
        }
    }

    /// Encodes the error into a transport status object.
    pub fn into_status(self) -> (r: Status)
        ensures
            r@ == self.status_spec(),
    {
        let message = self.display_string();
        let mut details: Vec<ErrorInfo> = Vec::new();
        if self.common_reason != CommonErrorReason::Unspecified {
            let metadata = match &self.metadata {
                Option::Some(md) => md.to_map(),
                Option::None => Vec::new(),
            };
            proof {
                assert(pairs_view(metadata@) =~= effective_metadata(self.metadata).to_map_spec());
            }
            details.push(ErrorInfo {
                reason: self.common_reason.as_str_name().to_owned(),
                domain: common_error_domain().to_owned(),
                metadata,
            });
        }
        if self.reason != UserErrorReason::Unspecified {
            let metadata = match &self.metadata {
                Option::Some(md) => md.to_map(),
                Option::None => Vec::new(),
            };
            proof {
                assert(pairs_view(metadata@) =~= effective_metadata(self.metadata).to_map_spec());
            }
            details.push(ErrorInfo {
                reason: self.reason.as_str_name().to_owned(),
                domain: user_error_domain().to_owned(),
                metadata,
            });
        }
        proof {
            assert(details@.map_values(|d: ErrorInfo| d@) =~= self.details_spec());
        }
        Status { code: Code::InvalidArgument, message, details }
    }

    /// Serializes the error as exactly the JSON rendering of the status it
    /// encodes to.
    pub fn to_json_string(&self) -> (r: String)
        ensures
            r@ == self.status_spec().json_seq(),
    {
        self.clone().into_status().to_json_string()
    }

    /// What a status decodes to, as a function of the status value. Only
    /// the first detail record is read; an empty metadata map reads back as
    /// no metadata at all.
    pub open spec fn from_status_spec(s: StatusView) -> Option<DecodedUserError> {
        if s.details.len() == 0 {
            Option::None
        } else {
            let info = s.details[0];
            let md = if info.metadata.len() == 0 {
                Option::None
            } else {
                Option::Some(MetadataView::from_map_spec(info.metadata))
            };
            if info.domain == "common.example.com"@ {
                match CommonErrorReason::from_name_spec(info.reason) {
                    Option::Some(cr) => Option::Some(DecodedUserError {
                        reason: UserErrorReason::Unspecified,
                        common_reason: cr,
                        metadata: md,
                    }),
                    Option::None => Option::None,
                }
            } else if info.domain == "sky.example.com/User"@ {
                match UserErrorReason::from_name_spec(info.reason) {
                    Option::Some(ur) => Option::Some(DecodedUserError {
                        reason: ur,
                        common_reason: CommonErrorReason::Unspecified,
                        metadata: md,
                    }),
                    Option::None => Option::None,
                }
            } else {
                Option::None
            }
        }
    }

    /// Decodes an error from a transport status object. Yields nothing when
    /// the detail list is empty, the first record's domain is foreign, or
    /// its reason name is unknown.
    pub fn from_status(status: Status) -> (r: Option<UserError>)
        ensures
            match r {
                Option::None => UserError::from_status_spec(status@) is None,
                Option::Some(e) => {
                    &&& UserError::from_status_spec(status@) matches Some(d)
                    &&& e.reason == d.reason
                    &&& e.common_reason == d.common_reason
                    &&& e.message is None
                    &&& e.common_error is None
                    &&& match (e.metadata, d.metadata) {
                        (Option::None, Option::None) => true,
                        (Option::Some(md), Option::Some(dm)) => md@ == dm,
                        _ => false,
                    }
                },
            },
    {
        let mut status = status;
        if status.details.len() == 0 {
            return Option::None;
        }
        let info = status.details.remove(0);
        let ErrorInfo { reason, domain, metadata } = info;
        let decoded_metadata = if metadata.len() == 0 {
            Option::None
        } else {
            SkyErrorMetadata::from_map(metadata)
        };
        if domain == common_error_domain().to_owned() {
            match CommonErrorReason::from_str_name(reason.as_str()) {
                Option::Some(cr) => Option::Some(UserError {
                    reason: UserErrorReason::Unspecified,
                    message: Option::None,
                    common_reason: cr,
                    common_error: Option::None,
                    metadata: decoded_metadata,
                }),
                Option::None => Option::None,
            }
        } else if domain == user_error_domain().to_owned() {
            match UserErrorReason::from_str_name(reason.as_str()) {
                Option::Some(ur) => Option::Some(UserError {
                    reason: ur,
                    message: Option::None,
                    common_reason: CommonErrorReason::Unspecified,
                    common_error: Option::None,
                    metadata: decoded_metadata,
                }),
                Option::None => Option::None,
            }
        } else {
            Option::None
        }
    }
}

impl Clone for UserError {
    /// Clones the error, value for value.
    fn clone(&self) -> (r: Self)
        ensures
            r == *self,
    {
        UserError {
            reason: self.reason,
            message: match &self.message {
                Option::None => Option::None,
                Option::Some(m) => Option::Some(m.clone()),
            },
            common_reason: self.common_reason,
            common_error: match &self.common_error {
                Option::None => Option::None,
                Option::Some(ce) => Option::Some(ce.clone()),
            },
            metadata: match &self.metadata {
                Option::None => Option::None,
                Option::Some(md) => Option::Some(md.clone()),
            },
        }
    }
}

impl From<CommonError> for UserError {
    /// Wrapping a common error classifies it and keeps it for rendering.
    fn from(common_error: CommonError) -> (r: UserError) {
        let common_reason = get_common_error_reason(&common_error);
        UserError {
            reason: UserErrorReason::Unspecified,
            message: Option::None,
            common_reason,
            common_error: Option::Some(common_error),
            metadata: Option::None,
        }
    }
}

impl vstd::std_specs::convert::FromSpecImpl<CommonError> for UserError {
    open spec fn obeys_from_spec() -> bool {
        true
    }

    open spec fn from_spec(v: CommonError) -> UserError {
        UserError {
            reason: UserErrorReason::Unspecified,
            message: Option::None,
            common_reason: common_reason_of(v),
            common_error: Option::Some(v),
            metadata: Option::None,
        }
    }
}

/// The sum of every domain's error type.
#[derive(Debug)]
pub enum SkyError {
    User(UserError),
}

/// The result type for cross-domain fallible operations.
pub type SkyResult<T> = Result<T, SkyError>;

impl SkyError {
    /// Renders the wrapped domain error deterministically.
    pub fn display_string(&self) -> (r: String)
        ensures
            match *self {
                SkyError::User(e) => r@ == e.display_seq(),
            },
    {
        match self {
            SkyError::User(e) => e.display_string(),
        }
    }
}

impl From<UserError> for SkyError {
    /// Wraps a User domain error.
    fn from(value: UserError) -> (r: SkyError) {
        SkyError::User(value)
    }
}

impl vstd::std_specs::convert::FromSpecImpl<UserError> for SkyError {
    open spec fn obeys_from_spec() -> bool {
        true
    }

    open spec fn from_spec(v: UserError) -> SkyError {
        SkyError::User(v)
    }
}

/// Setting the user name twice keeps the first value: the second write is
/// a no-op wherever the first landed.
pub proof fn lemma_first_write_wins(cur: Option<Seq<char>>, a: Seq<char>, b: Seq<char>)
    ensures
        first_write(first_write(cur, a), b) == first_write(cur, a),
{
}

/// An error with both classifications set encodes the common record first
/// and the domain record second, in that fixed order.
pub proof fn lemma_detail_order(e: UserError)
    requires
        e.common_reason != CommonErrorReason::Unspecified,
        e.reason != UserErrorReason::Unspecified,
    ensures
        e.status_spec().details.len() == 2,
        e.status_spec().details[0].domain == "common.example.com"@,
        e.status_spec().details[1].domain == "sky.example.com/User"@,
{
}

/// A present message takes precedence in the rendering: the display is the
/// reason name, a separator, and the message, whatever else is set.
pub proof fn lemma_display_message_precedence(e: UserError)
    ensures
        e.message matches Some(m) ==> e.display_seq() == e.reason_name_seq() + ": "@ + m@,
{
}

/// A status with no details decodes to nothing, never to an error with
/// all-unspecified fields.
pub proof fn lemma_empty_details_decode(s: StatusView)
    requires
        s.details.len() == 0,
    ensures
        UserError::from_status_spec(s) is None,
{
}

/// Whatever else an error carries, its rendering starts with the reason
/// name: operators get a stable, greppable prefix.
pub proof fn lemma_display_reason_prefixed(e: UserError)
    ensures
        e.display_seq().len() >= e.reason_name_seq().len(),
        e.display_seq().take(e.reason_name_seq().len() as int) == e.reason_name_seq(),
{
    let name = e.reason_name_seq();
    assert(e.display_seq().take(name.len() as int) =~= name);
}

/// Round trip: encoding an error and decoding the status reconstructs the
/// error's dominant classification and its metadata; a metadata map with no
/// fields set reads back as no metadata at all.
pub proof fn lemma_status_round_trip(e: UserError)
    requires
        !(e.reason == UserErrorReason::Unspecified && e.common_reason
            == CommonErrorReason::Unspecified),
    ensures
        ({
            let meta = effective_metadata(e.metadata);
            UserError::from_status_spec(e.status_spec()) == Some(
                DecodedUserError {
                    reason: if e.common_reason == CommonErrorReason::Unspecified {
                        e.reason
                    } else {
                        UserErrorReason::Unspecified
                    },
                    common_reason: e.common_reason,
                    metadata: match meta.user_name {
                        Option::None => Option::None::<MetadataView>,
                        Option::Some(_) => Option::Some(meta),
                    },
                },
            )
        }),
{
    let meta = effective_metadata(e.metadata);
    crate::metadata::lemma_metadata_map_round_trip(meta);
    if e.common_reason != CommonErrorReason::Unspecified {
        crate::reason::lemma_common_name_round_trip(e.common_reason);
    } else {
        reveal_strlit("common.example.com");
        reveal_strlit("sky.example.com/User");
        assert("common.example.com"@.len() == 18);
        assert("sky.example.com/User"@.len() == 20);
        crate::reason::lemma_user_name_round_trip(e.reason);
    }
}

} // verus!
