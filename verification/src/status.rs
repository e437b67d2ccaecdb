//! The transport status model.
//!
//! A status carries a code, a human-readable message, and an ordered list of
//! typed detail records. Each record names a reason, a domain, and a
//! string-keyed metadata map, and travels in a typed-any envelope on the
//! wire. The JSON rendering is fixed here, down to the escaping.

use vstd::prelude::*;
use vstd::string::StringExecFns;
use crate::render::{escape_seq, escape_str, map_render, pairs_view, render_map};

verus! {

/// A transport status code.
#[derive(Clone, Copy, Debug, PartialEq, Eq, Structural)]
pub enum Code {
    Okay,
    Cancelled,
    Unknown,
    InvalidArgument,
    DeadlineExceeded,
    NotFound,
    AlreadyExists,
    PermissionDenied,
    ResourceExhausted,
    FailedPrecondition,
    Aborted,
    OutOfRange,
    Unimplemented,
    Internal,
    Unavailable,
    DataLoss,
    Unauthenticated,
}

impl Code {
    /// The wire name of each status code.
    pub open spec fn name_seq(self) -> Seq<char> {
        match self {
            Code::Okay => "OK"@,
            Code::Cancelled => "CANCELLED"@,
            Code::Unknown => "UNKNOWN"@,
            Code::InvalidArgument => "INVALID_ARGUMENT"@,
            Code::DeadlineExceeded => "DEADLINE_EXCEEDED"@,
            Code::NotFound => "NOT_FOUND"@,
            Code::AlreadyExists => "ALREADY_EXISTS"@,
            Code::PermissionDenied => "PERMISSION_DENIED"@,
            Code::ResourceExhausted => "RESOURCE_EXHAUSTED"@,
            Code::FailedPrecondition => "FAILED_PRECONDITION"@,
            Code::Aborted => "ABORTED"@,
            Code::OutOfRange => "OUT_OF_RANGE"@,
            Code::Unimplemented => "UNIMPLEMENTED"@,
            Code::Internal => "INTERNAL"@,
            Code::Unavailable => "UNAVAILABLE"@,
            Code::DataLoss => "DATA_LOSS"@,
            Code::Unauthenticated => "UNAUTHENTICATED"@,
        }
    }

    /// Renders the code's wire name.
    pub fn as_str_name(&self) -> (r: &'static str)
        ensures
            r@ == self.name_seq(),
    {
        match self {
            Code::Okay => "OK",
            Code::Cancelled => "CANCELLED",
            Code::Unknown => "UNKNOWN",
            Code::InvalidArgument => "INVALID_ARGUMENT",
            Code::DeadlineExceeded => "DEADLINE_EXCEEDED",
            Code::NotFound => "NOT_FOUND",
            Code::AlreadyExists => "ALREADY_EXISTS",
            Code::PermissionDenied => "PERMISSION_DENIED",
            Code::ResourceExhausted => "RESOURCE_EXHAUSTED",
            Code::FailedPrecondition => "FAILED_PRECONDITION",
            Code::Aborted => "ABORTED",
            Code::OutOfRange => "OUT_OF_RANGE",
            Code::Unimplemented => "UNIMPLEMENTED",
            Code::Internal => "INTERNAL",
            Code::Unavailable => "UNAVAILABLE",
            Code::DataLoss => "DATA_LOSS",
            Code::Unauthenticated => "UNAUTHENTICATED",
        }
    }
}

/// One typed detail record: a reason name, a domain string, and metadata.
#[derive(Debug)]
pub struct ErrorInfo {
    pub reason: String,
    pub domain: String,
    pub metadata: Vec<(String, String)>,
}

/// The mathematical value of a detail record.
pub ghost struct ErrorInfoView {
    pub reason: Seq<char>,
    pub domain: Seq<char>,
    pub metadata: Seq<(Seq<char>, Seq<char>)>,
}

impl View for ErrorInfo {
    type V = ErrorInfoView;

    open spec fn view(&self) -> ErrorInfoView {
        ErrorInfoView {
            reason: self.reason@,
            domain: self.domain@,
            metadata: pairs_view(self.metadata@),
        }
    }
}

impl ErrorInfoView {
    /// The JSON rendering of one detail record, in its typed-any envelope.
    /// The metadata map is omitted when empty.
    pub open spec fn json_seq(self) -> Seq<char> {
        "{\"@type\": \"type.googleapis.com/google.rpc.ErrorInfo\", \"reason\": \""@
            + escape_seq(self.reason) + "\", \"domain\": \""@ + escape_seq(self.domain) + "\""@
            + (if self.metadata.len() == 0 {
                Seq::<char>::empty()
            } else {
                ", \"metadata\": "@ + map_render(self.metadata)
            }) + "}"@
    }
}

impl ErrorInfo {
    /// Renders this detail record as JSON.
    pub fn to_json_string(&self) -> (r: String)
        ensures
            r@ == self@.json_seq(),
    {
        let mut out =
            "{\"@type\": \"type.googleapis.com/google.rpc.ErrorInfo\", \"reason\": \"".to_owned();
        let reason = escape_str(self.reason.as_str());
        out.append(reason.as_str());
        out.append("\", \"domain\": \"");
        let domain = escape_str(self.domain.as_str());
        out.append(domain.as_str());
        out.append("\"");
        if self.metadata.len() > 0 {
            out.append(", \"metadata\": ");
            let map = render_map(&self.metadata);
            out.append(map.as_str());
        }
        out.append("}");
        out
    }
}

/// The JSON renderings of the detail records, in order, comma-separated.
pub open spec fn details_json_seq(ds: Seq<ErrorInfoView>) -> Seq<char>
    decreases ds.len(),
{
    if ds.len() == 0 {
        Seq::empty()
    } else if ds.len() == 1 {
        ds[0].json_seq()
    } else {
        ds[0].json_seq() + ", "@ + details_json_seq(ds.skip(1))
    }
}

/// Rendering one more detail record appends it, with a separator when due.
pub proof fn lemma_details_json_push(ds: Seq<ErrorInfoView>, d: ErrorInfoView)
    ensures
        details_json_seq(ds.push(d)) == if ds.len() == 0 {
            d.json_seq()
        } else {
            details_json_seq(ds) + ", "@ + d.json_seq()
        },
    decreases ds.len(),
{
    if ds.len() == 0 {
        assert(ds.push(d)[0] == d);
        assert(details_json_seq(ds.push(d)) == d.json_seq());
    } else {
        assert(ds.push(d).skip(1) =~= ds.skip(1).push(d));
        lemma_details_json_push(ds.skip(1), d);
        if ds.len() == 1 {
            assert(details_json_seq(ds.push(d)) =~= details_json_seq(ds) + ", "@ + d.json_seq());
        } else {
            assert(details_json_seq(ds.push(d)) =~= details_json_seq(ds) + ", "@ + d.json_seq());
        }
    }
}

/// A transport status object.
#[derive(Debug)]
pub struct Status {
    pub code: Code,
    pub message: String,
    pub details: Vec<ErrorInfo>,
}

/// The mathematical value of a status object.
pub ghost struct StatusView {
    pub code: Code,
    pub message: Seq<char>,
    pub details: Seq<ErrorInfoView>,
}

impl View for Status {
    type V = StatusView;

    open spec fn view(&self) -> StatusView {
        StatusView {
            code: self.code,
            message: self.message@,
            details: self.details@.map_values(|d: ErrorInfo| d@),
        }
    }
}

impl StatusView {
    /// The JSON rendering of a whole status object.
    pub open spec fn json_seq(self) -> Seq<char> {
        "{\"code\": \""@ + self.code.name_seq() + "\", \"message\": \""@ + escape_seq(
            self.message,
        ) + "\", \"details\": ["@ + details_json_seq(self.details) + "]}"@
    }
}

impl Status {
    /// Builds a status from its parts.
    pub fn new(code: Code, message: String, details: Vec<ErrorInfo>) -> (r: Status)
        ensures
            r@ == (StatusView {
                code: code,
                message: message@,
                details: details@.map_values(|d: ErrorInfo| d@),
            }),
    {
        Status { code, message, details }
    }

    /// Renders this status as JSON: code and message always present, then
    /// the ordered detail records.
    pub fn to_json_string(&self) -> (r: String)
        ensures
            r@ == self@.json_seq(),
    {
        let ghost all = self@.details;
        let mut out = "{\"code\": \"".to_owned();
        out.append(self.code.as_str_name());
        out.append("\", \"message\": \"");
        let message = escape_str(self.message.as_str());
        out.append(message.as_str());
        out.append("\", \"details\": [");
        let mut i: usize = 0;
        while i < self.details.len()
            invariant
                i <= self.details.len(),
                all == self@.details,
                all.len() == self.details@.len(),
                forall|j: int| 0 <= j < all.len() ==> all[j] == self.details@[j]@,
                out@ == "{\"code\": \""@ + self@.code.name_seq() + "\", \"message\": \""@
                    + escape_seq(self@.message) + "\", \"details\": ["@ + details_json_seq(
                    all.take(i as int),
                ),
            decreases self.details.len() - i,
        {
            if i > 0 {
                out.append(", ");
            }
            let detail = self.details[i].to_json_string();
            out.append(detail.as_str());
            proof {
                lemma_details_json_push(all.take(i as int), all[i as int]);
                assert(all.take(i as int).push(all[i as int]) =~= all.take(i as int + 1));
            }
            i = i + 1;
        }
        proof {
            assert(all.take(self.details@.len() as int) =~= all);
        }
        out.append("]}");
        out
    }
}

} // verus!
