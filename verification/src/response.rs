//! The client-visible outcome of a request: a status code, a body, and the
//! few headers the pipeline ever sets. The transport layer only serialises
//! what stands here; `log_message` is for the operational log and is never
//! written to the client.

use vstd::prelude::*;
use crate::database::Link;
use crate::database::LinkV;
use crate::database::links_seq_view;

verus! {

pub const STATUS_OK: u16 = 200;

pub const STATUS_CREATED: u16 = 201;

pub const STATUS_NO_CONTENT: u16 = 204;

pub const STATUS_TEMPORARY_REDIRECT: u16 = 307;

pub const STATUS_BAD_REQUEST: u16 = 400;

pub const STATUS_UNAUTHORIZED: u16 = 401;

pub const STATUS_NOT_FOUND: u16 = 404;

pub const STATUS_METHOD_NOT_ALLOWED: u16 = 405;

pub const STATUS_CONFLICT: u16 = 409;

pub const STATUS_PAYLOAD_TOO_LARGE: u16 = 413;

pub const STATUS_INTERNAL_SERVER_ERROR: u16 = 500;

/// Mathematical view of a response body.
#[verifier::ext_equal]
pub ghost enum BodyV {
    /// The uniform JSON shape `{"success": ..., "message": ...}`.
    Message { success: bool, message: Seq<char> },
    /// A small HTML page.
    Html { content: Seq<char> },
    /// `{"success": true, "data": <link>}`.
    LinkData { link: LinkV },
    /// `{"success": true, "data": [<links>]}`.
    LinkList { links: Seq<LinkV> },
    /// Raw bytes of a bundled UI file.
    Asset { content: Seq<u8> },
    /// No body at all.
    Empty,
}

/// Mathematical view of a whole response.
#[verifier::ext_equal]
pub ghost struct RespV {
    pub status: int,
    pub body: BodyV,
    pub www_authenticate: Option<Seq<char>>,
    pub location: Option<Seq<char>>,
    pub content_type: Option<Seq<char>>,
    pub log: Option<Seq<char>>,
}

/// A response body, before serialisation.
pub enum ResponseBody {
    Message { success: bool, message: String },
    Html { content: String },
    LinkData { link: Link },
    LinkList { links: Vec<Link> },
    Asset { content: Vec<u8> },
    Empty,
}

impl View for ResponseBody {
    type V = BodyV;

    open spec fn view(&self) -> BodyV {
        match self {
            ResponseBody::Message { success, message } => BodyV::Message {
                success: *success,
                message: message@,
            },
            ResponseBody::Html { content } => BodyV::Html { content: content@ },
            ResponseBody::LinkData { link } => BodyV::LinkData { link: link@ },
            ResponseBody::LinkList { links } => BodyV::LinkList { links: links_seq_view(links@) },
            ResponseBody::Asset { content } => BodyV::Asset { content: content@ },
            ResponseBody::Empty => BodyV::Empty,
        }
    }
}

/// A response as the pipeline hands it to the transport layer.
pub struct HttpResponse {
    pub status: u16,
    pub body: ResponseBody,
    pub www_authenticate: Option<String>,
    pub location: Option<String>,
    pub content_type: Option<String>,
    pub log_message: Option<String>,
}

impl View for HttpResponse {
    type V = RespV;

    open spec fn view(&self) -> RespV {
        RespV {
            status: self.status as int,
            body: self.body@,
            www_authenticate: match self.www_authenticate {
                Some(h) => Some(h@),
                None => None,
            },
            location: match self.location {
                Some(l) => Some(l@),
                None => None,
            },
            content_type: match self.content_type {
                Some(c) => Some(c@),
                None => None,
            },
            log: match self.log_message {
                Some(l) => Some(l@),
                None => None,
            },
        }
    }
}

} // verus!
