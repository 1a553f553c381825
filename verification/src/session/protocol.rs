//! The binary protocol of a live session. Each frame is one binary message
//! whose first byte tells its kind.

use vstd::prelude::*;
use vstd::utf8::{decode_utf8, valid_utf8};

use crate::bytes::{
    be_u32, push_all, push_range, read_u32_be, slice_range, u32_be, write_u32_be,
};
use crate::console::{MessageType, MsgFrag, MsgFragView};
use crate::data::sources::SourceMetaItem;
use crate::fetcher::{FetchMsg, FetchMsgView, FetchTime};
use crate::text::{copy_bytes, copy_str, str_eq, string_from_utf8};

verus! {

/// Largest frame that is accepted from a client or sent to one, in bytes.
pub const MAX_MSG_SIZE: usize = 16384;

/// Largest encoded response, in bytes.
pub const MAX_MSG_BUF_SIZE: usize = 1048576;

/// Largest slice of an encoded response that one frame carries.
pub const MAX_CHUNK_PAYLOAD: usize = 16368;

pub type RequestId = u32;

pub const MSG_TYPE_CLIENT_REQ: u8 = 0xc0;

pub const MSG_TYPE_SERVER_RES: u8 = 0xc8;

pub const MSG_TYPE_SERVER_RES_CONT: u8 = 0xc9;

pub const MSG_TYPE_SERVER_ERR_RES: u8 = 0xcc;

pub const MSG_TYPE_SERVER_EVENT: u8 = 0xb8;

/// The requests a client can make, by name.
#[derive(Clone, Copy, Debug, PartialEq, Eq, Structural)]
pub enum RequestName {
    UserClientKey,
    UserSecretKey,
    UserSources,
    UserTokens,
    UserDomains,
    PublicDomains,
    UserRssAuthKeys,
    UserRegenClientKey,
    UserEnumerateObjects,
    UserChangeName,
    UserChangePassword,
    UserChangeSecretKey,
    UserDelete,
    Source,
    SourceItem,
    SourceItemData,
    SourceUserData,
    SourceItemUserData,
    UserSubscribeSource,
    UserUnsubscribeSource,
    UserDeleteSource,
    UserRequestSource,
    UserRequestSourceItem,
    SetSourceUserData,
    SetSourceItemUserData,
    UserCreateDomain,
    UserUpdateDomain,
    UserDeleteDomain,
    Domain,
    DomainScript,
    UserSubscribeDomain,
    UserUnsubscribeDomain,
    UserCreateRssAuthKey,
    UserDeleteRssAuthKey,
}

impl RequestName {
    /// A request without a payload: its frame ends after the name.
    pub open spec fn is_simple(self) -> bool {
        self is UserClientKey || self is UserSecretKey || self is UserSources
            || self is UserTokens || self is UserDomains || self is PublicDomains
            || self is UserRssAuthKeys || self is UserRegenClientKey
            || self is UserEnumerateObjects
    }

    /// Whether requests of this name come without a payload.
    pub fn has_no_payload(self) -> (simple: bool)
        ensures
            simple == self.is_simple(),
    {
        match self {
            RequestName::UserClientKey
            | RequestName::UserSecretKey
            | RequestName::UserSources
            | RequestName::UserTokens
            | RequestName::UserDomains
            | RequestName::PublicDomains
            | RequestName::UserRssAuthKeys
            | RequestName::UserRegenClientKey
            | RequestName::UserEnumerateObjects => true,
            _ => false,
        }
    }
}

/// The request that goes by `name` on the wire, if there is one.
pub open spec fn request_name_of(name: Seq<char>) -> Option<RequestName> {
    if name == "user_client_key"@ {
        Some(RequestName::UserClientKey)
    } else if name == "user_secret_key"@ {
        Some(RequestName::UserSecretKey)
    } else if name == "user_sources"@ {
        Some(RequestName::UserSources)
    } else if name == "user_tokens"@ {
        Some(RequestName::UserTokens)
    } else if name == "user_domains"@ {
        Some(RequestName::UserDomains)
    } else if name == "public_domains"@ {
        Some(RequestName::PublicDomains)
    } else if name == "user_rss_auth_keys"@ {
        Some(RequestName::UserRssAuthKeys)
    } else if name == "user_regen_client_key"@ {
        Some(RequestName::UserRegenClientKey)
    } else if name == "user_enumerate_objects"@ {
        Some(RequestName::UserEnumerateObjects)
    } else if name == "user_change_name"@ {
        Some(RequestName::UserChangeName)
    } else if name == "user_change_password"@ {
        Some(RequestName::UserChangePassword)
    } else if name == "user_change_secret_key"@ {
        Some(RequestName::UserChangeSecretKey)
    } else if name == "user_delete"@ {
        Some(RequestName::UserDelete)
    } else if name == "source"@ {
        Some(RequestName::Source)
    } else if name == "source_item"@ {
        Some(RequestName::SourceItem)
    } else if name == "source_item_data"@ {
        Some(RequestName::SourceItemData)
    } else if name == "source_user_data"@ {
        Some(RequestName::SourceUserData)
    } else if name == "source_item_user_data"@ {
        Some(RequestName::SourceItemUserData)
    } else if name == "user_subscribe_source"@ {
        Some(RequestName::UserSubscribeSource)
    } else if name == "user_unsubscribe_source"@ {
        Some(RequestName::UserUnsubscribeSource)
    } else if name == "user_delete_source"@ {
        Some(RequestName::UserDeleteSource)
    } else if name == "user_request_source"@ {
        Some(RequestName::UserRequestSource)
    } else if name == "user_request_source_item"@ {
        Some(RequestName::UserRequestSourceItem)
    } else if name == "set_source_user_data"@ {
        Some(RequestName::SetSourceUserData)
    } else if name == "set_source_item_user_data"@ {
        Some(RequestName::SetSourceItemUserData)
    } else if name == "user_create_domain"@ {
        Some(RequestName::UserCreateDomain)
    } else if name == "user_update_domain"@ {
        Some(RequestName::UserUpdateDomain)
    } else if name == "user_delete_domain"@ {
        Some(RequestName::UserDeleteDomain)
    } else if name == "domain"@ {
        Some(RequestName::Domain)
    } else if name == "domain_script"@ {
        Some(RequestName::DomainScript)
    } else if name == "user_subscribe_domain"@ {
        Some(RequestName::UserSubscribeDomain)
    } else if name == "user_unsubscribe_domain"@ {
        Some(RequestName::UserUnsubscribeDomain)
    } else if name == "user_create_rss_auth_key"@ {
        Some(RequestName::UserCreateRssAuthKey)
    } else if name == "user_delete_rss_auth_key"@ {
        Some(RequestName::UserDeleteRssAuthKey)
    } else {
        None
    }
}

/// Looks a request up by its name on the wire.
pub fn request_name(name: &str) -> (found: Option<RequestName>)
    ensures
        found == request_name_of(name@),
{
    if str_eq(name, "user_client_key") {
        Some(RequestName::UserClientKey)
    } else if str_eq(name, "user_secret_key") {
        Some(RequestName::UserSecretKey)
    } else if str_eq(name, "user_sources") {
        Some(RequestName::UserSources)
    } else if str_eq(name, "user_tokens") {
        Some(RequestName::UserTokens)
    } else if str_eq(name, "user_domains") {
        Some(RequestName::UserDomains)
    } else if str_eq(name, "public_domains") {
        Some(RequestName::PublicDomains)
    } else if str_eq(name, "user_rss_auth_keys") {
        Some(RequestName::UserRssAuthKeys)
    } else if str_eq(name, "user_regen_client_key") {
        Some(RequestName::UserRegenClientKey)
    } else if str_eq(name, "user_enumerate_objects") {
        Some(RequestName::UserEnumerateObjects)
    } else if str_eq(name, "user_change_name") {
        Some(RequestName::UserChangeName)
    } else if str_eq(name, "user_change_password") {
        Some(RequestName::UserChangePassword)
    } else if str_eq(name, "user_change_secret_key") {
        Some(RequestName::UserChangeSecretKey)
    } else if str_eq(name, "user_delete") {
        Some(RequestName::UserDelete)
    } else if str_eq(name, "source") {
        Some(RequestName::Source)
    } else if str_eq(name, "source_item") {
        Some(RequestName::SourceItem)
    } else if str_eq(name, "source_item_data") {
        Some(RequestName::SourceItemData)
    } else if str_eq(name, "source_user_data") {
        Some(RequestName::SourceUserData)
    } else if str_eq(name, "source_item_user_data") {
        Some(RequestName::SourceItemUserData)
    } else if str_eq(name, "user_subscribe_source") {
        Some(RequestName::UserSubscribeSource)
    } else if str_eq(name, "user_unsubscribe_source") {
        Some(RequestName::UserUnsubscribeSource)
    } else if str_eq(name, "user_delete_source") {
        Some(RequestName::UserDeleteSource)
    } else if str_eq(name, "user_request_source") {
        Some(RequestName::UserRequestSource)
    } else if str_eq(name, "user_request_source_item") {
        Some(RequestName::UserRequestSourceItem)
    } else if str_eq(name, "set_source_user_data") {
        Some(RequestName::SetSourceUserData)
    } else if str_eq(name, "set_source_item_user_data") {
        Some(RequestName::SetSourceItemUserData)
    } else if str_eq(name, "user_create_domain") {
        Some(RequestName::UserCreateDomain)
    } else if str_eq(name, "user_update_domain") {
        Some(RequestName::UserUpdateDomain)
    } else if str_eq(name, "user_delete_domain") {
        Some(RequestName::UserDeleteDomain)
    } else if str_eq(name, "domain") {
        Some(RequestName::Domain)
    } else if str_eq(name, "domain_script") {
        Some(RequestName::DomainScript)
    } else if str_eq(name, "user_subscribe_domain") {
        Some(RequestName::UserSubscribeDomain)
    } else if str_eq(name, "user_unsubscribe_domain") {
        Some(RequestName::UserUnsubscribeDomain)
    } else if str_eq(name, "user_create_rss_auth_key") {
        Some(RequestName::UserCreateRssAuthKey)
    } else if str_eq(name, "user_delete_rss_auth_key") {
        Some(RequestName::UserDeleteRssAuthKey)
    } else {
        None
    }
}

/// Why a request's name or payload was not accepted.
#[derive(Debug)]
pub enum ReqDeserError {
    /// No request goes by this name.
    UnknownName(String),
    /// The payload does not decode to the fields of the request.
    Decode,
}

/// Why a client's frame was not accepted.
#[derive(Debug)]
pub enum MsgParseError {
    /// The first byte is not that of a client request.
    UnknownType(u8),
    /// The name of the request is not UTF-8.
    NameUtf8,
    /// The frame ends before its header does.
    Io,
    ReqDeser(ReqDeserError),
    /// Bytes follow the payload.
    TrailingBytes,
}

/// A client request as it stands in a frame: its name and the bytes of its
/// payload, not yet decoded.
#[derive(Debug, Clone)]
pub struct RequestFrame {
    pub name: RequestName,
    pub payload: Vec<u8>,
}

/// A message from a client.
#[derive(Debug, Clone)]
pub enum ClientMsg {
    Request(RequestId, RequestFrame),
}

/// What a frame holds, as `frame_parts` reads it.
pub enum FrameParts {
    /// A request with its id, name and payload.
    Request(u32, RequestName, Seq<u8>),
    UnknownType(u8),
    NameUtf8,
    Io,
    /// The bytes of a name that no request goes by.
    UnknownName(Seq<char>),
}

/// Length of a request frame's header up to the name: type, id and name length.
pub const REQ_HEADER_LEN: usize = 6;

/// Reads a frame: one byte for the type, the id as four bytes with the most
/// significant first, one byte for the length of the name, the name, and the
/// payload in what is left.
pub open spec fn frame_parts(msg: Seq<u8>) -> FrameParts {
    if msg.len() < 1 {
        FrameParts::Io
    } else if msg[0] != MSG_TYPE_CLIENT_REQ {
        FrameParts::UnknownType(msg[0])
    } else if msg.len() < REQ_HEADER_LEN || msg.len() < REQ_HEADER_LEN + msg[5] {
        FrameParts::Io
    } else {
        let name_bytes = msg.subrange(REQ_HEADER_LEN as int, REQ_HEADER_LEN + msg[5]);
        if !valid_utf8(name_bytes) {
            FrameParts::NameUtf8
        } else {
            match request_name_of(decode_utf8(name_bytes)) {
                Some(name) => FrameParts::Request(
                    be_u32(msg.subrange(1, 5)),
                    name,
                    msg.skip(REQ_HEADER_LEN + msg[5]),
                ),
                None => FrameParts::UnknownName(decode_utf8(name_bytes)),
            }
        }
    }
}

/// What `parse_message` returns on a frame that holds `parts`.
pub open spec fn parsed_as(res: Result<ClientMsg, MsgParseError>, parts: FrameParts) -> bool {
    match parts {
        FrameParts::Request(id, name, payload) => res matches Ok(ClientMsg::Request(i, frame))
            && i == id && frame.name == name && frame.payload@ == payload,
        FrameParts::UnknownType(t) => res matches Err(MsgParseError::UnknownType(u)) && u == t,
        FrameParts::NameUtf8 => res matches Err(MsgParseError::NameUtf8),
        FrameParts::Io => res matches Err(MsgParseError::Io),
        FrameParts::UnknownName(name) => res matches Err(
            MsgParseError::ReqDeser(ReqDeserError::UnknownName(n)),
        ) && n@ == name,
    }
}

/// Parses a message from the client up to its payload.
pub fn parse_message(msg: &[u8]) -> (res: Result<ClientMsg, MsgParseError>)
    ensures
        parsed_as(res, frame_parts(msg@)),
{
    if msg.len() < 1 {
        return Err(MsgParseError::Io);
    }
    let msg_type = msg[0];
    if msg_type == MSG_TYPE_CLIENT_REQ {
        parse_client_req(msg)
    } else {
        Err(MsgParseError::UnknownType(msg_type))
    }
}

/// Parses a client request.
fn parse_client_req(msg: &[u8]) -> (res: Result<ClientMsg, MsgParseError>)
    requires
        msg@.len() >= 1,
        msg@[0] == MSG_TYPE_CLIENT_REQ,
    ensures
        parsed_as(res, frame_parts(msg@)),
{
    if msg.len() < REQ_HEADER_LEN {
        return Err(MsgParseError::Io);
    }
    let id_bytes = slice_range(msg, 1, 5);
    let req_id = read_u32_be(id_bytes);
    let name_len = msg[5] as usize;
    if msg.len() < REQ_HEADER_LEN + name_len {
        return Err(MsgParseError::Io);
    }
    let name_end = REQ_HEADER_LEN + name_len;
    let name_buf = copy_bytes(slice_range(msg, REQ_HEADER_LEN, name_end));
    let name = match string_from_utf8(name_buf) {
        Some(name) => name,
        None => {
            return Err(MsgParseError::NameUtf8);
        },
    };
    match request_name(name.as_str()) {
        Some(req_name) => {
            let payload = copy_bytes(slice_range(msg, name_end, msg.len()));
            assert(msg@.subrange(name_end as int, msg@.len() as int) =~= msg@.skip(
                name_end as int,
            ));
            Ok(ClientMsg::Request(req_id, RequestFrame { name: req_name, payload }))
        },
        None => Err(MsgParseError::ReqDeser(ReqDeserError::UnknownName(name))),
    }
}



/// Why a response or an event could not be written.
#[derive(Debug)]
pub enum WriteError {
    /// The payload could not be encoded.
    Encode,
    /// The encoded payload is longer than `MAX_MSG_BUF_SIZE`.
    TooLarge,
}

/// An encoded response on its way to the client, in one frame or several.
pub struct EncodedResponse {
    id: RequestId,
    data: Vec<u8>,
    position: usize,
}

/// Where the slice that starts at `pos` ends: after `MAX_CHUNK_PAYLOAD` bytes,
/// or at the end of the data if that comes first.
pub open spec fn chunk_end(len: int, pos: int) -> int {
    if len - pos <= MAX_CHUNK_PAYLOAD {
        len
    } else {
        pos + MAX_CHUNK_PAYLOAD
    }
}

/// The bytes before the payload slice of a response frame: the first frame
/// tells the id and the length of the whole response, each later one the id.
pub open spec fn chunk_header(id: u32, len: int, pos: int) -> Seq<u8> {
    if pos == 0 {
        seq![MSG_TYPE_SERVER_RES] + u32_be(id) + u32_be(len as u32)
    } else {
        seq![MSG_TYPE_SERVER_RES_CONT] + u32_be(id)
    }
}

/// The slice of `data` that the frame written at `pos` carries.
pub open spec fn chunk_payload(data: Seq<u8>, pos: int) -> Seq<u8> {
    data.subrange(pos, chunk_end(data.len() as int, pos))
}

/// The frame written for a response to request `id` when `pos` bytes of it
/// have been sent.
pub open spec fn chunk_frame(id: u32, data: Seq<u8>, pos: int) -> Seq<u8> {
    chunk_header(id, data.len() as int, pos) + chunk_payload(data, pos)
}

/// The frames that deliver what is left of a response from `pos` on, in the
/// order in which they are sent.
pub open spec fn chunk_frames(id: u32, data: Seq<u8>, pos: int) -> Seq<Seq<u8>>
    recommends
        0 <= pos <= data.len(),
    decreases data.len() - pos,
{
    if 0 <= pos <= data.len() && chunk_end(data.len() as int, pos) < data.len() {
        seq![chunk_frame(id, data, pos)] + chunk_frames(
            id,
            data,
            chunk_end(data.len() as int, pos),
        )
    } else {
        seq![chunk_frame(id, data, pos)]
    }
}

/// The payload slices of the frames in `chunk_frames`, one after the other.
pub open spec fn chunk_payloads(data: Seq<u8>, pos: int) -> Seq<u8>
    recommends
        0 <= pos <= data.len(),
    decreases data.len() - pos,
{
    if 0 <= pos <= data.len() && chunk_end(data.len() as int, pos) < data.len() {
        chunk_payload(data, pos) + chunk_payloads(data, chunk_end(data.len() as int, pos))
    } else {
        chunk_payload(data, pos)
    }
}

impl EncodedResponse {
    #[verifier::type_invariant]
    spec fn well_formed(self) -> bool {
        self.position <= self.data@.len() <= MAX_MSG_BUF_SIZE
    }

    /// The id of the request that this answers.
    pub closed spec fn spec_id(&self) -> u32 {
        self.id
    }

    /// The whole encoded response.
    pub closed spec fn data(&self) -> Seq<u8> {
        self.data@
    }

    /// How many bytes of the response have been written.
    pub closed spec fn position(&self) -> int {
        self.position as int
    }

    /// Takes an encoded payload as the response to request `id`, unless it is
    /// longer than `MAX_MSG_BUF_SIZE`.
    pub fn new(id: RequestId, data: Vec<u8>) -> (res: Result<EncodedResponse, WriteError>)
        ensures
            data@.len() > MAX_MSG_BUF_SIZE ==> res matches Err(WriteError::TooLarge),
            data@.len() <= MAX_MSG_BUF_SIZE ==> (res matches Ok(enc) && enc.spec_id() == id
                && enc.data() == data@ && enc.position() == 0),
    {
        if data.len() > MAX_MSG_BUF_SIZE {
            return Err(WriteError::TooLarge);
        }
        Ok(EncodedResponse { id, data, position: 0 })
    }

    #[verifier::when_used_as_spec(spec_id)]
    pub fn id(&self) -> (id: RequestId)
        ensures
            id == self.spec_id(),
    {
        self.id
    }

    /// Whether every byte of the response has been written.
    pub fn is_done(&self) -> (done: bool)
        ensures
            done == (self.position() == self.data().len()),
    {
        proof {
            use_type_invariant(self);
        }
        self.position == self.data.len()
    }

    /// Writes a chunk and returns whether it's done.
    pub fn write_chunk(&mut self, out: &mut Vec<u8>) -> (res: Result<bool, WriteError>)
        ensures
            res == Ok::<bool, WriteError>(
                chunk_end(old(self).data().len() as int, old(self).position()) == old(
                    self,
                ).data().len(),
            ),
            final(out)@ == old(out)@ + chunk_frame(
                old(self).spec_id(),
                old(self).data(),
                old(self).position(),
            ),
            final(self).spec_id() == old(self).spec_id(),
            final(self).data() == old(self).data(),
            final(self).position() == chunk_end(
                old(self).data().len() as int,
                old(self).position(),
            ),
            0 <= old(self).position() <= final(self).position() <= old(self).data().len(),
    {
        proof {
            use_type_invariant(&*self);
        }
        let ghost out0 = out@;
        if self.position == 0 {
            out.push(MSG_TYPE_SERVER_RES);
            let id_bytes = write_u32_be(self.id);
            push_all(out, id_bytes.as_slice());
            let len_bytes = write_u32_be(self.data.len() as u32);
            push_all(out, len_bytes.as_slice());
        } else {
            out.push(MSG_TYPE_SERVER_RES_CONT);
            let id_bytes = write_u32_be(self.id);
            push_all(out, id_bytes.as_slice());
        }
        assert(out@ =~= out0 + chunk_header(self.id, self.data@.len() as int, self.position as int));

        let msg_bytes_left = MAX_CHUNK_PAYLOAD;
        let data_bytes_left = self.data.len() - self.position;

        if data_bytes_left <= msg_bytes_left {
            push_range(out, &self.data, self.position, self.data.len());
            self.position = self.data.len();
            assert(out@ =~= out0 + chunk_frame(
                old(self).spec_id(),
                old(self).data(),
                old(self).position(),
            ));
            Ok(true)
        } else {
            let next_pos = self.position + msg_bytes_left;
            push_range(out, &self.data, self.position, next_pos);
            self.position = next_pos;
            assert(out@ =~= out0 + chunk_frame(
                old(self).spec_id(),
                old(self).data(),
                old(self).position(),
            ));
            Ok(false)
        }
    }

    /// Writes every frame that is left, each as a message of its own.
    pub fn write_all_chunks(&mut self) -> (frames: Vec<Vec<u8>>)
        ensures
            frames_of(frames@) == chunk_frames(
                old(self).spec_id(),
                old(self).data(),
                old(self).position(),
            ),
            final(self).spec_id() == old(self).spec_id(),
            final(self).data() == old(self).data(),
            final(self).position() == old(self).data().len(),
    {
        let mut frames: Vec<Vec<u8>> = Vec::new();
        let ghost id = self.spec_id();
        let ghost data = self.data();
        let ghost start = self.position();
        proof {
            use_type_invariant(&*self);
            assert(frames_of(frames@) + chunk_frames(id, data, start) =~= chunk_frames(
                id,
                data,
                start,
            ));
        }
        loop
            invariant_except_break
                chunk_frames(id, data, start) == frames_of(frames@) + chunk_frames(
                    id,
                    data,
                    self.position(),
                ),
            invariant
                self.spec_id() == id,
                self.data() == data,
                0 <= start <= self.position() <= data.len(),
            ensures
                frames_of(frames@) == chunk_frames(id, data, start),
                self.position() == data.len(),
            decreases data.len() - self.position(),
        {
            let ghost pos = self.position();
            let ghost before = frames_of(frames@);
            let mut frame: Vec<u8> = Vec::new();
            let done = match self.write_chunk(&mut frame) {
                Ok(done) => done,
                Err(_) => true,
            };
            assert(frame@ =~= chunk_frame(id, data, pos));
            frames.push(frame);
            assert(frames_of(frames@) =~= before.push(chunk_frame(id, data, pos)));
            if done {
                assert(chunk_frames(id, data, pos) =~= seq![chunk_frame(id, data, pos)]);
                assert(frames_of(frames@) =~= before + chunk_frames(id, data, pos));
                break;
            }
            assert(chunk_frames(id, data, pos) =~= seq![chunk_frame(id, data, pos)]
                + chunk_frames(id, data, self.position()));
            assert(frames_of(frames@) + chunk_frames(id, data, self.position()) =~= before
                + chunk_frames(id, data, pos));
        }
        frames
    }
}

/// The bytes of each frame in a list of frames.
pub open spec fn frames_of(frames: Seq<Vec<u8>>) -> Seq<Seq<u8>> {
    Seq::new(frames.len(), |i: int| frames[i]@)
}

/// Every frame of a response fits in one message, and carries the id of the
/// request behind its type byte: the first frame has the type of a response,
/// each later one that of a continuation.
pub proof fn lemma_chunk_frames_shape(id: u32, data: Seq<u8>, pos: int, i: int)
    requires
        0 <= pos <= data.len() <= MAX_MSG_BUF_SIZE,
        0 <= i < chunk_frames(id, data, pos).len(),
    ensures
        chunk_frames(id, data, pos)[i].len() <= MAX_MSG_SIZE,
        chunk_frames(id, data, pos)[i].len() >= 5,
        chunk_frames(id, data, pos)[i][0] == if pos == 0 && i == 0 {
            MSG_TYPE_SERVER_RES
        } else {
            MSG_TYPE_SERVER_RES_CONT
        },
        chunk_frames(id, data, pos)[i].subrange(1, 5) == u32_be(id),
    decreases data.len() - pos,
{
    let frames = chunk_frames(id, data, pos);
    let first = chunk_frame(id, data, pos);
    assert(first.subrange(1, 5) =~= u32_be(id));
    if chunk_end(data.len() as int, pos) < data.len() {
        if i > 0 {
            lemma_chunk_frames_shape(id, data, chunk_end(data.len() as int, pos), i - 1);
            assert(frames[i] == chunk_frames(id, data, chunk_end(data.len() as int, pos))[i - 1]);
        }
    }
}

/// The payload slices of the frames of a response, put together in the order
/// in which they are sent, are the response.
pub proof fn lemma_chunks_reassemble(data: Seq<u8>, pos: int)
    requires
        0 <= pos <= data.len(),
    ensures
        chunk_payloads(data, pos) == data.skip(pos),
    decreases data.len() - pos,
{
    let end = chunk_end(data.len() as int, pos);
    if end < data.len() {
        lemma_chunks_reassemble(data, end);
        assert(data.subrange(pos, end) + data.skip(end) =~= data.skip(pos));
    } else {
        assert(data.subrange(pos, end) =~= data.skip(pos));
    }
}

/// A response longer than one frame's payload is sent in two frames or more;
/// a shorter one in a single frame.
pub proof fn lemma_chunk_count(id: u32, data: Seq<u8>)
    ensures
        data.len() > MAX_CHUNK_PAYLOAD ==> chunk_frames(id, data, 0).len() >= 2,
        data.len() <= MAX_CHUNK_PAYLOAD ==> chunk_frames(id, data, 0).len() == 1,
{
    if data.len() > MAX_CHUNK_PAYLOAD {
        let end = chunk_end(data.len() as int, 0);
        assert(chunk_frames(id, data, end).len() >= 1) by {
            reveal_with_fuel(chunk_frames, 1);
        }
    }
}

/// The frame that tells the client that request `id` failed.
pub open spec fn error_frame(id: u32) -> Seq<u8> {
    seq![MSG_TYPE_SERVER_ERR_RES] + u32_be(id)
}

/// Writes the frame of an error response to request `id`.
pub fn write_error_response(id: RequestId, out: &mut Vec<u8>)
    ensures
        final(out)@ == old(out)@ + error_frame(id),
{
    let ghost out0 = out@;
    out.push(MSG_TYPE_SERVER_ERR_RES);
    let id_bytes = write_u32_be(id);
    push_all(out, id_bytes.as_slice());
    assert(out@ =~= out0 + error_frame(id));
}

/// A request of a client, with the fields of its payload.
#[derive(Debug, Clone)]
pub enum Request {
    UserClientKey,
    UserSecretKey,
    UserSources,
    UserTokens,
    UserDomains,
    PublicDomains,
    UserRssAuthKeys,
    UserRegenClientKey,
    UserEnumerateObjects,
    UserChangeName { new_name: String },
    UserChangePassword { password: String, new_password: String },
    UserChangeSecretKey { password: String, new_secret_key: String },
    UserDelete { password: String },
    Source { uri: String },
    SourceItem { uri: String },
    SourceItemData { uri: String },
    SourceUserData { uri: String },
    SourceItemUserData { uri: String },
    UserSubscribeSource { uri: String },
    UserUnsubscribeSource { uri: String },
    UserDeleteSource { uri: String },
    UserRequestSource { uri: String },
    UserRequestSourceItem { uri: String },
    SetSourceUserData { uri: String, data: Vec<u8> },
    SetSourceItemUserData { uri: String, data: Vec<u8> },
    UserCreateDomain { abbrev: String, name: String },
    UserUpdateDomain {
        id: String,
        abbrev: String,
        name: String,
        description: String,
        is_public: bool,
        script: String,
    },
    UserDeleteDomain { id: String },
    Domain { id: String },
    DomainScript { id: String },
    UserSubscribeDomain { id: String },
    UserUnsubscribeDomain { id: String },
    UserCreateRssAuthKey { label: Option<String> },
    UserDeleteRssAuthKey { key: String },
}

impl Request {
    /// The name under which this request goes on the wire.
    pub open spec fn spec_name(&self) -> RequestName {
        match self {
            Request::UserClientKey => RequestName::UserClientKey,
            Request::UserSecretKey => RequestName::UserSecretKey,
            Request::UserSources => RequestName::UserSources,
            Request::UserTokens => RequestName::UserTokens,
            Request::UserDomains => RequestName::UserDomains,
            Request::PublicDomains => RequestName::PublicDomains,
            Request::UserRssAuthKeys => RequestName::UserRssAuthKeys,
            Request::UserRegenClientKey => RequestName::UserRegenClientKey,
            Request::UserEnumerateObjects => RequestName::UserEnumerateObjects,
            Request::UserChangeName { .. } => RequestName::UserChangeName,
            Request::UserChangePassword { .. } => RequestName::UserChangePassword,
            Request::UserChangeSecretKey { .. } => RequestName::UserChangeSecretKey,
            Request::UserDelete { .. } => RequestName::UserDelete,
            Request::Source { .. } => RequestName::Source,
            Request::SourceItem { .. } => RequestName::SourceItem,
            Request::SourceItemData { .. } => RequestName::SourceItemData,
            Request::SourceUserData { .. } => RequestName::SourceUserData,
            Request::SourceItemUserData { .. } => RequestName::SourceItemUserData,
            Request::UserSubscribeSource { .. } => RequestName::UserSubscribeSource,
            Request::UserUnsubscribeSource { .. } => RequestName::UserUnsubscribeSource,
            Request::UserDeleteSource { .. } => RequestName::UserDeleteSource,
            Request::UserRequestSource { .. } => RequestName::UserRequestSource,
            Request::UserRequestSourceItem { .. } => RequestName::UserRequestSourceItem,
            Request::SetSourceUserData { .. } => RequestName::SetSourceUserData,
            Request::SetSourceItemUserData { .. } => RequestName::SetSourceItemUserData,
            Request::UserCreateDomain { .. } => RequestName::UserCreateDomain,
            Request::UserUpdateDomain { .. } => RequestName::UserUpdateDomain,
            Request::UserDeleteDomain { .. } => RequestName::UserDeleteDomain,
            Request::Domain { .. } => RequestName::Domain,
            Request::DomainScript { .. } => RequestName::DomainScript,
            Request::UserSubscribeDomain { .. } => RequestName::UserSubscribeDomain,
            Request::UserUnsubscribeDomain { .. } => RequestName::UserUnsubscribeDomain,
            Request::UserCreateRssAuthKey { .. } => RequestName::UserCreateRssAuthKey,
            Request::UserDeleteRssAuthKey { .. } => RequestName::UserDeleteRssAuthKey,
        }
    }

    #[verifier::when_used_as_spec(spec_name)]
    pub fn name(&self) -> (name: RequestName)
        ensures
            name == self.spec_name(),
    {
        match self {
            Request::UserClientKey => RequestName::UserClientKey,
            Request::UserSecretKey => RequestName::UserSecretKey,
            Request::UserSources => RequestName::UserSources,
            Request::UserTokens => RequestName::UserTokens,
            Request::UserDomains => RequestName::UserDomains,
            Request::PublicDomains => RequestName::PublicDomains,
            Request::UserRssAuthKeys => RequestName::UserRssAuthKeys,
            Request::UserRegenClientKey => RequestName::UserRegenClientKey,
            Request::UserEnumerateObjects => RequestName::UserEnumerateObjects,
            Request::UserChangeName { .. } => RequestName::UserChangeName,
            Request::UserChangePassword { .. } => RequestName::UserChangePassword,
            Request::UserChangeSecretKey { .. } => RequestName::UserChangeSecretKey,
            Request::UserDelete { .. } => RequestName::UserDelete,
            Request::Source { .. } => RequestName::Source,
            Request::SourceItem { .. } => RequestName::SourceItem,
            Request::SourceItemData { .. } => RequestName::SourceItemData,
            Request::SourceUserData { .. } => RequestName::SourceUserData,
            Request::SourceItemUserData { .. } => RequestName::SourceItemUserData,
            Request::UserSubscribeSource { .. } => RequestName::UserSubscribeSource,
            Request::UserUnsubscribeSource { .. } => RequestName::UserUnsubscribeSource,
            Request::UserDeleteSource { .. } => RequestName::UserDeleteSource,
            Request::UserRequestSource { .. } => RequestName::UserRequestSource,
            Request::UserRequestSourceItem { .. } => RequestName::UserRequestSourceItem,
            Request::SetSourceUserData { .. } => RequestName::SetSourceUserData,
            Request::SetSourceItemUserData { .. } => RequestName::SetSourceItemUserData,
            Request::UserCreateDomain { .. } => RequestName::UserCreateDomain,
            Request::UserUpdateDomain { .. } => RequestName::UserUpdateDomain,
            Request::UserDeleteDomain { .. } => RequestName::UserDeleteDomain,
            Request::Domain { .. } => RequestName::Domain,
            Request::DomainScript { .. } => RequestName::DomainScript,
            Request::UserSubscribeDomain { .. } => RequestName::UserSubscribeDomain,
            Request::UserUnsubscribeDomain { .. } => RequestName::UserUnsubscribeDomain,
            Request::UserCreateRssAuthKey { .. } => RequestName::UserCreateRssAuthKey,
            Request::UserDeleteRssAuthKey { .. } => RequestName::UserDeleteRssAuthKey,
        }
    }
}

/// The request without a payload that goes by `name`.
pub open spec fn simple_request(name: RequestName) -> Option<Request> {
    match name {
        RequestName::UserClientKey => Some(Request::UserClientKey),
        RequestName::UserSecretKey => Some(Request::UserSecretKey),
        RequestName::UserSources => Some(Request::UserSources),
        RequestName::UserTokens => Some(Request::UserTokens),
        RequestName::UserDomains => Some(Request::UserDomains),
        RequestName::PublicDomains => Some(Request::PublicDomains),
        RequestName::UserRssAuthKeys => Some(Request::UserRssAuthKeys),
        RequestName::UserRegenClientKey => Some(Request::UserRegenClientKey),
        RequestName::UserEnumerateObjects => Some(Request::UserEnumerateObjects),
        _ => None,
    }
}

impl RequestFrame {
    /// Reads a request that has no payload. Returns nothing for a request
    /// whose payload has yet to be decoded. Bytes behind the name of a request
    /// without a payload are trailing bytes.
    pub fn decode_simple(&self) -> (res: Option<Result<Request, MsgParseError>>)
        ensures
            res is Some <==> self.name.is_simple(),
            res matches Some(Ok(req)) ==> self.payload@.len() == 0 && Some(req)
                == simple_request(self.name),
            res matches Some(Err(e)) ==> self.payload@.len() > 0 && e is TrailingBytes,
    {
        let req = match self.name {
            RequestName::UserClientKey => Request::UserClientKey,
            RequestName::UserSecretKey => Request::UserSecretKey,
            RequestName::UserSources => Request::UserSources,
            RequestName::UserTokens => Request::UserTokens,
            RequestName::UserDomains => Request::UserDomains,
            RequestName::PublicDomains => Request::PublicDomains,
            RequestName::UserRssAuthKeys => Request::UserRssAuthKeys,
            RequestName::UserRegenClientKey => Request::UserRegenClientKey,
            RequestName::UserEnumerateObjects => Request::UserEnumerateObjects,
            _ => {
                return None;
            },
        };
        if self.payload.len() > 0 {
            Some(Err(MsgParseError::TrailingBytes))
        } else {
            Some(Ok(req))
        }
    }

    /// Accepts the request that a payload was decoded to. `decoded` is the
    /// request with the number of bytes of the payload that it was read from,
    /// or nothing where the payload did not decode. A request of another name
    /// than the frame's counts as not decoded; bytes behind the request are
    /// trailing bytes.
    pub fn finish(&self, decoded: Option<(Request, usize)>) -> (res: Result<
        Request,
        MsgParseError,
    >)
        ensures
            match decoded {
                Some((req, consumed)) => if req.spec_name() != self.name {
                    res matches Err(MsgParseError::ReqDeser(ReqDeserError::Decode))
                } else if consumed < self.payload@.len() {
                    res matches Err(MsgParseError::TrailingBytes)
                } else {
                    res == Ok::<Request, MsgParseError>(req)
                },
                None => res matches Err(MsgParseError::ReqDeser(ReqDeserError::Decode)),
            },
    {
        match decoded {
            Some((req, consumed)) => {
                if req.name() != self.name {
                    Err(MsgParseError::ReqDeser(ReqDeserError::Decode))
                } else if consumed < self.payload.len() {
                    Err(MsgParseError::TrailingBytes)
                } else {
                    Ok(req)
                }
            },
            None => Err(MsgParseError::ReqDeser(ReqDeserError::Decode)),
        }
    }
}

/// A response with `success`: `bool` or an error.
#[derive(Debug)]
pub enum SimpleResult {
    Success,
    Failure { error: &'static str },
}

#[derive(Debug)]
pub struct ResponseDomain {
    pub abbrev: String,
    pub name: String,
    pub description: String,
    pub is_public: bool,
    pub editable: bool,
}

#[derive(Debug)]
pub struct DomainScriptResult {
    pub success: bool,
    pub script: Option<String>,
    pub error: Option<&'static str>,
}

/// The tags of a source item, encoded.
pub type ResponseSourceItem = Vec<u8>;

#[derive(Debug)]
pub struct SourceItemResult {
    pub loaded: bool,
    pub data: Option<SourceItemResultData>,
}

#[derive(Debug)]
pub struct SourceItemResultData {
    pub last_fetched: String,
    pub last_updated: Option<String>,
}

#[derive(Debug)]
pub struct SourceResult {
    pub loaded: bool,
    pub data: Option<SourceResultData>,
}

#[derive(Debug)]
pub struct SourceResultData {
    pub last_fetched: String,
    pub last_updated: Option<String>,
    /// The tags of the source, encoded.
    pub data: Vec<u8>,
    pub items: Vec<SourceMetaItem>,
}

#[derive(Debug)]
pub struct ResponseRssAuthKey {
    pub label: Option<String>,
    pub key: String,
}

#[derive(Debug)]
pub struct UserCreateRssAuthKeyResult {
    pub success: bool,
    pub key: String,
    pub error: &'static str,
}

#[derive(Debug)]
pub struct UserCreateDomainResult {
    pub success: bool,
    pub id: String,
    pub error: &'static str,
}

/// The answer to a request.
#[derive(Debug)]
pub enum Response {
    UserClientKey(Vec<u8>),
    UserSecretKey(String),
    UserSources(Vec<String>),
    UserTokens(u16),
    UserChangeName(SimpleResult),
    UserChangePassword(SimpleResult),
    UserChangeSecretKey(SimpleResult),
    UserDelete(SimpleResult),
    UserRegenClientKey(()),
    UserDomains(Vec<String>),
    PublicDomains(Vec<String>),
    Domain(Option<ResponseDomain>),
    DomainScript(DomainScriptResult),
    UserCreateDomain(UserCreateDomainResult),
    UserUpdateDomain(SimpleResult),
    UserDeleteDomain(SimpleResult),
    UserSubscribeDomain(SimpleResult),
    UserUnsubscribeDomain(SimpleResult),
    Source(SourceResult),
    SourceItem(SourceItemResult),
    SourceItemData(Option<ResponseSourceItem>),
    SourceUserData(Option<Vec<u8>>),
    SourceItemUserData(Option<Vec<u8>>),
    UserSubscribeSource(SimpleResult),
    UserUnsubscribeSource(SimpleResult),
    UserDeleteSource(SimpleResult),
    UserRequestSource(SimpleResult),
    UserRequestSourceItem(SimpleResult),
    SetSourceUserData(SimpleResult),
    SetSourceItemUserData(SimpleResult),
    UserRssAuthKeys(Vec<ResponseRssAuthKey>),
    UserCreateRssAuthKey(UserCreateRssAuthKeyResult),
    UserDeleteRssAuthKey(SimpleResult),
}

impl Response {
    /// Takes the encoded payload of a response as the response to request
    /// `id`. Fails where the payload is longer than `MAX_MSG_BUF_SIZE`.
    pub fn encode(id: RequestId, payload: Vec<u8>) -> (res: Result<EncodedResponse, WriteError>)
        ensures
            payload@.len() > MAX_MSG_BUF_SIZE ==> res matches Err(WriteError::TooLarge),
            payload@.len() <= MAX_MSG_BUF_SIZE ==> (res matches Ok(enc) && enc.spec_id() == id
                && enc.data() == payload@ && enc.position() == 0),
    {
        EncodedResponse::new(id, payload)
    }
}

/// Whether a version came or went.
#[derive(Debug, Clone, Copy, PartialEq, Eq, Structural)]
pub enum UpdateType {
    Update,
    Delete,
}

impl UpdateType {
    /// The name of the update type on the wire.
    pub fn as_str(self) -> (name: &'static str)
        ensures
            name@ == match self {
                UpdateType::Update => "update"@,
                UpdateType::Delete => "delete"@,
            },
    {
        match self {
            UpdateType::Update => "update",
            UpdateType::Delete => "delete",
        }
    }
}

/// The kind of a log entry, by name.
#[derive(Debug, Clone)]
pub struct FetchLogMsgType(pub &'static str);

/// The name of a kind of console message in a fetch log.
pub open spec fn msg_type_name(t: MessageType) -> Seq<char> {
    match t {
        MessageType::Debug => "debug"@,
        MessageType::Log => "log"@,
        MessageType::Info => "info"@,
        MessageType::Trace => "trace"@,
        MessageType::Warn => "warn"@,
        MessageType::Error => "error"@,
        MessageType::Stdout => "stdout"@,
        MessageType::Stderr => "stderr"@,
    }
}

impl FetchLogMsgType {
    pub fn from(this: MessageType) -> (res: FetchLogMsgType)
        ensures
            res.0@ == msg_type_name(this),
    {
        match this {
            MessageType::Debug => FetchLogMsgType("debug"),
            MessageType::Log => FetchLogMsgType("log"),
            MessageType::Info => FetchLogMsgType("info"),
            MessageType::Trace => FetchLogMsgType("trace"),
            MessageType::Warn => FetchLogMsgType("warn"),
            MessageType::Error => FetchLogMsgType("error"),
            MessageType::Stdout => FetchLogMsgType("stdout"),
            MessageType::Stderr => FetchLogMsgType("stderr"),
        }
    }
}

/// One fragment of a log entry.
#[derive(Debug, Clone)]
pub enum FetchLogFrag {
    Log(String),
    ClassName(String),
    ObjectStart,
    ErrorTrace(String),
    ObjectEnd,
    ArrayStart,
    ArrayEnd,
    ObjectMapsTo,
    ListSep,
    Truncated,
    Undefined,
    Null,
    Bool(bool),
    /// A number, as the bits of its 64-bit IEEE 754 form.
    Number(u64),
    String(String),
    Symbol(String),
    KeyString(String),
    KeySymbol(String),
    Circular,
    Function(String),
    Unknown,
    ArgSep,
}

impl View for FetchLogFrag {
    type V = MsgFragView;

    open spec fn view(&self) -> MsgFragView {
        match self {
            FetchLogFrag::Log(s) => MsgFragView::Log(s@),
            FetchLogFrag::ClassName(s) => MsgFragView::ClassName(s@),
            FetchLogFrag::ObjectStart => MsgFragView::ObjectStart,
            FetchLogFrag::ErrorTrace(s) => MsgFragView::ErrorTrace(s@),
            FetchLogFrag::ObjectEnd => MsgFragView::ObjectEnd,
            FetchLogFrag::ArrayStart => MsgFragView::ArrayStart,
            FetchLogFrag::ArrayEnd => MsgFragView::ArrayEnd,
            FetchLogFrag::ObjectMapsTo => MsgFragView::ObjectMapsTo,
            FetchLogFrag::ListSep => MsgFragView::ListSep,
            FetchLogFrag::Truncated => MsgFragView::Truncated,
            FetchLogFrag::Undefined => MsgFragView::Undefined,
            FetchLogFrag::Null => MsgFragView::Null,
            FetchLogFrag::Bool(b) => MsgFragView::Bool(*b),
            FetchLogFrag::Number(n) => MsgFragView::Number(*n),
            FetchLogFrag::String(s) => MsgFragView::String(s@),
            FetchLogFrag::Symbol(s) => MsgFragView::Symbol(s@),
            FetchLogFrag::KeyString(s) => MsgFragView::KeyString(s@),
            FetchLogFrag::KeySymbol(s) => MsgFragView::KeySymbol(s@),
            FetchLogFrag::Circular => MsgFragView::Circular,
            FetchLogFrag::Function(s) => MsgFragView::Function(s@),
            FetchLogFrag::Unknown => MsgFragView::Unknown,
            FetchLogFrag::ArgSep => MsgFragView::ArgSep,
        }
    }
}

impl FetchLogFrag {
    /// The fragment of a log entry that holds what a console fragment holds.
    pub fn from(this: MsgFrag) -> (res: FetchLogFrag)
        ensures
            res@ == this@,
    {
        match this {
            MsgFrag::Log(s) => FetchLogFrag::Log(s),
            MsgFrag::ClassName(s) => FetchLogFrag::ClassName(s),
            MsgFrag::ObjectStart => FetchLogFrag::ObjectStart,
            MsgFrag::ErrorTrace(s) => FetchLogFrag::ErrorTrace(s),
            MsgFrag::ObjectEnd => FetchLogFrag::ObjectEnd,
            MsgFrag::ArrayStart => FetchLogFrag::ArrayStart,
            MsgFrag::ArrayEnd => FetchLogFrag::ArrayEnd,
            MsgFrag::ObjectMapsTo => FetchLogFrag::ObjectMapsTo,
            MsgFrag::ListSep => FetchLogFrag::ListSep,
            MsgFrag::Truncated => FetchLogFrag::Truncated,
            MsgFrag::Undefined => FetchLogFrag::Undefined,
            MsgFrag::Null => FetchLogFrag::Null,
            MsgFrag::Bool(b) => FetchLogFrag::Bool(b),
            MsgFrag::Number(n) => FetchLogFrag::Number(n),
            MsgFrag::String(s) => FetchLogFrag::String(s),
            MsgFrag::Symbol(s) => FetchLogFrag::Symbol(s),
            MsgFrag::KeyString(s) => FetchLogFrag::KeyString(s),
            MsgFrag::KeySymbol(s) => FetchLogFrag::KeySymbol(s),
            MsgFrag::Circular => FetchLogFrag::Circular,
            MsgFrag::Function(n) => FetchLogFrag::Function(n),
            MsgFrag::Unknown => FetchLogFrag::Unknown,
            MsgFrag::ArgSep => FetchLogFrag::ArgSep,
        }
    }
}

/// The clocks of a fetch at the time of a log entry, in milliseconds and in
/// steps of sixteen.
#[derive(Debug, Clone, Copy, PartialEq, Eq, Structural)]
pub struct FetchLogTime {
    pub real: u128,
    pub script: u128,
    pub fetch: u128,
}

/// Nanoseconds in a millisecond.
pub const NANOS_PER_MILLI: u128 = 1_000_000;

/// Precision of the times in a fetch log, in milliseconds.
pub const LOG_TIME_PRECISION: u128 = 16;

/// A time in nanoseconds as whole milliseconds, rounded down to a multiple of
/// sixteen.
pub open spec fn low_precision(nanos: u128) -> u128 {
    (nanos / NANOS_PER_MILLI / LOG_TIME_PRECISION * LOG_TIME_PRECISION) as u128
}

impl FetchLogTime {
    /// The times of a log entry: those of the fetch, with low precision.
    pub fn from(this: FetchTime) -> (res: FetchLogTime)
        ensures
            res.real == low_precision(this.real),
            res.script == low_precision(this.script),
            res.fetch == low_precision(this.fetch),
    {
        FetchLogTime {
            real: this.real / NANOS_PER_MILLI / LOG_TIME_PRECISION * LOG_TIME_PRECISION,
            script: this.script / NANOS_PER_MILLI / LOG_TIME_PRECISION * LOG_TIME_PRECISION,
            fetch: this.fetch / NANOS_PER_MILLI / LOG_TIME_PRECISION * LOG_TIME_PRECISION,
        }
    }
}

/// The times of a log entry for the times of a message, if it has any.
pub open spec fn log_time_of(time: Option<FetchTime>) -> Option<FetchLogTime> {
    match time {
        Some(t) => Some(
            FetchLogTime {
                real: low_precision(t.real),
                script: low_precision(t.script),
                fetch: low_precision(t.fetch),
            },
        ),
        None => None,
    }
}

/// One entry of the log of a fetch.
#[derive(Debug, Clone)]
pub struct FetchLogItem {
    pub time: Option<FetchLogTime>,
    pub msg_type: FetchLogMsgType,
    pub message: Vec<FetchLogFrag>,
}

/// What a `FetchLogItem` holds.
pub struct FetchLogItemView {
    pub time: Option<FetchLogTime>,
    pub msg_type: Seq<char>,
    pub message: Seq<MsgFragView>,
}

impl View for FetchLogItem {
    type V = FetchLogItemView;

    open spec fn view(&self) -> FetchLogItemView {
        FetchLogItemView {
            time: self.time,
            msg_type: self.msg_type.0@,
            message: Seq::new(self.message@.len(), |i: int| self.message@[i]@),
        }
    }
}

/// The log entry for a message of a fetch.
pub open spec fn log_item_of(msg: FetchMsgView) -> FetchLogItemView {
    FetchLogItemView {
        time: log_time_of(msg.time),
        msg_type: msg_type_name(msg.msg.msg_type),
        message: msg.msg.message,
    }
}

/// The log entries for the messages of a fetch, in their order.
pub open spec fn log_of(msgs: Seq<FetchMsgView>) -> Seq<FetchLogItemView> {
    Seq::new(msgs.len(), |i: int| log_item_of(msgs[i]))
}

impl FetchLogItem {
    /// The log entry for a message of a fetch: the same fragments under the
    /// name of the message's kind, with times of low precision.
    pub fn from(this: FetchMsg) -> (res: FetchLogItem)
        ensures
            res@ == log_item_of(this@),
    {
        let FetchMsg { time, msg } = this;
        let ghost frags = Seq::new(msg.message@.len(), |i: int| msg.message@[i]@);
        let time = match time {
            Some(t) => Some(FetchLogTime::from(t)),
            None => None,
        };
        let msg_type = FetchLogMsgType::from(msg.msg_type);
        let mut message: Vec<FetchLogFrag> = Vec::new();
        let mut rest = msg.message;
        let ghost total = rest@.len();
        // the fragments are taken from the back and put in order afterwards
        let mut reversed: Vec<FetchLogFrag> = Vec::new();
        while rest.len() > 0
            invariant
                rest@.len() + reversed@.len() == total,
                total == frags.len(),
                forall|i: int| 0 <= i < rest@.len() ==> rest@[i]@ == frags[i],
                forall|i: int|
                    0 <= i < reversed@.len() ==> reversed@[i]@ == frags[total - 1 - i],
            decreases rest@.len(),
        {
            let frag = rest.pop().unwrap();
            reversed.push(FetchLogFrag::from(frag));
        }
        while reversed.len() > 0
            invariant
                message@.len() + reversed@.len() == total,
                total == frags.len(),
                forall|i: int| 0 <= i < message@.len() ==> message@[i]@ == frags[i],
                forall|i: int|
                    0 <= i < reversed@.len() ==> reversed@[i]@ == frags[total - 1 - i],
            decreases reversed@.len(),
        {
            let frag = reversed.pop().unwrap();
            message.push(frag);
        }
        let res = FetchLogItem { time, msg_type, message };
        assert(res@.message =~= frags);
        res
    }
}

impl FetchLogFrag {
    /// The fragment of a log entry that holds what a console fragment holds.
    pub fn from_ref(this: &MsgFrag) -> (res: FetchLogFrag)
        ensures
            res@ == this@,
    {
        match this {
            MsgFrag::Log(s) => FetchLogFrag::Log(copy_str(s.as_str())),
            MsgFrag::ClassName(s) => FetchLogFrag::ClassName(copy_str(s.as_str())),
            MsgFrag::ObjectStart => FetchLogFrag::ObjectStart,
            MsgFrag::ErrorTrace(s) => FetchLogFrag::ErrorTrace(copy_str(s.as_str())),
            MsgFrag::ObjectEnd => FetchLogFrag::ObjectEnd,
            MsgFrag::ArrayStart => FetchLogFrag::ArrayStart,
            MsgFrag::ArrayEnd => FetchLogFrag::ArrayEnd,
            MsgFrag::ObjectMapsTo => FetchLogFrag::ObjectMapsTo,
            MsgFrag::ListSep => FetchLogFrag::ListSep,
            MsgFrag::Truncated => FetchLogFrag::Truncated,
            MsgFrag::Undefined => FetchLogFrag::Undefined,
            MsgFrag::Null => FetchLogFrag::Null,
            MsgFrag::Bool(b) => FetchLogFrag::Bool(*b),
            MsgFrag::Number(n) => FetchLogFrag::Number(*n),
            MsgFrag::String(s) => FetchLogFrag::String(copy_str(s.as_str())),
            MsgFrag::Symbol(s) => FetchLogFrag::Symbol(copy_str(s.as_str())),
            MsgFrag::KeyString(s) => FetchLogFrag::KeyString(copy_str(s.as_str())),
            MsgFrag::KeySymbol(s) => FetchLogFrag::KeySymbol(copy_str(s.as_str())),
            MsgFrag::Circular => FetchLogFrag::Circular,
            MsgFrag::Function(n) => FetchLogFrag::Function(copy_str(n.as_str())),
            MsgFrag::Unknown => FetchLogFrag::Unknown,
            MsgFrag::ArgSep => FetchLogFrag::ArgSep,
        }
    }
}

impl FetchLogItem {
    /// The log entry for a message of a fetch, which stays as it is.
    pub fn from_ref(this: &FetchMsg) -> (res: FetchLogItem)
        ensures
            res@ == log_item_of(this@),
    {
        let time = match this.time {
            Some(t) => Some(FetchLogTime::from(t)),
            None => None,
        };
        let msg_type = FetchLogMsgType::from(this.msg.msg_type);
        let mut message: Vec<FetchLogFrag> = Vec::new();
        let mut i: usize = 0;
        while i < this.msg.message.len()
            invariant
                i <= this.msg.message@.len(),
                message@.len() == i,
                forall|j: int| 0 <= j < i ==> (#[trigger] message@[j])@ == this.msg.message@[j]@,
            decreases this.msg.message@.len() - i,
        {
            message.push(FetchLogFrag::from_ref(&this.msg.message[i]));
            i += 1;
        }
        let res = FetchLogItem { time, msg_type, message };
        assert(res@.message =~= this@.msg.message);
        res
    }
}

/// The log entries for the messages of a fetch, which stay as they are.
pub fn log_of_messages(msgs: &Vec<FetchMsg>) -> (log: Vec<FetchLogItem>)
    ensures
        log_views(log@) == log_of(crate::data::models::views(msgs@)),
{
    let mut log: Vec<FetchLogItem> = Vec::new();
    let mut i: usize = 0;
    while i < msgs.len()
        invariant
            i <= msgs@.len(),
            log@.len() == i,
            forall|j: int| 0 <= j < i ==> (#[trigger] log@[j])@ == log_item_of(msgs@[j]@),
        decreases msgs@.len() - i,
    {
        log.push(FetchLogItem::from_ref(&msgs[i]));
        i += 1;
    }
    assert(log_views(log@) =~= log_of(crate::data::models::views(msgs@)));
    log
}

/// The views of a list of log entries.
pub open spec fn log_views(log: Seq<FetchLogItem>) -> Seq<FetchLogItemView> {
    Seq::new(log.len(), |i: int| log[i]@)
}

/// An event that is sent to the sessions of a user.
#[derive(Debug, Clone)]
pub enum Event {
    ProtocolError { error: String },
    UserDidSubscribeSource { source: String },
    UserDidUnsubscribeSource { source: String },
    UserDidSubscribeDomain { domain: String },
    UserDidUnsubscribeDomain { domain: String },
    SourceUserDataDidUpdate { source: String },
    SourceItemUserDataDidUpdate { source_item: String },
    SubscribedDomainDidUpdate { domain: String },
    SourceFetchDidBegin { source: String },
    SourceFetchDidEnd { source: String, success: bool, log: Vec<FetchLogItem> },
    SourceItemFetchDidBegin { source_item: String },
    SourceItemFetchDidEnd { source_item: String, success: bool, log: Vec<FetchLogItem> },
    SubscribedSourceDidUpdate { source: String, update_type: UpdateType },
    SubscribedSourceItemDidUpdate { source_item: String, update_type: UpdateType },
}

/// What an `Event` holds.
pub enum EventView {
    ProtocolError { error: Seq<char> },
    UserDidSubscribeSource { source: Seq<char> },
    UserDidUnsubscribeSource { source: Seq<char> },
    UserDidSubscribeDomain { domain: Seq<char> },
    UserDidUnsubscribeDomain { domain: Seq<char> },
    SourceUserDataDidUpdate { source: Seq<char> },
    SourceItemUserDataDidUpdate { source_item: Seq<char> },
    SubscribedDomainDidUpdate { domain: Seq<char> },
    SourceFetchDidBegin { source: Seq<char> },
    SourceFetchDidEnd { source: Seq<char>, success: bool, log: Seq<FetchLogItemView> },
    SourceItemFetchDidBegin { source_item: Seq<char> },
    SourceItemFetchDidEnd { source_item: Seq<char>, success: bool, log: Seq<FetchLogItemView> },
    SubscribedSourceDidUpdate { source: Seq<char>, update_type: UpdateType },
    SubscribedSourceItemDidUpdate { source_item: Seq<char>, update_type: UpdateType },
}

impl View for Event {
    type V = EventView;

    open spec fn view(&self) -> EventView {
        match self {
            Event::ProtocolError { error } => EventView::ProtocolError { error: error@ },
            Event::UserDidSubscribeSource { source } => EventView::UserDidSubscribeSource {
                source: source@,
            },
            Event::UserDidUnsubscribeSource { source } => EventView::UserDidUnsubscribeSource {
                source: source@,
            },
            Event::UserDidSubscribeDomain { domain } => EventView::UserDidSubscribeDomain {
                domain: domain@,
            },
            Event::UserDidUnsubscribeDomain { domain } => EventView::UserDidUnsubscribeDomain {
                domain: domain@,
            },
            Event::SourceUserDataDidUpdate { source } => EventView::SourceUserDataDidUpdate {
                source: source@,
            },
            Event::SourceItemUserDataDidUpdate {
                source_item,
            } => EventView::SourceItemUserDataDidUpdate { source_item: source_item@ },
            Event::SubscribedDomainDidUpdate { domain } => EventView::SubscribedDomainDidUpdate {
                domain: domain@,
            },
            Event::SourceFetchDidBegin { source } => EventView::SourceFetchDidBegin {
                source: source@,
            },
            Event::SourceFetchDidEnd { source, success, log } => EventView::SourceFetchDidEnd {
                source: source@,
                success: *success,
                log: log_views(log@),
            },
            Event::SourceItemFetchDidBegin { source_item } => EventView::SourceItemFetchDidBegin {
                source_item: source_item@,
            },
            Event::SourceItemFetchDidEnd {
                source_item,
                success,
                log,
            } => EventView::SourceItemFetchDidEnd {
                source_item: source_item@,
                success: *success,
                log: log_views(log@),
            },
            Event::SubscribedSourceDidUpdate {
                source,
                update_type,
            } => EventView::SubscribedSourceDidUpdate {
                source: source@,
                update_type: *update_type,
            },
            Event::SubscribedSourceItemDidUpdate {
                source_item,
                update_type,
            } => EventView::SubscribedSourceItemDidUpdate {
                source_item: source_item@,
                update_type: *update_type,
            },
        }
    }
}

/// The name of an event on the wire.
pub open spec fn event_name(event: EventView) -> Seq<char> {
    match event {
        EventView::ProtocolError { .. } => "protocol_error"@,
        EventView::UserDidSubscribeSource { .. } => "user_did_subscribe_source"@,
        EventView::UserDidUnsubscribeSource { .. } => "user_did_unsubscribe_source"@,
        EventView::UserDidSubscribeDomain { .. } => "user_did_subscribe_domain"@,
        EventView::UserDidUnsubscribeDomain { .. } => "user_did_unsubscribe_domain"@,
        EventView::SourceUserDataDidUpdate { .. } => "source_user_data_did_update"@,
        EventView::SourceItemUserDataDidUpdate { .. } => "source_item_user_data_did_update"@,
        EventView::SubscribedDomainDidUpdate { .. } => "subscribed_domain_did_update"@,
        EventView::SourceFetchDidBegin { .. } => "source_fetch_did_begin"@,
        EventView::SourceFetchDidEnd { .. } => "source_fetch_did_end"@,
        EventView::SourceItemFetchDidBegin { .. } => "source_item_fetch_did_begin"@,
        EventView::SourceItemFetchDidEnd { .. } => "source_item_fetch_did_end"@,
        EventView::SubscribedSourceDidUpdate { .. } => "subscribed_source_did_update"@,
        EventView::SubscribedSourceItemDidUpdate { .. } => "subscribed_source_item_did_update"@,
    }
}

/// The frame of an event: its type, the length of its name in one byte, the
/// name, and the encoded payload.
pub open spec fn event_frame(name: Seq<u8>, payload: Seq<u8>) -> Seq<u8> {
    seq![MSG_TYPE_SERVER_EVENT, name.len() as u8] + name + payload
}

/// The name of every event is ASCII and shorter than 256 bytes.
pub proof fn lemma_event_names_short(event: EventView)
    ensures
        vstd::utf8::is_ascii_chars(event_name(event)),
        vstd::utf8::encode_utf8(event_name(event)).len() == event_name(event).len(),
        event_name(event).len() < 256,
{
    reveal_strlit("protocol_error");
    reveal_strlit("user_did_subscribe_source");
    reveal_strlit("user_did_unsubscribe_source");
    reveal_strlit("user_did_subscribe_domain");
    reveal_strlit("user_did_unsubscribe_domain");
    reveal_strlit("source_user_data_did_update");
    reveal_strlit("source_item_user_data_did_update");
    reveal_strlit("subscribed_domain_did_update");
    reveal_strlit("source_fetch_did_begin");
    reveal_strlit("source_fetch_did_end");
    reveal_strlit("source_item_fetch_did_begin");
    reveal_strlit("source_item_fetch_did_end");
    reveal_strlit("subscribed_source_did_update");
    reveal_strlit("subscribed_source_item_did_update");
    vstd::utf8::is_ascii_chars_encode_utf8(event_name(event));
}

impl Event {
    pub fn name(&self) -> (name: &'static str)
        ensures
            name@ == event_name(self@),
    {
        match self {
            Event::ProtocolError { .. } => "protocol_error",
            Event::UserDidSubscribeSource { .. } => "user_did_subscribe_source",
            Event::UserDidUnsubscribeSource { .. } => "user_did_unsubscribe_source",
            Event::UserDidSubscribeDomain { .. } => "user_did_subscribe_domain",
            Event::UserDidUnsubscribeDomain { .. } => "user_did_unsubscribe_domain",
            Event::SourceUserDataDidUpdate { .. } => "source_user_data_did_update",
            Event::SourceItemUserDataDidUpdate { .. } => "source_item_user_data_did_update",
            Event::SubscribedDomainDidUpdate { .. } => "subscribed_domain_did_update",
            Event::SourceFetchDidBegin { .. } => "source_fetch_did_begin",
            Event::SourceFetchDidEnd { .. } => "source_fetch_did_end",
            Event::SourceItemFetchDidBegin { .. } => "source_item_fetch_did_begin",
            Event::SourceItemFetchDidEnd { .. } => "source_item_fetch_did_end",
            Event::SubscribedSourceDidUpdate { .. } => "subscribed_source_did_update",
            Event::SubscribedSourceItemDidUpdate { .. } => "subscribed_source_item_did_update",
        }
    }

    /// Writes the frame of this event around its encoded payload. The name
    /// of every event is shorter than 256 bytes, so its length fits in the
    /// one byte that the frame has for it.
    pub fn write(&self, payload: &[u8], out: &mut Vec<u8>) -> (res: Result<(), WriteError>)
        ensures
            res is Ok,
            final(out)@ == old(out)@ + event_frame(
                vstd::utf8::encode_utf8(event_name(self@)),
                payload@,
            ),
            vstd::utf8::encode_utf8(event_name(self@)).len() < 256,
    {
        let ghost out0 = out@;
        let name = self.name();
        proof {
            lemma_event_names_short(self@);
        }
        let name_bytes = name.as_bytes();
        out.push(MSG_TYPE_SERVER_EVENT);
        out.push(name_bytes.len() as u8);
        push_all(out, name_bytes);
        push_all(out, payload);
        assert(out@ =~= out0 + event_frame(name_bytes@, payload@));
        Ok(())
    }
}

} // verus!
