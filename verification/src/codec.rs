//! The request frame and the response header, as bytes.
//!
//! Both are laid out as the daemon holds them in memory: 32-bit fields one after
//! the other, without padding, each in one and the same byte order.

use crate::byte_order::{
    i32_bytes, i32_of_bytes, lemma_i32_round_trip, lemma_u32_round_trip, u32_bytes, u32_of_bytes,
    ByteOrder,
};
use crate::failure::Failure;
use crate::wire::{host_byte_order, i32_from_bytes, i32_to_bytes, u32_from_bytes};
use vstd::prelude::*;
use vstd::slice::{slice_subrange, slice_to_vec};
use vstd::string::StringSliceAdditionalSpecFns;

verus! {

/// The protocol version that this client speaks.
pub const PROTOCOL_VERSION: i32 = 2;

/// The request type of a lookup of a user by name.
pub const GET_USER_BY_NAME: i32 = 0;

/// The length in bytes of the three fields in front of a request's key.
pub const REQUEST_HEADER_LEN: usize = 12;

/// The length in bytes of the nine fields of a response header.
pub const RESPONSE_HEADER_LEN: usize = 36;

/// A request: three header fields, then the key that is looked up.
#[derive(Clone, Debug, PartialEq, Eq)]
pub struct RequestFrame {
    /// Version of the daemon's interface.
    pub version: i32,
    /// Service that is asked for.
    pub request_type: i32,
    /// Length of the key in bytes.
    pub key_len: i32,
    /// The key: the user's name, without a terminator.
    pub key: Vec<u8>,
}

/// The fixed part of the daemon's answer to a lookup of a user.
#[derive(Clone, Copy, Debug, PartialEq, Eq, Structural)]
pub struct ResponseHeader {
    /// Version of the daemon's interface.
    pub version: i32,
    /// 1 where the daemon knows the user, 0 where it does not.
    pub found: i32,
    /// Length of the stored name, its terminator included.
    pub pw_name_len: i32,
    /// Length of the password field.
    pub pw_passwd_len: i32,
    /// Numeric user id.
    pub pw_uid: u32,
    /// Numeric group id.
    pub pw_gid: u32,
    /// Length of the gecos field.
    pub pw_gecos_len: i32,
    /// Length of the home directory.
    pub pw_dir_len: i32,
    /// Length of the shell.
    pub pw_shell_len: i32,
}

/// The bytes of a request with the given fields and key.
pub open spec fn request_bytes(
    order: ByteOrder,
    version: i32,
    request_type: i32,
    key_len: i32,
    key: Seq<u8>,
) -> Seq<u8> {
    i32_bytes(order, version) + i32_bytes(order, request_type) + i32_bytes(order, key_len) + key
}

/// The four bytes of the field with the given index.
pub open spec fn field_bytes(bytes: Seq<u8>, index: int) -> Seq<u8> {
    bytes.subrange(4 * index, 4 * index + 4)
}

/// The header that the first 36 bytes of `bytes` spell.
pub open spec fn header_of_bytes(order: ByteOrder, bytes: Seq<u8>) -> ResponseHeader
    recommends
        bytes.len() >= RESPONSE_HEADER_LEN,
{
    ResponseHeader {
        version: i32_of_bytes(order, field_bytes(bytes, 0)),
        found: i32_of_bytes(order, field_bytes(bytes, 1)),
        pw_name_len: i32_of_bytes(order, field_bytes(bytes, 2)),
        pw_passwd_len: i32_of_bytes(order, field_bytes(bytes, 3)),
        pw_uid: u32_of_bytes(order, field_bytes(bytes, 4)),
        pw_gid: u32_of_bytes(order, field_bytes(bytes, 5)),
        pw_gecos_len: i32_of_bytes(order, field_bytes(bytes, 6)),
        pw_dir_len: i32_of_bytes(order, field_bytes(bytes, 7)),
        pw_shell_len: i32_of_bytes(order, field_bytes(bytes, 8)),
    }
}

/// The 36 bytes of a response header.
pub open spec fn header_bytes(order: ByteOrder, header: ResponseHeader) -> Seq<u8> {
    i32_bytes(order, header.version) + i32_bytes(order, header.found) + i32_bytes(
        order,
        header.pw_name_len,
    ) + i32_bytes(order, header.pw_passwd_len) + u32_bytes(order, header.pw_uid) + u32_bytes(
        order,
        header.pw_gid,
    ) + i32_bytes(order, header.pw_gecos_len) + i32_bytes(order, header.pw_dir_len) + i32_bytes(
        order,
        header.pw_shell_len,
    )
}

/// A request for a key is 12 bytes longer than the key. Its first three fields
/// read back as the version, the request type and the length of the key, and
/// the key follows them unchanged.
pub proof fn lemma_request_layout(order: ByteOrder, version: i32, request_type: i32, key: Seq<u8>)
    requires
        key.len() <= i32::MAX,
    ensures
        ({
            let bytes = request_bytes(order, version, request_type, key.len() as i32, key);
            &&& bytes.len() == REQUEST_HEADER_LEN + key.len()
            &&& i32_of_bytes(order, field_bytes(bytes, 0)) == version
            &&& i32_of_bytes(order, field_bytes(bytes, 1)) == request_type
            &&& i32_of_bytes(order, field_bytes(bytes, 2)) == key.len()
            &&& bytes.subrange(REQUEST_HEADER_LEN as int, bytes.len() as int) == key
        }),
{
    let key_len = key.len() as i32;
    let bytes = request_bytes(order, version, request_type, key_len, key);
    lemma_i32_round_trip(order, version);
    lemma_i32_round_trip(order, request_type);
    lemma_i32_round_trip(order, key_len);
    assert(field_bytes(bytes, 0) =~= i32_bytes(order, version));
    assert(field_bytes(bytes, 1) =~= i32_bytes(order, request_type));
    assert(field_bytes(bytes, 2) =~= i32_bytes(order, key_len));
    assert(bytes.subrange(REQUEST_HEADER_LEN as int, bytes.len() as int) =~= key);
}

/// Nine fields of four bytes each, one after the other, lie at their indices.
proof fn lemma_nine_fields(fields: Seq<Seq<u8>>)
    requires
        fields.len() == 9,
        forall|i: int| 0 <= i < 9 ==> (#[trigger] fields[i]).len() == 4,
    ensures
        ({
            let bytes = fields[0] + fields[1] + fields[2] + fields[3] + fields[4] + fields[5]
                + fields[6] + fields[7] + fields[8];
            &&& bytes.len() == RESPONSE_HEADER_LEN
            &&& forall|i: int| 0 <= i < 9 ==> #[trigger] field_bytes(bytes, i) == fields[i]
        }),
{
    let bytes = fields[0] + fields[1] + fields[2] + fields[3] + fields[4] + fields[5] + fields[6]
        + fields[7] + fields[8];
    assert(fields[0].len() == 4 && fields[1].len() == 4 && fields[2].len() == 4);
    assert(fields[3].len() == 4 && fields[4].len() == 4 && fields[5].len() == 4);
    assert(fields[6].len() == 4 && fields[7].len() == 4 && fields[8].len() == 4);
    assert forall|i: int| 0 <= i < 9 implies #[trigger] field_bytes(bytes, i) == fields[i] by {
        assert(field_bytes(bytes, i) =~= fields[i]);
    }
}

/// A header's bytes are 36, and they spell that header: each of the nine
/// fields comes back from the place that its position in the header gives it.
pub proof fn lemma_header_round_trip(order: ByteOrder, header: ResponseHeader)
    ensures
        header_bytes(order, header).len() == RESPONSE_HEADER_LEN,
        header_of_bytes(order, header_bytes(order, header)) == header,
{
    let fields = seq![
        i32_bytes(order, header.version),
        i32_bytes(order, header.found),
        i32_bytes(order, header.pw_name_len),
        i32_bytes(order, header.pw_passwd_len),
        u32_bytes(order, header.pw_uid),
        u32_bytes(order, header.pw_gid),
        i32_bytes(order, header.pw_gecos_len),
        i32_bytes(order, header.pw_dir_len),
        i32_bytes(order, header.pw_shell_len),
    ];
    lemma_i32_round_trip(order, header.version);
    lemma_i32_round_trip(order, header.found);
    lemma_i32_round_trip(order, header.pw_name_len);
    lemma_i32_round_trip(order, header.pw_passwd_len);
    lemma_u32_round_trip(order, header.pw_uid);
    lemma_u32_round_trip(order, header.pw_gid);
    lemma_i32_round_trip(order, header.pw_gecos_len);
    lemma_i32_round_trip(order, header.pw_dir_len);
    lemma_i32_round_trip(order, header.pw_shell_len);
    lemma_nine_fields(fields);
    let bytes = header_bytes(order, header);
    assert(field_bytes(bytes, 0) == fields[0]);
    assert(field_bytes(bytes, 1) == fields[1]);
    assert(field_bytes(bytes, 2) == fields[2]);
    assert(field_bytes(bytes, 3) == fields[3]);
    assert(field_bytes(bytes, 4) == fields[4]);
    assert(field_bytes(bytes, 5) == fields[5]);
    assert(field_bytes(bytes, 6) == fields[6]);
    assert(field_bytes(bytes, 7) == fields[7]);
    assert(field_bytes(bytes, 8) == fields[8]);
}

/// What follows the 36 bytes of a header has no part in the header.
pub proof fn lemma_header_ignores_payload(order: ByteOrder, bytes: Seq<u8>, payload: Seq<u8>)
    requires
        bytes.len() >= RESPONSE_HEADER_LEN,
    ensures
        header_of_bytes(order, bytes + payload) == header_of_bytes(order, bytes),
{
    let longer = bytes + payload;
    assert(field_bytes(longer, 0) =~= field_bytes(bytes, 0));
    assert(field_bytes(longer, 1) =~= field_bytes(bytes, 1));
    assert(field_bytes(longer, 2) =~= field_bytes(bytes, 2));
    assert(field_bytes(longer, 3) =~= field_bytes(bytes, 3));
    assert(field_bytes(longer, 4) =~= field_bytes(bytes, 4));
    assert(field_bytes(longer, 5) =~= field_bytes(bytes, 5));
    assert(field_bytes(longer, 6) =~= field_bytes(bytes, 6));
    assert(field_bytes(longer, 7) =~= field_bytes(bytes, 7));
    assert(field_bytes(longer, 8) =~= field_bytes(bytes, 8));
}

impl RequestFrame {
    /// The key length says how long the key is.
    pub open spec fn wf(&self) -> bool {
        self.key_len == self.key@.len()
    }

    /// The bytes of this frame.
    pub open spec fn bytes(&self, order: ByteOrder) -> Seq<u8> {
        request_bytes(order, self.version, self.request_type, self.key_len, self.key@)
    }

    /// The request that asks for `username`.
    pub fn for_user(version: i32, request_type: i32, username: &str) -> (frame: RequestFrame)
        requires
            username.spec_bytes().len() <= i32::MAX,
        ensures
            frame.wf(),
            frame.version == version,
            frame.request_type == request_type,
            frame.key_len == username.spec_bytes().len(),
            frame.key@ == username.spec_bytes(),
    {
        let key = slice_to_vec(username.as_bytes());
        RequestFrame { version, request_type, key_len: key.len() as i32, key }
    }
}

/// Encoder of requests and decoder of response headers in one byte order.
#[derive(Clone, Copy, Debug, PartialEq, Eq, Structural)]
pub struct ProtocolCodec {
    pub order: ByteOrder,
}

impl ProtocolCodec {
    /// The codec for the given byte order.
    pub fn new(order: ByteOrder) -> (codec: ProtocolCodec)
        ensures
            codec.order == order,
    {
        ProtocolCodec { order }
    }

    /// The codec for the byte order of the machine that runs this code, which is
    /// the order in which a daemon on the same machine lays out its fields.
    pub fn native() -> ProtocolCodec {
        ProtocolCodec { order: host_byte_order() }
    }

    /// The bytes of `frame`: the three header fields in their order, then the key.
    pub fn encode_frame(&self, frame: &RequestFrame) -> (r: Result<Vec<u8>, Failure>)
        requires
            frame.wf(),
        ensures
            r is Ok,
            r matches Ok(bytes) ==> bytes@ == frame.bytes(self.order),
            r matches Ok(bytes) ==> bytes@.len() == REQUEST_HEADER_LEN + frame.key@.len(),
    {
        proof {
            lemma_request_layout(self.order, frame.version, frame.request_type, frame.key@);
        }
        let mut bytes = self.field(frame.version)?;
        let mut request_type = self.field(frame.request_type)?;
        let mut key_len = self.field(frame.key_len)?;
        let mut key = frame.key.clone();
        bytes.append(&mut request_type);
        bytes.append(&mut key_len);
        bytes.append(&mut key);
        Ok(bytes)
    }

    /// The bytes of the request that asks for `username`.
    pub fn encode_request(&self, version: i32, request_type: i32, username: &str) -> (r: Result<
        Vec<u8>,
        Failure,
    >)
        requires
            username.spec_bytes().len() <= i32::MAX,
        ensures
            r is Ok,
            r matches Ok(bytes) ==> bytes@ == request_bytes(
                self.order,
                version,
                request_type,
                username.spec_bytes().len() as i32,
                username.spec_bytes(),
            ),
            r matches Ok(bytes) ==> bytes@.len() == REQUEST_HEADER_LEN + username.spec_bytes().len(),
    {
        let frame = RequestFrame::for_user(version, request_type, username);
        self.encode_frame(&frame)
    }

    /// The response header at the front of `bytes`. What follows the header is
    /// not looked at.
    pub fn decode_response_header(&self, bytes: &[u8]) -> (r: Result<ResponseHeader, Failure>)
        ensures
            r is Ok <==> bytes@.len() >= RESPONSE_HEADER_LEN,
            r matches Ok(header) ==> header == header_of_bytes(self.order, bytes@),
            r matches Err(e) ==> e is Decode,
    {
        let version = self.signed_field(bytes, 0)?;
        let found = self.signed_field(bytes, 1)?;
        let pw_name_len = self.signed_field(bytes, 2)?;
        let pw_passwd_len = self.signed_field(bytes, 3)?;
        let pw_uid = self.unsigned_field(bytes, 4)?;
        let pw_gid = self.unsigned_field(bytes, 5)?;
        let pw_gecos_len = self.signed_field(bytes, 6)?;
        let pw_dir_len = self.signed_field(bytes, 7)?;
        let pw_shell_len = self.signed_field(bytes, 8)?;
        Ok(
            ResponseHeader {
                version,
                found,
                pw_name_len,
                pw_passwd_len,
                pw_uid,
                pw_gid,
                pw_gecos_len,
                pw_dir_len,
                pw_shell_len,
            },
        )
    }

    /// The bytes of one signed field.
    fn field(&self, value: i32) -> (r: Result<Vec<u8>, Failure>)
        ensures
            r is Ok,
            r matches Ok(bytes) ==> bytes@ == i32_bytes(self.order, value),
    {
        match i32_to_bytes(self.order, value) {
            Ok(bytes) => Ok(bytes),
            Err(error) => Err(Failure::from_encode_error(&error)),
        }
    }

    /// The signed field with the given index, where `bytes` reaches that far.
    fn signed_field(&self, bytes: &[u8], index: usize) -> (r: Result<i32, Failure>)
        requires
            index < 9,
            4 * index <= bytes@.len(),
        ensures
            r is Ok <==> 4 * index + 4 <= bytes@.len(),
            r matches Ok(value) ==> value == i32_of_bytes(self.order, field_bytes(bytes@, index as int)),
            r matches Err(e) ==> e is Decode,
    {
        let rest = slice_subrange(bytes, 4 * index, bytes.len());
        match i32_from_bytes(self.order, rest) {
            Ok(value) => {
                assert(rest@.subrange(0, 4) =~= field_bytes(bytes@, index as int));
                Ok(value)
            },
            Err(error) => Err(Failure::from_decode_error(&error)),
        }
    }

    /// The unsigned field with the given index, where `bytes` reaches that far.
    fn unsigned_field(&self, bytes: &[u8], index: usize) -> (r: Result<u32, Failure>)
        requires
            index < 9,
            4 * index <= bytes@.len(),
        ensures
            r is Ok <==> 4 * index + 4 <= bytes@.len(),
            r matches Ok(value) ==> value == u32_of_bytes(self.order, field_bytes(bytes@, index as int)),
            r matches Err(e) ==> e is Decode,
    {
        let rest = slice_subrange(bytes, 4 * index, bytes.len());
        match u32_from_bytes(self.order, rest) {
            Ok(value) => {
                assert(rest@.subrange(0, 4) =~= field_bytes(bytes@, index as int));
                Ok(value)
            },
            Err(error) => Err(Failure::from_decode_error(&error)),
        }
    }
}

} // verus!
