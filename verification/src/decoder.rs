//! Decoding the head of a request out of a connection's read buffer.
use bytecodec::combinator::MaybeEos;
use bytecodec::io::{IoDecodeExt, ReadBuf};
use bytecodec::{Decode, DecodeExt};
use httpcodec::{NoBodyDecoder, RequestDecoder};
use vstd::prelude::*;

use crate::options::DecodeOptions;
use crate::status::ErrorKind;

verus! {

/// The version that a request names.
#[derive(Debug, Clone, Copy, PartialEq, Eq, Structural)]
pub enum HttpVersion {
    V1_0,
    V1_1,
}

/// The head of a request: its first line and its header fields, in the order in which they came.
#[derive(Debug)]
pub struct RequestHead {
    pub method: String,
    pub target: String,
    pub version: HttpVersion,
    pub fields: Vec<(String, String)>,
}

/// What a [`RequestHead`] says, as character sequences.
pub struct RequestHeadView {
    pub method: Seq<char>,
    pub target: Seq<char>,
    pub version: HttpVersion,
    pub fields: Seq<(Seq<char>, Seq<char>)>,
}

impl View for RequestHead {
    type V = RequestHeadView;

    open spec fn view(&self) -> RequestHeadView {
        RequestHeadView {
            method: self.method@,
            target: self.target@,
            version: self.version,
            fields: self.fields@.map_values(|f: (String, String)| (f.0@, f.1@)),
        }
    }
}

/// One thing that was done with a request head decoder.
pub enum DecoderOp {
    /// It was made with these limits.
    Created(DecodeOptions),
    /// It was shown these bytes; the flag says whether the stream ends behind them.
    Fed(Seq<u8>, bool),
    /// It was asked for the head that it holds.
    Finished,
    /// The call before this entry ended in an error.
    Failed,
}

/// `bytecodec::Error`, carried through.
#[verifier::external_type_specification]
#[verifier::external_body]
pub struct ExBytecodecError(bytecodec::Error);

/// `bytecodec::io::ReadBuf`, the buffer of bytes that have come in and were not consumed yet.
#[verifier::external_type_specification]
#[verifier::external_body]
#[verifier::reject_recursive_types(B)]
pub struct ExReadBuf<B>(bytecodec::io::ReadBuf<B>);

/// `bytecodec::combinator::MaybeEos`, a decoder that puts up with the end of a stream between two
/// items.
#[verifier::external_type_specification]
#[verifier::external_body]
#[verifier::reject_recursive_types(D)]
pub struct ExMaybeEos<D>(bytecodec::combinator::MaybeEos<D>);

/// `httpcodec::RequestDecoder`, a decoder of requests.
#[verifier::external_type_specification]
#[verifier::external_body]
#[verifier::reject_recursive_types(D)]
pub struct ExRequestDecoder<D>(httpcodec::RequestDecoder<D>);

/// `httpcodec::NoBodyDecoder`, a decoder of bodies that takes no bytes.
#[verifier::external_type_specification]
#[verifier::external_body]
pub struct ExNoBodyDecoder(httpcodec::NoBodyDecoder);

/// The decoder of request heads.
pub type HeadDecoder = MaybeEos<RequestDecoder<NoBodyDecoder>>;

/// The unread bytes of a read buffer.
pub uninterp spec fn read_buf_bytes(buf: ReadBuf<Vec<u8>>) -> Seq<u8>;

/// Whether the stream behind a read buffer has ended.
pub uninterp spec fn read_buf_eos(buf: ReadBuf<Vec<u8>>) -> bool;

/// Whether the storage of a read buffer holds all of its unread bytes. It does unless it was
/// shortened through `ReadBuf::inner_mut`.
pub uninterp spec fn read_buf_sound(buf: ReadBuf<Vec<u8>>) -> bool;

/// What a decoder holds, as the record of everything that was done with it, oldest first.
pub uninterp spec fn decoder_ops(decoder: MaybeEos<RequestDecoder<NoBodyDecoder>>) -> Seq<DecoderOp>;

/// How many bytes a decoder takes of those that the last entry of `ops` shows it;
/// `None` where it reports an error.
pub uninterp spec fn decoded_size(ops: Seq<DecoderOp>) -> Option<nat>;

/// Whether a decoder holds a whole head.
pub uninterp spec fn head_complete(ops: Seq<DecoderOp>) -> bool;

/// The head that a decoder hands out; `None` where it reports an error.
pub uninterp spec fn head_decoded(ops: Seq<DecoderOp>) -> Option<RequestHeadView>;

/// No call on the decoder has failed.
pub open spec fn ops_healthy(ops: Seq<DecoderOp>) -> bool {
    forall|i: int| 0 <= i < ops.len() ==> !(#[trigger] ops[i] is Failed)
}

/// No byte was shown to the decoder since it was made or last handed out a head.
pub open spec fn ops_unstarted(ops: Seq<DecoderOp>) -> bool
    decreases ops.len(),
{
    ops.len() > 0 && match ops.last() {
        DecoderOp::Created(_) => true,
        DecoderOp::Finished => true,
        DecoderOp::Fed(bytes, _) => bytes.len() == 0 && ops_unstarted(ops.drop_last()),
        DecoderOp::Failed => false,
    }
}

/// The record up to the point where the decoder was made or last handed out a head.
pub open spec fn ops_begin(ops: Seq<DecoderOp>) -> Seq<DecoderOp>
    decreases ops.len(),
{
    if ops.len() > 0 && ops.last() is Fed {
        ops_begin(ops.drop_last())
    } else {
        ops
    }
}

/// The bytes that were shown to the decoder since it was made or last handed out a head.
pub open spec fn ops_shown(ops: Seq<DecoderOp>) -> Seq<u8>
    decreases ops.len(),
{
    if ops.len() == 0 {
        Seq::empty()
    } else {
        match ops.last() {
            DecoderOp::Fed(bytes, _) => ops_shown(ops.drop_last()) + bytes,
            _ => Seq::empty(),
        }
    }
}

/// Whether a byte is a space or a tab.
pub open spec fn is_blank(byte: u8) -> bool {
    byte == 0x20 || byte == 0x09
}

/// Whether nothing but blanks follows the last carriage return among `bytes`.
pub open spec fn ends_behind_cr(bytes: Seq<u8>) -> bool
    decreases bytes.len(),
{
    bytes.len() > 0 && (bytes.last() == 0x0D || is_blank(bytes.last()) && ends_behind_cr(
        bytes.drop_last(),
    ))
}

/// The bytes that were shown to the decoder since it was made or last handed out a head are cut
/// nowhere between a carriage return, or blanks behind one, and a blank.
pub open spec fn ops_cut_well(ops: Seq<DecoderOp>) -> bool
    decreases ops.len(),
{
    ops.len() > 0 ==> match ops.last() {
        DecoderOp::Fed(bytes, _) => {
            &&& ops_cut_well(ops.drop_last())
            &&& bytes.len() > 0 && is_blank(bytes[0]) ==> !ends_behind_cr(
                ops_shown(ops.drop_last()),
            )
        },
        _ => true,
    }
}

/// Whether `more` completes the head that `seen` begins: a decoder with the record `begin` that is
/// shown both at once holds a whole head then, and has taken all of `seen` for it and more.
pub open spec fn completes(begin: Seq<DecoderOp>, seen: Seq<u8>, more: Seq<u8>, eos: bool) -> bool {
    let fed = ops_fed(begin, seen + more, eos);
    &&& head_complete(fed)
    &&& decoded_size(fed) matches Some(n) && seen.len() < n
}

/// `bytecodec::io::ReadBuf::new`.
///
/// Claimed of it: the buffer holds no unread byte, and its stream has not ended. An empty buffer
/// has nothing that its storage could fail to hold.
#[verifier::external_body]
fn empty_read_buf(storage: Vec<u8>) -> (r: ReadBuf<Vec<u8>>)
    ensures
        read_buf_sound(r),
        read_buf_bytes(r).len() == 0,
        !read_buf_eos(r),
{
    ReadBuf::new(storage)
}

/// Makes a read buffer without unread bytes, with room for as many as `storage` has.
pub fn new_read_buf(storage: Vec<u8>) -> (r: ReadBuf<Vec<u8>>)
    ensures
        read_buf_sound(r),
        read_buf_bytes(r) == Seq::<u8>::empty(),
        !read_buf_eos(r),
{
    let buf = empty_read_buf(storage);
    proof {
        assert(read_buf_bytes(buf) =~= Seq::<u8>::empty());
    }
    buf
}

/// `httpcodec::RequestDecoder::with_options` with a body decoder that takes no bytes, made lenient
/// towards the end of the stream by `bytecodec::DecodeExt::maybe_eos`.
///
/// Claimed of it: nothing has been done with the decoder but that it was made with these limits.
#[verifier::external_body]
pub(crate) fn new_decoder(options: DecodeOptions) -> (r: HeadDecoder)
    ensures
        decoder_ops(r) == seq![DecoderOp::Created(options)],
{
    let options = httpcodec::DecodeOptions {
        max_start_line_size: options.max_start_line_size,
        max_header_size: options.max_header_size,
    };
    RequestDecoder::with_options(NoBodyDecoder, options).maybe_eos()
}

/// `bytecodec::io::IoDecodeExt::decode_from_read_buf`.
///
/// Claimed of it: the decoder is shown the unread bytes of the buffer and whether the stream has
/// ended. Whether it reports an error, and how many of the bytes it takes, depends on what was
/// done with it alone ([`decoded_size`]). The bytes that it takes leave the buffer, at the front;
/// where it reports an error, the buffer stays as it was. A decoder that has seen no byte of a
/// request reports no error on an empty buffer, even where the stream has ended.
///
/// A head may come in pieces. Where the pieces that were shown so far begin a head that the decoder
/// would take as a whole, it takes all of them and waits for the rest; and as soon as they make up
/// that head, it takes the same bytes and holds the same head as where it had been shown them at
/// once. That the head is the same is not claimed where it was cut before a blank that follows a
/// carriage return: the value of a field may then depend on the cut.
///
/// A buffer whose storage is too short for its unread bytes is left out: the call would panic.
#[verifier::external_body]
pub(crate) fn decode_from_read_buf(decoder: &mut HeadDecoder, buf: &mut ReadBuf<Vec<u8>>) -> (r:
    Result<(), bytecodec::Error>)
    requires
        read_buf_sound(*old(buf)),
    ensures
        ({
            let bytes = read_buf_bytes(*old(buf));
            let fed = decoder_ops(*old(decoder)).push(
                DecoderOp::Fed(bytes, read_buf_eos(*old(buf))),
            );
            match decoded_size(fed) {
                Some(n) => {
                    &&& r is Ok
                    &&& n <= bytes.len()
                    &&& decoder_ops(*final(decoder)) == fed
                    &&& read_buf_bytes(*final(buf)) == bytes.skip(n as int)
                },
                None => {
                    &&& r is Err
                    &&& decoder_ops(*final(decoder)) == fed.push(DecoderOp::Failed)
                    &&& read_buf_bytes(*final(buf)) == bytes
                },
            }
        }),
        read_buf_sound(*final(buf)),
        read_buf_eos(*final(buf)) == read_buf_eos(*old(buf)),
        ops_healthy(decoder_ops(*old(decoder))) && ops_unstarted(decoder_ops(*old(decoder)))
            && read_buf_bytes(*old(buf)).len() == 0 ==> r is Ok,
        ops_healthy(decoder_ops(*old(decoder))) && !read_buf_eos(*old(buf)) ==> forall|
            more: Seq<u8>,
            end: bool,
        |
            #[trigger] completes(
                ops_begin(decoder_ops(*old(decoder))),
                ops_shown(decoder_ops(*old(decoder))) + read_buf_bytes(*old(buf)),
                more,
                end,
            ) ==> {
                &&& r is Ok
                &&& !head_complete(decoder_ops(*final(decoder)))
                &&& read_buf_bytes(*final(buf)).len() == 0
            },
        ({
            let begin = ops_begin(decoder_ops(*old(decoder)));
            let shown = ops_shown(decoder_ops(*old(decoder)));
            let bytes = read_buf_bytes(*old(buf));
            let whole = ops_fed(begin, shown + bytes, read_buf_eos(*old(buf)));
            ops_healthy(decoder_ops(*old(decoder))) && completes(
                begin,
                shown,
                bytes,
                read_buf_eos(*old(buf)),
            ) ==> {
                &&& r is Ok
                &&& head_complete(decoder_ops(*final(decoder)))
                &&& ops_cut_well(decoder_ops(*final(decoder))) ==> head_decoded(
                    decoder_ops(*final(decoder)).push(DecoderOp::Finished),
                ) == head_decoded(whole.push(DecoderOp::Finished))
                &&& read_buf_bytes(*final(buf)) == (shown + bytes).skip(
                    decoded_size(whole)->Some_0 as int,
                )
            }
        }),
{
    decoder.decode_from_read_buf(buf)
}

/// `bytecodec::Decode::is_idle`.
///
/// Claimed of it: the outcome depends on what was done with the decoder alone
/// ([`head_complete`]), and is `false` where it has seen no byte of a request.
#[verifier::external_body]
pub(crate) fn is_idle(decoder: &HeadDecoder) -> (r: bool)
    ensures
        r == head_complete(decoder_ops(*decoder)),
        ops_healthy(decoder_ops(*decoder)) && ops_unstarted(decoder_ops(*decoder)) ==> !r,
{
    decoder.is_idle()
}

/// `bytecodec::Decode::finish_decoding`, and the parts of the `httpcodec::Request` that it hands
/// out.
///
/// Claimed of it: whether it reports an error, and which head it hands out, depends on what was
/// done with the decoder alone ([`head_decoded`]). A decoder that has failed before is left out:
/// it may hand out a head whose parts cannot be read.
#[verifier::external_body]
pub(crate) fn finish_decoding(decoder: &mut HeadDecoder) -> (r: Result<RequestHead, bytecodec::Error>)
    requires
        ops_healthy(decoder_ops(*old(decoder))),
    ensures
        ({
            let asked = decoder_ops(*old(decoder)).push(DecoderOp::Finished);
            match head_decoded(asked) {
                Some(head) => {
                    &&& r matches Ok(h) && h@ == head
                    &&& decoder_ops(*final(decoder)) == asked
                },
                None => {
                    &&& r is Err
                    &&& decoder_ops(*final(decoder)) == asked.push(DecoderOp::Failed)
                },
            }
        }),
{
    let head = decoder.finish_decoding()?;
    Ok(RequestHead {
        method: head.method().as_str().to_owned(),
        target: head.request_target().as_str().to_owned(),
        version: match head.http_version() {
            httpcodec::HttpVersion::V1_0 => HttpVersion::V1_0,
            httpcodec::HttpVersion::V1_1 => HttpVersion::V1_1,
        },
        fields: head.header().fields().map(|f| (f.name().to_owned(), f.value().to_owned())).collect(),
    })
}

/// The entry that showing the unread bytes of a buffer to a decoder adds.
pub open spec fn ops_fed(ops: Seq<DecoderOp>, bytes: Seq<u8>, eos: bool) -> Seq<DecoderOp> {
    ops.push(DecoderOp::Fed(bytes, eos))
}

/// What comes of reading a head: an error, nothing yet, or a head.
pub open spec fn head_outcome(ops: Seq<DecoderOp>, bytes: Seq<u8>, eos: bool) -> Result<
    Option<RequestHeadView>,
    (),
> {
    let fed = ops_fed(ops, bytes, eos);
    match decoded_size(fed) {
        None => Err(()),
        Some(_) => if !head_complete(fed) {
            Ok(None)
        } else {
            match head_decoded(fed.push(DecoderOp::Finished)) {
                None => Err(()),
                Some(head) => Ok(Some(head)),
            }
        },
    }
}

/// What was done with the decoder once a head was read.
pub open spec fn head_ops(ops: Seq<DecoderOp>, bytes: Seq<u8>, eos: bool) -> Seq<DecoderOp> {
    let fed = ops_fed(ops, bytes, eos);
    match decoded_size(fed) {
        None => fed.push(DecoderOp::Failed),
        Some(_) => if !head_complete(fed) {
            fed
        } else {
            match head_decoded(fed.push(DecoderOp::Finished)) {
                None => fed.push(DecoderOp::Finished).push(DecoderOp::Failed),
                Some(_) => fed.push(DecoderOp::Finished),
            }
        },
    }
}

/// The bytes that stay in the buffer once a head was read: those that the decoder did not take.
pub open spec fn head_rest(ops: Seq<DecoderOp>, bytes: Seq<u8>, eos: bool) -> Seq<u8> {
    match decoded_size(ops_fed(ops, bytes, eos)) {
        None => bytes,
        Some(n) => bytes.skip(n as int),
    }
}

/// A decoder that is shown `bytes` as a further piece of a head does with it what it would do with
/// the whole: while the head is not complete, it takes every byte and waits; once the head is
/// complete, the bytes that stay in the buffer, and what comes of the head if it was cut well, are
/// the same as where all the pieces had been shown at once.
pub open spec fn joins_pieces(ops: Seq<DecoderOp>, bytes: Seq<u8>, eos: bool) -> bool {
    let begin = ops_begin(ops);
    let shown = ops_shown(ops);
    &&& forall|more: Seq<u8>, end: bool|
        !eos && #[trigger] completes(begin, shown + bytes, more, end) ==> {
            &&& head_outcome(ops, bytes, eos) == Ok::<Option<RequestHeadView>, ()>(None)
            &&& head_rest(ops, bytes, eos) == Seq::<u8>::empty()
        }
    &&& completes(begin, shown, bytes, eos) ==> {
        &&& ops_cut_well(ops_fed(ops, bytes, eos)) ==> head_outcome(ops, bytes, eos)
            == head_outcome(begin, shown + bytes, eos)
        &&& head_rest(ops, bytes, eos) == head_rest(begin, shown + bytes, eos)
    }
}

/// Shows the unread bytes to the decoder, and asks for the head as soon as it is whole.
///
/// # Errors
///
/// Where the decoder reports an error, the answer is `ErrorKind::Other`.
pub(crate) fn decode_head(decoder: &mut HeadDecoder, buf: &mut ReadBuf<Vec<u8>>) -> (r: Result<
    Option<RequestHead>,
    ErrorKind,
>)
    requires
        ops_healthy(decoder_ops(*old(decoder))),
        read_buf_sound(*old(buf)),
    ensures
        read_buf_sound(*final(buf)),
        ({
            let ops = decoder_ops(*old(decoder));
            let bytes = read_buf_bytes(*old(buf));
            let eos = read_buf_eos(*old(buf));
            &&& match head_outcome(ops, bytes, eos) {
                Err(_) => r == Err::<Option<RequestHead>, ErrorKind>(ErrorKind::Other),
                Ok(None) => r matches Ok(None),
                Ok(Some(head)) => r matches Ok(Some(h)) && h@ == head,
            }
            &&& decoder_ops(*final(decoder)) == head_ops(ops, bytes, eos)
            &&& read_buf_bytes(*final(buf)) == head_rest(ops, bytes, eos)
            &&& read_buf_bytes(*final(buf)).is_suffix_of(bytes)
            &&& read_buf_eos(*final(buf)) == eos
            &&& r is Ok ==> ops_healthy(decoder_ops(*final(decoder)))
            &&& joins_pieces(ops, bytes, eos)
            &&& ops_unstarted(ops) && bytes.len() == 0 ==> r matches Ok(None)
        }),
{
    let decoded = decode_from_read_buf(decoder, buf);
    proof {
        let ops = decoder_ops(*old(decoder));
        let bytes = read_buf_bytes(*old(buf));
        let eos = read_buf_eos(*old(buf));
        assert(head_rest(ops, bytes, eos) == read_buf_bytes(*buf));
        assert forall|more: Seq<u8>, end: bool|
            !eos && #[trigger] completes(
                ops_begin(ops),
                ops_shown(ops) + bytes,
                more,
                end,
            ) implies head_rest(ops, bytes, eos) == Seq::<u8>::empty() by {
            assert(read_buf_bytes(*buf) =~= Seq::<u8>::empty());
        }
    }
    match decoded {
        Err(_) => Err(ErrorKind::Other),
        Ok(()) => {
            proof {
                assert(decoder_ops(*decoder).drop_last() =~= decoder_ops(*old(decoder)));
            }
            if is_idle(decoder) {
                match finish_decoding(decoder) {
                    Ok(head) => Ok(Some(head)),
                    Err(_) => Err(ErrorKind::Other),
                }
            } else {
                Ok(None)
            }
        },
    }
}

} // verus!
