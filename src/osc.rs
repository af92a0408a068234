use vstd::prelude::*;

verus! {

#[verifier::external_type_specification]
#[verifier::external_body]
pub struct ExOscType(rosc::OscType);

#[verifier::external_type_specification]
#[verifier::external_body]
pub struct ExOscBundle(rosc::OscBundle);

#[verifier::external_type_specification]
#[verifier::external_body]
pub struct ExOscError(rosc::OscError);

/// One positional argument of a message. Integers and strings are the
/// types this protocol uses; any other OSC type is carried as it came.
#[derive(Debug, PartialEq)]
pub enum Arg {
    Int(i32),
    Str(String),
    Other(rosc::OscType),
}

/// An address-routed message with its ordered arguments.
#[derive(Debug, PartialEq)]
pub struct Message {
    pub addr: String,
    pub args: Vec<Arg>,
}

/// A decoded datagram: a single message, or a bundle, which this
/// protocol does not use.
#[derive(Debug, PartialEq)]
pub enum Packet {
    Message(Message),
    Bundle(rosc::OscBundle),
}

/// Failure of the wire codec.
#[derive(Debug)]
pub enum CodecError {
    Encoding(rosc::OscError),
    Decoding(rosc::OscError),
}

/// The bytes that the OSC encoder produces for a message.
pub uninterp spec fn osc_encoding(addr: Seq<char>, args: Seq<Arg>) -> Seq<u8>;

/// The packet that the OSC decoder reads from a datagram, if it is well formed.
pub uninterp spec fn osc_decoding(bytes: Seq<u8>) -> Option<Packet>;

/// Relies on rosc::encoder::encode, which encodes a message into a buffer
/// that cannot fail to take it, and so always returns `Ok`.
#[verifier::external_body]
fn osc_encode(m: &Message) -> (r: Result<Vec<u8>, rosc::OscError>)
    ensures
        r is Ok,
        r is Ok ==> r->Ok_0@ == osc_encoding(m.addr@, m.args@),
{
    let args = m.args.iter().map(|a| match a {
        Arg::Int(i) => rosc::OscType::Int(*i),
        Arg::Str(s) => rosc::OscType::String(s.clone()),
        Arg::Other(t) => t.clone(),
    }).collect();
    let msg = rosc::OscMessage { addr: m.addr.clone(), args };
    rosc::encoder::encode(&rosc::OscPacket::Message(msg))
}

/// Relies on rosc::decoder::decode_udp, whose result depends on the bytes
/// alone; bytes after the first packet are ignored, as in a datagram.
#[verifier::external_body]
fn osc_decode(b: &[u8]) -> (r: Result<Packet, rosc::OscError>)
    ensures
        match r {
            Ok(p) => osc_decoding(b@) == Some(p),
            Err(_) => osc_decoding(b@) is None,
        },
{
    match rosc::decoder::decode_udp(b) {
        Ok((_, rosc::OscPacket::Message(m))) => Ok(Packet::Message(Message {
            addr: m.addr,
            args: m.args.into_iter().map(|a| match a {
                rosc::OscType::Int(i) => Arg::Int(i),
                rosc::OscType::String(s) => Arg::Str(s),
                t => Arg::Other(t),
            }).collect(),
        })),
        Ok((_, rosc::OscPacket::Bundle(bundle))) => Ok(Packet::Bundle(bundle)),
        Err(e) => Err(e),
    }
}

/// Encodes a message into the bytes of one datagram.
pub fn encode_message(m: &Message) -> (r: Result<Vec<u8>, CodecError>)
    ensures
        r matches Ok(b) && b@ == osc_encoding(m.addr@, m.args@),
{
    match osc_encode(m) {
        Ok(b) => Ok(b),
        Err(e) => Err(CodecError::Encoding(e)),
    }
}

/// Decodes the bytes of one datagram; fails exactly when they are not a
/// well-formed packet.
pub fn decode_packet(b: &[u8]) -> (r: Result<Packet, CodecError>)
    ensures
        match r {
            Ok(p) => osc_decoding(b@) == Some(p),
            Err(e) => osc_decoding(b@) is None && e is Decoding,
        },
{
    match osc_decode(b) {
        Ok(p) => Ok(p),
        Err(e) => Err(CodecError::Decoding(e)),
    }
}

} // verus!
