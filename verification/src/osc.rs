//! Datagram ingress: decoding one inbound packet and dispatching it against
//! the color control surface.
//!
//! The embedding program owns the socket and hands each received datagram's
//! bytes to [`handle_datagram`]; everything from decoding onward happens
//! here. Decoding itself is the decoder library's work and is a function of
//! the bytes alone, named [`decoded_of`]; the rules — which message targets
//! count, which argument shapes match, and what they do to the device state
//! — are this module's, and are verified.

use vstd::prelude::*;

use crate::color::Color;
use crate::state::DeviceState;

verus! {

/// The address of the color control surface.
pub open spec fn spec_color_target() -> Seq<char> {
    "/color"@
}

/// One argument of a decoded message, reduced to the plain values the color
/// control surface reads.
///
/// A 32-bit or 64-bit float argument arrives in the device-native encoding,
/// already on the 0–255 scale; the trusted decoder reduces it to its byte
/// value (truncating toward zero, saturating at the bounds), so it is
/// carried here as that byte. A packed color arrives as its four channel
/// bytes: red, green, blue, alpha.
#[derive(Clone, Copy, PartialEq, Eq, Structural, Debug)]
pub enum OscArg {
    Int(i32),
    Float(u8),
    Double(u8),
    Color(u8, u8, u8, u8),
    Unsupported,
}

/// One decoded datagram, reduced to the plain values dispatch reads: a
/// single message's address and argument list, a bundle, or a buffer that
/// does not decode.
pub enum DecodedDatagram {
    Message(String, Vec<OscArg>),
    Bundle,
    Malformed,
}

/// What decoding a datagram's bytes yields. Decoding is deterministic — the
/// decoder library parses the bytes, and the arguments are reduced by fixed
/// casts — so the result is a function of the bytes alone.
pub uninterp spec fn decoded_of(buf: Seq<u8>) -> DecodedDatagram;

/// What handling one datagram did.
#[derive(Clone, Copy, PartialEq, Eq, Structural, Debug)]
pub enum DatagramOutcome {
    /// The datagram matched the color surface and the color was applied.
    Applied(Color),
    /// The datagram matched, the color was assigned, but the driver failed;
    /// the physical output may disagree with the reported color.
    ApplyFailed(Color),
    /// A bundle, another target, or an unmatched argument shape; dropped.
    Ignored,
    /// The datagram could not be decoded; dropped.
    Malformed,
}

/// Relies on `rosc::decoder::decode_udp`: decodes one UDP datagram into an
/// OSC packet, deterministically. A message's address is moved over
/// unchanged and each argument is reduced one for one: the supported kinds
/// keep their payloads, a float or double as its byte value under Rust's
/// float-to-integer cast (truncation toward zero, saturating at the
/// bounds); every other kind is unsupported here. A bundle and a decode
/// failure are told apart from a message.
#[verifier::external_body]
fn decode_packet(buf: &[u8]) -> (r: DecodedDatagram)
    ensures
        r == decoded_of(buf@),
{
    let arg = |a: &rosc::OscType| match a {
        rosc::OscType::Int(v) => OscArg::Int(*v),
        rosc::OscType::Float(v) => OscArg::Float(*v as u8),
        rosc::OscType::Double(v) => OscArg::Double(*v as u8),
        rosc::OscType::Color(c) => OscArg::Color(c.red, c.green, c.blue, c.alpha),
        _ => OscArg::Unsupported,
    };
    match rosc::decoder::decode_udp(buf) {
        Ok((_, rosc::OscPacket::Message(m))) => DecodedDatagram::Message(
            m.addr,
            m.args.iter().map(arg).collect(),
        ),
        Ok((_, rosc::OscPacket::Bundle(_))) => DecodedDatagram::Bundle,
        Err(_) => DecodedDatagram::Malformed,
    }
}

/// The color command an argument list encodes, if the list matches one of
/// the four supported shapes — three integers, three 32-bit floats, three
/// 64-bit floats, or one packed color, in that priority order. Integer
/// channels wrap to their low eight bits; a packed color's alpha byte is
/// discarded.
pub open spec fn spec_color_command(args: Seq<OscArg>) -> Option<Color> {
    if args.len() == 3 {
        match (args[0], args[1], args[2]) {
            (OscArg::Int(r), OscArg::Int(g), OscArg::Int(b)) => Some(
                Color { red: r as u8, green: g as u8, blue: b as u8 },
            ),
            (OscArg::Float(r), OscArg::Float(g), OscArg::Float(b)) => Some(
                Color { red: r, green: g, blue: b },
            ),
            (OscArg::Double(r), OscArg::Double(g), OscArg::Double(b)) => Some(
                Color { red: r, green: g, blue: b },
            ),
            _ => None,
        }
    } else if args.len() == 1 {
        match args[0] {
            OscArg::Color(r, g, b, _alpha) => Some(Color { red: r, green: g, blue: b }),
            _ => None,
        }
    } else {
        None
    }
}

/// Matches an argument list against the four supported encodings and builds
/// the canonical color.
pub fn color_command(args: &Vec<OscArg>) -> (r: Option<Color>)
    ensures
        r == spec_color_command(args@),
{
    if args.len() == 3 {
        match (&args[0], &args[1], &args[2]) {
            (OscArg::Int(r), OscArg::Int(g), OscArg::Int(b)) => Some(
                Color::from_integers(*r, *g, *b),
            ),
            (OscArg::Float(r), OscArg::Float(g), OscArg::Float(b)) => Some(
                Color::new(*r, *g, *b),
            ),
            (OscArg::Double(r), OscArg::Double(g), OscArg::Double(b)) => Some(
                Color::new(*r, *g, *b),
            ),
            _ => None,
        }
    } else if args.len() == 1 {
        match &args[0] {
            OscArg::Color(r, g, b, _alpha) => Some(Color::new(*r, *g, *b)),
            _ => None,
        }
    } else {
        None
    }
}

/// What dispatching one message with the given address and arguments does:
/// a message addressed to the color surface whose arguments match a
/// supported shape sets the device's color — recorded as one whole accepted
/// update — and yields the applied color (or the driver's failure with that
/// color); any other message leaves the state exactly as it was and is
/// dropped.
pub open spec fn dispatch_post(
    pre: DeviceState,
    post: DeviceState,
    addr: Seq<char>,
    args: Seq<OscArg>,
    r: DatagramOutcome,
) -> bool {
    &&& post.wf()
    &&& post.is_attached() == pre.is_attached()
    &&& post.initial_spec() == pre.initial_spec()
    &&& match spec_color_command(args) {
        Some(c) => if addr == spec_color_target() {
            &&& post.color_spec() == c
            &&& post.attempted_spec() == Some(c)
            &&& post.updates_spec() == pre.updates_spec().push(c)
            &&& (r == DatagramOutcome::Applied(c) || r == DatagramOutcome::ApplyFailed(c))
            &&& (!pre.is_attached() ==> r == DatagramOutcome::Applied(c))
        } else {
            post == pre && r == DatagramOutcome::Ignored
        },
        None => post == pre && r == DatagramOutcome::Ignored,
    }
}

/// Dispatches one decoded message, as [`dispatch_post`] states.
pub fn dispatch_message(state: &mut DeviceState, addr: &String, args: &Vec<OscArg>) -> (r:
    DatagramOutcome)
    requires
        old(state).wf(),
    ensures
        dispatch_post(*old(state), *final(state), addr@, args@, r),
{
    let target: String = "/color".to_owned();
    if addr.eq(&target) {
        match color_command(args) {
            Some(c) => match state.set(c) {
                Ok(_) => DatagramOutcome::Applied(c),
                Err(_) => DatagramOutcome::ApplyFailed(c),
            },
            None => DatagramOutcome::Ignored,
        }
    } else {
        DatagramOutcome::Ignored
    }
}

/// Handles one raw inbound datagram. What the bytes decode to — named by
/// [`decoded_of`] — fixes what happens: a single message is dispatched as
/// [`dispatch_post`] states; a bundle is dropped and the state untouched; a
/// buffer that does not decode is reported malformed and the state
/// untouched. Malformed input is never an error of this function: the loop
/// around it goes on.
pub fn handle_datagram(state: &mut DeviceState, buf: &[u8]) -> (r: DatagramOutcome)
    requires
        old(state).wf(),
    ensures
        final(state).wf(),
        final(state).is_attached() == old(state).is_attached(),
        final(state).initial_spec() == old(state).initial_spec(),
        match decoded_of(buf@) {
            DecodedDatagram::Message(a, s) => dispatch_post(
                *old(state),
                *final(state),
                a@,
                s@,
                r,
            ),
            DecodedDatagram::Bundle => *final(state) == *old(state) && r
                == DatagramOutcome::Ignored,
            DecodedDatagram::Malformed => *final(state) == *old(state) && r
                == DatagramOutcome::Malformed,
        },
{
    match decode_packet(buf) {
        DecodedDatagram::Message(addr, args) => dispatch_message(state, &addr, &args),
        DecodedDatagram::Bundle => DatagramOutcome::Ignored,
        DecodedDatagram::Malformed => DatagramOutcome::Malformed,
    }
}

} // verus!
