//! The NPDU envelope: the network-layer frame around a content payload.
//!
//! The wire layout is fixed by the protocol: a version byte (always 1), a
//! control byte whose bits announce the optional blocks, an optional
//! destination block, an optional source block, then — only when a
//! destination is present, and only after both blocks — a hop-count byte,
//! and finally the content.  The spec functions in this module state that
//! layout once, and both the encoder and the length report are proved
//! against it.

use vstd::prelude::*;

use crate::codec::{DecodeError, Encode};

verus! {

/// Network-layer message priority, a two-bit field of the control byte.
#[derive(Clone, Copy, Debug, PartialEq, Eq, Structural)]
pub enum NPDUPriority {
    LifeSafety,
    CriticalEquipment,
    Urgent,
    Normal,
}

/// The two control-byte bits a priority encodes to.
pub open spec fn priority_bits(p: NPDUPriority) -> u8 {
    match p {
        NPDUPriority::LifeSafety => 3,
        NPDUPriority::CriticalEquipment => 2,
        NPDUPriority::Urgent => 1,
        NPDUPriority::Normal => 0,
    }
}

/// The priority a two-bit field decodes to.  All four patterns are valid,
/// so this mapping has no failure case; inputs above 3 do not arise from a
/// masked control byte and fall back to `Normal`.
pub open spec fn priority_of_bits(b: u8) -> NPDUPriority {
    if b == 3 {
        NPDUPriority::LifeSafety
    } else if b == 2 {
        NPDUPriority::CriticalEquipment
    } else if b == 1 {
        NPDUPriority::Urgent
    } else {
        NPDUPriority::Normal
    }
}

impl NPDUPriority {
    /// The priority's two control-byte bits.
    pub fn to_bits(self) -> (b: u8)
        ensures
            b == priority_bits(self),
            b <= 3,
    {
        match self {
            NPDUPriority::LifeSafety => 3,
            NPDUPriority::CriticalEquipment => 2,
            NPDUPriority::Urgent => 1,
            NPDUPriority::Normal => 0,
        }
    }

    /// The priority named by a two-bit field.
    pub fn from_bits(b: u8) -> (p: NPDUPriority)
        ensures
            p == priority_of_bits(b),
    {
        if b == 3 {
            NPDUPriority::LifeSafety
        } else if b == 2 {
            NPDUPriority::CriticalEquipment
        } else if b == 1 {
            NPDUPriority::Urgent
        } else {
            NPDUPriority::Normal
        }
    }
}

impl From<NPDUPriority> for u8 {
    fn from(val: NPDUPriority) -> (r: Self) {
        val.to_bits()
    }
}

impl vstd::std_specs::convert::FromSpecImpl<NPDUPriority> for u8 {
    open spec fn obeys_from_spec() -> bool {
        true
    }

    open spec fn from_spec(v: NPDUPriority) -> Self {
        priority_bits(v)
    }
}

impl Default for NPDUPriority {
    fn default() -> (r: Self)
        ensures
            r == NPDUPriority::Normal,
    {
        NPDUPriority::Normal
    }
}

/// Every two-bit priority field decodes to the priority that encodes back
/// to it, and every priority round-trips through its bits.
pub proof fn lemma_priority_bits_roundtrip(p: NPDUPriority, b: u8)
    requires
        b <= 3,
    ensures
        priority_of_bits(priority_bits(p)) == p,
        priority_bits(priority_of_bits(b)) == b,
{
}

/// A network-layer control message type.  The twenty named codes cover
/// 0x00 to 0x13; codes 0x14 to 0x7F stay `Reserved(code)` and 0x80 to 0xFF
/// `Proprietary(code)`, so every byte decodes and round-trips exactly.
#[derive(Clone, Copy, Debug, PartialEq, Eq, Structural)]
pub enum NPDUMessage {
    WhoIsRouterToNetwork,
    IAmRouterToNetwork,
    ICouldBeRouterToNetwork,
    RejectMessageToNetwork,
    RouterBusyToNetwork,
    RouterAvailableToNetwork,
    InitializeRoutingTable,
    InitializeRoutingTableAck,
    EstablishConnectionToNetwork,
    DisconnectConnectionToNetwork,
    ChallengeRequest,
    SecurityPayload,
    SecurityResponse,
    RequestKeyUpdate,
    UpdateKeySet,
    UpdateDistributionKey,
    RequestMasterKey,
    SetMasterKey,
    WhatIsNetworkNumber,
    NetworkNumberIs,
    Proprietary(u8),
    Reserved(u8),
}

/// The byte a control-message type encodes to.
pub open spec fn message_code(m: NPDUMessage) -> u8 {
    match m {
        NPDUMessage::WhoIsRouterToNetwork => 0x00,
        NPDUMessage::IAmRouterToNetwork => 0x01,
        NPDUMessage::ICouldBeRouterToNetwork => 0x02,
        NPDUMessage::RejectMessageToNetwork => 0x03,
        NPDUMessage::RouterBusyToNetwork => 0x04,
        NPDUMessage::RouterAvailableToNetwork => 0x05,
        NPDUMessage::InitializeRoutingTable => 0x06,
        NPDUMessage::InitializeRoutingTableAck => 0x07,
        NPDUMessage::EstablishConnectionToNetwork => 0x08,
        NPDUMessage::DisconnectConnectionToNetwork => 0x09,
        NPDUMessage::ChallengeRequest => 0x0A,
        NPDUMessage::SecurityPayload => 0x0B,
        NPDUMessage::SecurityResponse => 0x0C,
        NPDUMessage::RequestKeyUpdate => 0x0D,
        NPDUMessage::UpdateKeySet => 0x0E,
        NPDUMessage::UpdateDistributionKey => 0x0F,
        NPDUMessage::RequestMasterKey => 0x10,
        NPDUMessage::SetMasterKey => 0x11,
        NPDUMessage::WhatIsNetworkNumber => 0x12,
        NPDUMessage::NetworkNumberIs => 0x13,
        NPDUMessage::Proprietary(v) => v,
        NPDUMessage::Reserved(v) => v,
    }
}

/// The control-message type a byte decodes to.  Total: unnamed codes route
/// to the `Reserved` and `Proprietary` catch-alls instead of failing.
pub open spec fn message_of_byte(b: u8) -> NPDUMessage {
    if b == 0x00 {
        NPDUMessage::WhoIsRouterToNetwork
    } else if b == 0x01 {
        NPDUMessage::IAmRouterToNetwork
    } else if b == 0x02 {
        NPDUMessage::ICouldBeRouterToNetwork
    } else if b == 0x03 {
        NPDUMessage::RejectMessageToNetwork
    } else if b == 0x04 {
        NPDUMessage::RouterBusyToNetwork
    } else if b == 0x05 {
        NPDUMessage::RouterAvailableToNetwork
    } else if b == 0x06 {
        NPDUMessage::InitializeRoutingTable
    } else if b == 0x07 {
        NPDUMessage::InitializeRoutingTableAck
    } else if b == 0x08 {
        NPDUMessage::EstablishConnectionToNetwork
    } else if b == 0x09 {
        NPDUMessage::DisconnectConnectionToNetwork
    } else if b == 0x0A {
        NPDUMessage::ChallengeRequest
    } else if b == 0x0B {
        NPDUMessage::SecurityPayload
    } else if b == 0x0C {
        NPDUMessage::SecurityResponse
    } else if b == 0x0D {
        NPDUMessage::RequestKeyUpdate
    } else if b == 0x0E {
        NPDUMessage::UpdateKeySet
    } else if b == 0x0F {
        NPDUMessage::UpdateDistributionKey
    } else if b == 0x10 {
        NPDUMessage::RequestMasterKey
    } else if b == 0x11 {
        NPDUMessage::SetMasterKey
    } else if b == 0x12 {
        NPDUMessage::WhatIsNetworkNumber
    } else if b == 0x13 {
        NPDUMessage::NetworkNumberIs
    } else if b <= 0x7F {
        NPDUMessage::Reserved(b)
    } else {
        NPDUMessage::Proprietary(b)
    }
}

impl NPDUMessage {
    /// The message type named by a byte.  Every byte names one, so this
    /// always succeeds; the `Result` keeps the shape a caller of a decoder
    /// expects.
    pub fn try_from(v: u8) -> (r: Result<NPDUMessage, DecodeError>)
        ensures
            r == Ok::<NPDUMessage, DecodeError>(message_of_byte(v)),
    {
        if v == 0x00 {
            Ok(NPDUMessage::WhoIsRouterToNetwork)
        } else if v == 0x01 {
            Ok(NPDUMessage::IAmRouterToNetwork)
        } else if v == 0x02 {
            Ok(NPDUMessage::ICouldBeRouterToNetwork)
        } else if v == 0x03 {
            Ok(NPDUMessage::RejectMessageToNetwork)
        } else if v == 0x04 {
            Ok(NPDUMessage::RouterBusyToNetwork)
        } else if v == 0x05 {
            Ok(NPDUMessage::RouterAvailableToNetwork)
        } else if v == 0x06 {
            Ok(NPDUMessage::InitializeRoutingTable)
        } else if v == 0x07 {
            Ok(NPDUMessage::InitializeRoutingTableAck)
        } else if v == 0x08 {
            Ok(NPDUMessage::EstablishConnectionToNetwork)
        } else if v == 0x09 {
            Ok(NPDUMessage::DisconnectConnectionToNetwork)
        } else if v == 0x0A {
            Ok(NPDUMessage::ChallengeRequest)
        } else if v == 0x0B {
            Ok(NPDUMessage::SecurityPayload)
        } else if v == 0x0C {
            Ok(NPDUMessage::SecurityResponse)
        } else if v == 0x0D {
            Ok(NPDUMessage::RequestKeyUpdate)
        } else if v == 0x0E {
            Ok(NPDUMessage::UpdateKeySet)
        } else if v == 0x0F {
            Ok(NPDUMessage::UpdateDistributionKey)
        } else if v == 0x10 {
            Ok(NPDUMessage::RequestMasterKey)
        } else if v == 0x11 {
            Ok(NPDUMessage::SetMasterKey)
        } else if v == 0x12 {
            Ok(NPDUMessage::WhatIsNetworkNumber)
        } else if v == 0x13 {
            Ok(NPDUMessage::NetworkNumberIs)
        } else if v <= 0x7F {
            Ok(NPDUMessage::Reserved(v))
        } else {
            Ok(NPDUMessage::Proprietary(v))
        }
    }

    /// The message type's wire byte.
    pub fn code(&self) -> (b: u8)
        ensures
            b == message_code(*self),
    {
        match self {
            NPDUMessage::WhoIsRouterToNetwork => 0x00,
            NPDUMessage::IAmRouterToNetwork => 0x01,
            NPDUMessage::ICouldBeRouterToNetwork => 0x02,
            NPDUMessage::RejectMessageToNetwork => 0x03,
            NPDUMessage::RouterBusyToNetwork => 0x04,
            NPDUMessage::RouterAvailableToNetwork => 0x05,
            NPDUMessage::InitializeRoutingTable => 0x06,
            NPDUMessage::InitializeRoutingTableAck => 0x07,
            NPDUMessage::EstablishConnectionToNetwork => 0x08,
            NPDUMessage::DisconnectConnectionToNetwork => 0x09,
            NPDUMessage::ChallengeRequest => 0x0A,
            NPDUMessage::SecurityPayload => 0x0B,
            NPDUMessage::SecurityResponse => 0x0C,
            NPDUMessage::RequestKeyUpdate => 0x0D,
            NPDUMessage::UpdateKeySet => 0x0E,
            NPDUMessage::UpdateDistributionKey => 0x0F,
            NPDUMessage::RequestMasterKey => 0x10,
            NPDUMessage::SetMasterKey => 0x11,
            NPDUMessage::WhatIsNetworkNumber => 0x12,
            NPDUMessage::NetworkNumberIs => 0x13,
            NPDUMessage::Proprietary(v) => *v,
            NPDUMessage::Reserved(v) => *v,
        }
    }
}

/// Encoding the message type a byte decodes to reproduces that byte
/// exactly, for every byte value.
pub proof fn lemma_message_byte_roundtrip(b: u8)
    ensures
        message_code(message_of_byte(b)) == b,
{
}

/// A message type is canonical when its catch-all variants carry only the
/// codes that decode to them: `Reserved` one of 0x14 to 0x7F, and
/// `Proprietary` one of 0x80 to 0xFF.
pub open spec fn message_canonical(m: NPDUMessage) -> bool {
    match m {
        NPDUMessage::Reserved(c) => 0x14 <= c && c <= 0x7F,
        NPDUMessage::Proprietary(c) => c >= 0x80,
        _ => true,
    }
}

/// Decoding the byte any message type encodes to reproduces an equivalent
/// type: one with the same code always, and the type itself whenever it is
/// canonical.
pub proof fn lemma_message_kind_roundtrip(m: NPDUMessage)
    ensures
        message_code(message_of_byte(message_code(m))) == message_code(m),
        message_canonical(m) ==> message_of_byte(message_code(m)) == m,
{
}

impl Encode for NPDUMessage {
    open spec fn wire(&self) -> Seq<u8> {
        seq![message_code(*self)]
    }

    open spec fn encodable(&self) -> bool {
        true
    }

    fn encode(&self, buf: &mut Vec<u8>) {
        let b = self.code();
        buf.push(b);
        proof {
            assert(buf@ =~= old(buf)@ + self.wire());
        }
    }

    fn len(&self) -> (n: usize) {
        1
    }
}

/// The destination routing block: a network number, a length-prefixed
/// address, and the hop count that trails the whole addressing section on
/// the wire.  A freshly constructed destination starts with 255 hops.
#[derive(Clone, Debug, PartialEq, Eq)]
pub struct NPDUDest {
    pub net: u16,
    pub adr: Vec<u8>,
    pub hops: u8,
}

impl NPDUDest {
    pub fn new(net: u16, capacity: usize) -> (r: Self)
        ensures
            r.net == net,
            r.adr@ == Seq::<u8>::empty(),
            r.hops == 255,
    {
        NPDUDest { net, adr: Vec::with_capacity(capacity), hops: 255 }
    }
}

/// The source routing block: a network number and a length-prefixed
/// address.
#[derive(Clone, Debug, Default, PartialEq, Eq)]
pub struct NPDUSource {
    pub net: u16,
    pub adr: Vec<u8>,
}

impl NPDUSource {
    pub fn new(net: u16, capacity: usize) -> (r: Self)
        ensures
            r.net == net,
            r.adr@ == Seq::<u8>::empty(),
    {
        NPDUSource { net, adr: Vec::with_capacity(capacity) }
    }
}

/// An application-layer payload.  The envelope treats it as opaque: its
/// wire form is exactly the bytes it holds.
#[derive(Clone, Debug, PartialEq, Eq)]
pub struct Apdu {
    pub bytes: Vec<u8>,
}

impl Apdu {
    pub fn new(bytes: Vec<u8>) -> (r: Self)
        ensures
            r.bytes@ == bytes@,
    {
        Apdu { bytes }
    }
}

/// The envelope's payload: an application payload or a network-layer
/// control message.  Exactly one variant is active per NPDU.
#[derive(Clone, Debug, PartialEq, Eq)]
pub enum NPDUContent {
    APDU(Apdu),
    Message(NPDUMessage),
}

impl From<Apdu> for NPDUContent {
    fn from(apdu: Apdu) -> (r: Self) {
        NPDUContent::APDU(apdu)
    }
}

impl vstd::std_specs::convert::FromSpecImpl<Apdu> for NPDUContent {
    open spec fn obeys_from_spec() -> bool {
        true
    }

    open spec fn from_spec(v: Apdu) -> Self {
        NPDUContent::APDU(v)
    }
}

/// The network-layer frame: version, optional addressing, the
/// data-expecting-reply flag, a priority, and the content payload.
#[derive(Clone, Debug, PartialEq, Eq)]
pub struct NPDU {
    /// Protocol version; written as and expected to be 1.
    pub version: u8,
    pub destination: Option<NPDUDest>,
    pub source: Option<NPDUSource>,
    pub data_expecting_reply: bool,
    pub priority: NPDUPriority,
    pub content: NPDUContent,
}

impl NPDU {
    pub fn new(
        content: NPDUContent,
        destination: Option<NPDUDest>,
        source: Option<NPDUSource>,
        priority: NPDUPriority,
    ) -> (r: Self)
        ensures
            r.version == 1,
            r.destination == destination,
            r.source == source,
            r.data_expecting_reply == false,
            r.priority == priority,
            r.content == content,
    {
        NPDU {
            version: 1,
            content,
            destination,
            source,
            data_expecting_reply: false,
            priority,
        }
    }
}

/// The mathematical value of a destination block.
#[verifier::ext_equal]
pub struct DestModel {
    pub net: u16,
    pub adr: Seq<u8>,
    pub hops: u8,
}

/// The mathematical value of a source block.
#[verifier::ext_equal]
pub struct SourceModel {
    pub net: u16,
    pub adr: Seq<u8>,
}

/// The mathematical value of a content payload.
#[verifier::ext_equal]
pub enum ContentModel {
    Apdu(Seq<u8>),
    Message(NPDUMessage),
}

/// The mathematical value of a frame: what the wire format is stated over.
#[verifier::ext_equal]
pub struct NpduModel {
    pub version: u8,
    pub destination: Option<DestModel>,
    pub source: Option<SourceModel>,
    pub data_expecting_reply: bool,
    pub priority: NPDUPriority,
    pub content: ContentModel,
}

impl View for NPDUDest {
    type V = DestModel;

    open spec fn view(&self) -> DestModel {
        DestModel { net: self.net, adr: self.adr@, hops: self.hops }
    }
}

impl View for NPDUSource {
    type V = SourceModel;

    open spec fn view(&self) -> SourceModel {
        SourceModel { net: self.net, adr: self.adr@ }
    }
}

impl View for NPDUContent {
    type V = ContentModel;

    open spec fn view(&self) -> ContentModel {
        match self {
            NPDUContent::APDU(a) => ContentModel::Apdu(a.bytes@),
            NPDUContent::Message(m) => ContentModel::Message(*m),
        }
    }
}

impl View for NPDU {
    type V = NpduModel;

    open spec fn view(&self) -> NpduModel {
        NpduModel {
            version: self.version,
            destination: match self.destination {
                Some(d) => Some(d@),
                None => None,
            },
            source: match self.source {
                Some(s) => Some(s@),
                None => None,
            },
            data_expecting_reply: self.data_expecting_reply,
            priority: self.priority,
            content: self.content@,
        }
    }
}

/// A 16-bit value in big-endian byte order.
pub open spec fn be16(v: u16) -> Seq<u8> {
    seq![(v >> 8) as u8, (v & 0xff) as u8]
}

/// Each address fits its one-byte length prefix.
pub open spec fn npdu_wf(n: NpduModel) -> bool {
    &&& match n.destination {
        Some(d) => d.adr.len() <= 255,
        None => true,
    }
    &&& match n.source {
        Some(s) => s.adr.len() <= 255,
        None => true,
    }
}

/// The control byte: bits 0 and 1 carry the priority, bit 2 the
/// data-expecting-reply flag, bit 3 source presence, bit 5 destination
/// presence, and bit 7 whether the content is a control message.  The
/// summands occupy disjoint bits, so the sum equals the bitwise-or.
pub open spec fn control_byte(n: NpduModel) -> u8 {
    (priority_bits(n.priority) + (if n.data_expecting_reply {
        4int
    } else {
        0int
    }) + (if n.source is Some {
        8int
    } else {
        0int
    }) + (if n.destination is Some {
        32int
    } else {
        0int
    }) + (if n.content is Message {
        128int
    } else {
        0int
    })) as u8
}

/// The bytes of a destination block, without the trailing hop count.
pub open spec fn dest_block(d: DestModel) -> Seq<u8> {
    be16(d.net) + seq![d.adr.len() as u8] + d.adr
}

/// The bytes of a source block.
pub open spec fn source_block(s: SourceModel) -> Seq<u8> {
    be16(s.net) + seq![s.adr.len() as u8] + s.adr
}

/// The bytes of a content payload.
pub open spec fn content_wire(c: ContentModel) -> Seq<u8> {
    match c {
        ContentModel::Apdu(b) => b,
        ContentModel::Message(m) => seq![message_code(m)],
    }
}

/// The full wire form of a frame: version, control byte, the optional
/// destination and source blocks, then — only with a destination, and only
/// after both blocks — the hop count, then the content.
pub open spec fn npdu_wire(n: NpduModel) -> Seq<u8> {
    seq![n.version, control_byte(n)] + (match n.destination {
        Some(d) => dest_block(d),
        None => Seq::<u8>::empty(),
    }) + (match n.source {
        Some(s) => source_block(s),
        None => Seq::<u8>::empty(),
    }) + (match n.destination {
        Some(d) => seq![d.hops],
        None => Seq::<u8>::empty(),
    }) + content_wire(n.content)
}

/// What an address block starting at `off` parses to: the network number,
/// the address bytes the length prefix announces, and the offset just past
/// the block.  Fails with `Truncated` when fewer bytes remain than the
/// block needs; nothing past the end of `b` is read.
pub open spec fn parse_addr(b: Seq<u8>, off: int) -> Result<(u16, Seq<u8>, int), DecodeError> {
    if b.len() < off + 3 {
        Err(DecodeError::Truncated)
    } else {
        let net = ((b[off] as int) * 256 + (b[off + 1] as int)) as u16;
        let alen = b[off + 2] as int;
        if b.len() < off + 3 + alen {
            Err(DecodeError::Truncated)
        } else {
            Ok((net, b.subrange(off + 3, off + 3 + alen), off + 3 + alen))
        }
    }
}

/// The tail of a frame after the addressing blocks: the hop count — read
/// only when a destination is present, and only after the source block —
/// then the content.
pub open spec fn parse_tail(
    b: Seq<u8>,
    off: int,
    version: u8,
    priority: NPDUPriority,
    der: bool,
    is_msg: bool,
    dest: Option<(u16, Seq<u8>)>,
    source: Option<SourceModel>,
) -> Result<NpduModel, DecodeError> {
    match dest {
        Some((dnet, dadr)) => {
            if b.len() < off + 1 {
                Err(DecodeError::Truncated)
            } else {
                parse_content(
                    b,
                    off + 1,
                    version,
                    priority,
                    der,
                    is_msg,
                    Some(DestModel { net: dnet, adr: dadr, hops: b[off] }),
                    source,
                )
            }
        },
        None => parse_content(b, off, version, priority, der, is_msg, None, source),
    }
}

/// The content of a frame, beginning at `off`.  An application payload is
/// the whole remainder of the input; control-message content is a
/// recognized capability gap and fails with `Unimplemented`.
pub open spec fn parse_content(
    b: Seq<u8>,
    off: int,
    version: u8,
    priority: NPDUPriority,
    der: bool,
    is_msg: bool,
    dest: Option<DestModel>,
    source: Option<SourceModel>,
) -> Result<NpduModel, DecodeError> {
    if is_msg {
        Err(DecodeError::Unimplemented)
    } else {
        Ok(
            NpduModel {
                version,
                destination: dest,
                source,
                data_expecting_reply: der,
                priority,
                content: ContentModel::Apdu(b.subrange(off, b.len() as int)),
            },
        )
    }
}

/// What a byte sequence parses to as a frame.  The control byte read up
/// front decides which optional blocks follow; every short read fails with
/// `Truncated` at the field where the input ran out.
pub open spec fn parse_npdu(b: Seq<u8>) -> Result<NpduModel, DecodeError> {
    if b.len() < 2 {
        Err(DecodeError::Truncated)
    } else {
        let version = b[0];
        let control = b[1];
        let priority = priority_of_bits(control & 3);
        let der = control & 4 != 0;
        let has_src = control & 8 != 0;
        let has_dst = control & 32 != 0;
        let is_msg = control & 128 != 0;
        if has_dst {
            match parse_addr(b, 2) {
                Err(e) => Err(e),
                Ok((dnet, dadr, off1)) => if has_src {
                    match parse_addr(b, off1) {
                        Err(e) => Err(e),
                        Ok((snet, sadr, off2)) => parse_tail(
                            b,
                            off2,
                            version,
                            priority,
                            der,
                            is_msg,
                            Some((dnet, dadr)),
                            Some(SourceModel { net: snet, adr: sadr }),
                        ),
                    }
                } else {
                    parse_tail(b, off1, version, priority, der, is_msg, Some((dnet, dadr)), None)
                },
            }
        } else {
            if has_src {
                match parse_addr(b, 2) {
                    Err(e) => Err(e),
                    Ok((snet, sadr, off2)) => parse_tail(
                        b,
                        off2,
                        version,
                        priority,
                        der,
                        is_msg,
                        None,
                        Some(SourceModel { net: snet, adr: sadr }),
                    ),
                }
            } else {
                parse_tail(b, 2, version, priority, der, is_msg, None, None)
            }
        }
    }
}

/// The frame's byte count in closed form: two bytes of version and
/// control, four plus the address length for a destination (its network
/// number, length prefix, address, and the trailing hop count), three plus
/// the address length for a source, and the content's own count.  `encode`
/// appends exactly `npdu_wire` and `len` reports exactly its length, so
/// the two can never diverge from each other or from this formula.
pub proof fn lemma_npdu_wire_length(n: NpduModel)
    ensures
        npdu_wire(n).len() == 2 + (match n.destination {
            Some(d) => 4 + d.adr.len(),
            None => 0,
        }) + (match n.source {
            Some(s) => 3 + s.adr.len(),
            None => 0,
        }) + content_wire(n.content).len(),
{
}

/// Appends `v` in big-endian byte order.
fn push_be16(buf: &mut Vec<u8>, v: u16)
    ensures
        final(buf)@ == old(buf)@ + be16(v),
{
    buf.push((v >> 8) as u8);
    buf.push((v & 0xff) as u8);
    proof {
        assert(buf@ =~= old(buf)@ + be16(v));
    }
}

/// Appends a copy of `bytes`.
fn push_bytes(buf: &mut Vec<u8>, bytes: &Vec<u8>)
    ensures
        final(buf)@ == old(buf)@ + bytes@,
{
    let ghost buf0 = buf@;
    let mut i: usize = 0;
    while i < bytes.len()
        invariant
            i <= bytes.len(),
            buf@ == buf0 + bytes@.subrange(0, i as int),
        decreases bytes.len() - i,
    {
        buf.push(bytes[i]);
        proof {
            assert(buf@ =~= buf0 + bytes@.subrange(0, i + 1));
        }
        i = i + 1;
    }
    proof {
        assert(buf@ =~= buf0 + bytes@);
    }
}

impl Encode for Apdu {
    open spec fn wire(&self) -> Seq<u8> {
        self.bytes@
    }

    open spec fn encodable(&self) -> bool {
        true
    }

    fn encode(&self, buf: &mut Vec<u8>) {
        push_bytes(buf, &self.bytes);
    }

    fn len(&self) -> (n: usize) {
        self.bytes.len()
    }
}

impl Encode for NPDUContent {
    open spec fn wire(&self) -> Seq<u8> {
        content_wire(self@)
    }

    open spec fn encodable(&self) -> bool {
        true
    }

    fn encode(&self, buf: &mut Vec<u8>) {
        match self {
            NPDUContent::APDU(apdu) => apdu.encode(buf),
            NPDUContent::Message(msg) => msg.encode(buf),
        }
    }

    fn len(&self) -> (n: usize) {
        match self {
            NPDUContent::APDU(apdu) => apdu.len(),
            NPDUContent::Message(msg) => msg.len(),
        }
    }
}

impl NPDU {
    /// The frame's control byte, derived from presence and flags.
    pub fn control(&self) -> (c: u8)
        ensures
            c == control_byte(self@),
    {
        let mut c: u8 = self.priority.to_bits();
        if self.data_expecting_reply {
            c = c + 4;
        }
        if self.source.is_some() {
            c = c + 8;
        }
        if self.destination.is_some() {
            c = c + 32;
        }
        let is_msg = match &self.content {
            NPDUContent::Message(_) => true,
            NPDUContent::APDU(_) => false,
        };
        if is_msg {
            c = c + 128;
        }
        c
    }
}

impl Encode for NPDU {
    open spec fn wire(&self) -> Seq<u8> {
        npdu_wire(self@)
    }

    open spec fn encodable(&self) -> bool {
        npdu_wf(self@)
    }

    fn encode(&self, buf: &mut Vec<u8>) {
        let ghost buf0 = buf@;
        buf.push(self.version);
        let c = self.control();
        buf.push(c);
        proof {
            assert(buf@ =~= buf0 + seq![self.version, control_byte(self@)]);
        }
        match &self.destination {
            Some(d) => {
                push_be16(buf, d.net);
                buf.push(d.adr.len() as u8);
                push_bytes(buf, &d.adr);
            },
            None => {},
        }
        proof {
            assert(buf@ =~= buf0 + seq![self.version, control_byte(self@)] + (match self@.destination {
                Some(d) => dest_block(d),
                None => Seq::<u8>::empty(),
            }));
        }
        match &self.source {
            Some(s) => {
                push_be16(buf, s.net);
                buf.push(s.adr.len() as u8);
                push_bytes(buf, &s.adr);
            },
            None => {},
        }
        match &self.destination {
            Some(d) => {
                buf.push(d.hops);
            },
            None => {},
        }
        self.content.encode(buf);
        proof {
            assert(buf@ =~= buf0 + npdu_wire(self@));
        }
    }

    fn len(&self) -> (n: usize) {
        proof {
            assert(npdu_wire(self@).len() == 2 + (match self@.destination {
                Some(d) => 4 + d.adr.len(),
                None => 0,
            }) + (match self@.source {
                Some(s) => 3 + s.adr.len(),
                None => 0,
            }) + content_wire(self@.content).len());
        }
        let mut l: usize = 2;
        match &self.destination {
            Some(d) => {
                l = l + 2 + 1 + d.adr.len() + 1;
            },
            None => {},
        }
        match &self.source {
            Some(s) => {
                l = l + 2 + 1 + s.adr.len();
            },
            None => {},
        }
        l = l + self.content.len();
        l
    }
}

/// Reads one address block at `pos`: network number, length prefix, then
/// exactly that many address bytes.
fn decode_addr(buf: &Vec<u8>, pos: usize) -> (r: Result<(u16, Vec<u8>, usize), DecodeError>)
    requires
        pos <= buf@.len(),
    ensures
        ({
            let p = parse_addr(buf@, pos as int);
            match r {
                Ok((net, adr, newpos)) => {
                    &&& p is Ok
                    &&& net == p->Ok_0.0
                    &&& adr@ == p->Ok_0.1
                    &&& newpos == p->Ok_0.2
                    &&& pos <= newpos <= buf@.len()
                },
                Err(e) => p is Err && e == p->Err_0,
            }
        }),
{
    if buf.len() - pos < 3 {
        return Err(DecodeError::Truncated);
    }
    let hi = buf[pos];
    let lo = buf[pos + 1];
    let net: u16 = (hi as u16) * 256 + (lo as u16);
    let alen: usize = buf[pos + 2] as usize;
    if buf.len() - (pos + 3) < alen {
        return Err(DecodeError::Truncated);
    }
    let start = pos + 3;
    let mut adr: Vec<u8> = Vec::with_capacity(alen);
    let mut i: usize = 0;
    while i < alen
        invariant
            i <= alen,
            start + alen <= buf@.len(),
            buf@.len() <= usize::MAX,
            adr@ == buf@.subrange(start as int, start + i),
        decreases alen - i,
    {
        adr.push(buf[start + i]);
        proof {
            assert(adr@ =~= buf@.subrange(start as int, start + i + 1));
        }
        i = i + 1;
    }
    Ok((net, adr, start + alen))
}

impl NPDU {
    /// Parses a whole frame from `buf`, mirroring the wire layout the
    /// encoder writes: the control byte's bits decide which optional
    /// blocks are consumed and how the trailing payload is read.  The
    /// result is exactly what [`parse_npdu`] says of the bytes: a short
    /// read anywhere fails with `Truncated` without touching bytes past
    /// the end of the input, and control-message content fails with
    /// `Unimplemented`.
    pub fn decode(buf: &Vec<u8>) -> (r: Result<NPDU, DecodeError>)
        ensures
            ({
                let p = parse_npdu(buf@);
                match r {
                    Ok(n) => p is Ok && n@ == p->Ok_0 && npdu_wf(n@),
                    Err(e) => p is Err && e == p->Err_0,
                }
            }),
    {
        if buf.len() < 2 {
            return Err(DecodeError::Truncated);
        }
        let version = buf[0];
        let control = buf[1];
        let priority = NPDUPriority::from_bits(control & 3);
        let der = control & 4 != 0;
        let has_src = control & 8 != 0;
        let has_dst = control & 32 != 0;
        let is_msg = control & 128 != 0;
        let mut pos: usize = 2;
        let dest_raw: Option<(u16, Vec<u8>)> = if has_dst {
            match decode_addr(buf, pos) {
                Err(e) => {
                    return Err(e);
                },
                Ok((net, adr, newpos)) => {
                    pos = newpos;
                    Some((net, adr))
                },
            }
        } else {
            None
        };
        let source: Option<NPDUSource> = if has_src {
            match decode_addr(buf, pos) {
                Err(e) => {
                    return Err(e);
                },
                Ok((net, adr, newpos)) => {
                    pos = newpos;
                    Some(NPDUSource { net, adr })
                },
            }
        } else {
            None
        };
        let destination: Option<NPDUDest> = match dest_raw {
            Some((dnet, dadr)) => {
                if buf.len() - pos < 1 {
                    return Err(DecodeError::Truncated);
                }
                let hops = buf[pos];
                pos = pos + 1;
                Some(NPDUDest { net: dnet, adr: dadr, hops })
            },
            None => None,
        };
        if is_msg {
            return Err(DecodeError::Unimplemented);
        }
        let mut bytes: Vec<u8> = Vec::new();
        let mut i: usize = pos;
        while i < buf.len()
            invariant
                pos <= i <= buf@.len(),
                bytes@ == buf@.subrange(pos as int, i as int),
            decreases buf@.len() - i,
        {
            bytes.push(buf[i]);
            proof {
                assert(bytes@ =~= buf@.subrange(pos as int, i + 1));
            }
            i = i + 1;
        }
        let n = NPDU {
            version,
            destination,
            source,
            data_expecting_reply: der,
            priority,
            content: NPDUContent::APDU(Apdu { bytes }),
        };
        proof {
            assert(parse_npdu(buf@) is Ok && n@ =~= parse_npdu(buf@)->Ok_0);
        }
        Ok(n)
    }
}

/// The flag summands of the control byte occupy disjoint bits, so each can
/// be read back from the sum with a mask.
proof fn lemma_control_bits(p: u8, d: u8, s: u8, t: u8, m: u8)
    by (bit_vector)
    requires
        p <= 3,
        d == 0 || d == 4,
        s == 0 || s == 8,
        t == 0 || t == 32,
        m == 0 || m == 128,
    ensures
        ((p + d + s + t + m) as u8) & 3 == p,
        (((p + d + s + t + m) as u8) & 4 != 0) == (d == 4),
        (((p + d + s + t + m) as u8) & 8 != 0) == (s == 8),
        (((p + d + s + t + m) as u8) & 32 != 0) == (t == 32),
        (((p + d + s + t + m) as u8) & 128 != 0) == (m == 128),
{
}

/// A 16-bit value survives the trip through its two big-endian bytes.
proof fn lemma_be16_roundtrip(v: u16)
    by (bit_vector)
    ensures
        ((((v >> 8) as u8) as int) * 256 + (((v & 0xff) as u8) as int)) as u16 == v,
{
}

/// What the control byte says, bit by bit: bits 0 and 1 are exactly the
/// priority; bit 2 is set exactly when data-expecting-reply is; bit 3
/// exactly when a source is present; bit 5 exactly when a destination is;
/// bit 7 exactly when the content is a control message.  In particular,
/// with an application payload, no reply expected and only a destination,
/// the byte is the priority bits plus bit 5 alone; only a source gives bit
/// 3 alone; both give bits 3 and 5.
pub proof fn lemma_control_byte_flags(n: NpduModel)
    ensures
        control_byte(n) & 3 == priority_bits(n.priority),
        (control_byte(n) & 4 != 0) == n.data_expecting_reply,
        (control_byte(n) & 8 != 0) == (n.source is Some),
        (control_byte(n) & 32 != 0) == (n.destination is Some),
        (control_byte(n) & 128 != 0) == (n.content is Message),
        n.destination is Some && n.source is None && !n.data_expecting_reply && n.content
            is Apdu ==> control_byte(n) == priority_bits(n.priority) + 32,
        n.source is Some && n.destination is None && !n.data_expecting_reply && n.content
            is Apdu ==> control_byte(n) == priority_bits(n.priority) + 8,
        n.destination is Some && n.source is Some && !n.data_expecting_reply && n.content
            is Apdu ==> control_byte(n) == priority_bits(n.priority) + 40,
        n.destination is Some && n.source is Some && n.data_expecting_reply && n.content
            is Apdu ==> control_byte(n) == priority_bits(n.priority) + 44,
{
    let p = priority_bits(n.priority);
    let d: u8 = if n.data_expecting_reply {
        4
    } else {
        0
    };
    let s: u8 = if n.source is Some {
        8
    } else {
        0
    };
    let t: u8 = if n.destination is Some {
        32
    } else {
        0
    };
    let m: u8 = if n.content is Message {
        128
    } else {
        0
    };
    assert(p <= 3);
    assert(control_byte(n) == (p + d + s + t + m) as u8);
    lemma_control_bits(p, d, s, t, m);
}

/// Decoding what the encoder wrote gives the original frame back: for
/// every well-formed frame whose content is an application payload,
/// parsing the frame's wire bytes succeeds and yields exactly that frame —
/// version, addressing, hop count, flags, priority and payload alike.
pub proof fn lemma_npdu_roundtrip(n: NpduModel)
    requires
        npdu_wf(n),
        n.content is Apdu,
    ensures
        parse_npdu(npdu_wire(n)) == Ok::<NpduModel, DecodeError>(n),
{
    let w = npdu_wire(n);
    let c = control_byte(n);
    let db = match n.destination {
        Some(d) => dest_block(d),
        None => Seq::<u8>::empty(),
    };
    let sb = match n.source {
        Some(s) => source_block(s),
        None => Seq::<u8>::empty(),
    };
    let hb = match n.destination {
        Some(d) => seq![d.hops],
        None => Seq::<u8>::empty(),
    };
    let cw = content_wire(n.content);
    assert(w == seq![n.version, c] + db + sb + hb + cw);
    assert(w.len() == 2 + db.len() + sb.len() + hb.len() + cw.len());
    assert(w[0] == n.version);
    assert(w[1] == c);
    lemma_control_byte_flags(n);
    lemma_priority_bits_roundtrip(n.priority, 0);
    assert(priority_of_bits(c & 3) == n.priority);
    let off1: int = match n.destination {
        Some(d) => 5 + d.adr.len() as int,
        None => 2,
    };
    match n.destination {
        Some(d) => {
            assert(db.len() == 3 + d.adr.len());
            assert(w.subrange(2, off1) =~= db);
            lemma_parse_addr_at(w, 2, d.net, d.adr);
            assert(parse_addr(w, 2) == Ok::<(u16, Seq<u8>, int), DecodeError>(
                (d.net, d.adr, off1),
            ));
        },
        None => {},
    }
    let off2: int = match n.source {
        Some(s) => off1 + 3 + s.adr.len() as int,
        None => off1,
    };
    match n.source {
        Some(s) => {
            assert(sb.len() == 3 + s.adr.len());
            assert(w.subrange(off1, off2) =~= sb);
            lemma_parse_addr_at(w, off1, s.net, s.adr);
            assert(parse_addr(w, off1) == Ok::<(u16, Seq<u8>, int), DecodeError>(
                (s.net, s.adr, off2),
            ));
        },
        None => {},
    }
    let off3: int = match n.destination {
        Some(d) => off2 + 1,
        None => off2,
    };
    match n.destination {
        Some(d) => {
            assert(w[off2] == d.hops);
        },
        None => {},
    }
    assert(w.subrange(off3, w.len() as int) =~= cw);
    match parse_npdu(w) {
        Ok(r) => {
            assert(r =~= n);
        },
        Err(e) => {
            assert(false);
        },
    }
}

/// A frame that announces a destination whose declared address length
/// exceeds the bytes that remain fails with a truncation error — decoding
/// never reads past the end of the input and never pads the address.
pub proof fn lemma_truncated_dest_addr(b: Seq<u8>)
    requires
        b.len() >= 5,
        b[1] & 32 != 0,
        b.len() < 5 + b[4],
    ensures
        parse_npdu(b) == Err::<NpduModel, DecodeError>(DecodeError::Truncated),
{
}

/// `parse_addr` at `off` reads back exactly the address block the encoder
/// writes there: the block's network number, its address bytes, and the
/// offset just past them.
proof fn lemma_parse_addr_at(w: Seq<u8>, off: int, net: u16, adr: Seq<u8>)
    requires
        0 <= off,
        adr.len() <= 255,
        off + 3 + adr.len() <= w.len(),
        w.subrange(off, off + 3 + adr.len()) == be16(net) + seq![adr.len() as u8] + adr,
    ensures
        parse_addr(w, off) == Ok::<(u16, Seq<u8>, int), DecodeError>(
            (net, adr, off + 3 + adr.len()),
        ),
{
    let blk = be16(net) + seq![adr.len() as u8] + adr;
    assert(w[off] == blk[0]);
    assert(w[off + 1] == blk[1]);
    assert(w[off + 2] == blk[2]);
    assert(w[off] == (net >> 8) as u8);
    assert(w[off + 1] == (net & 0xff) as u8);
    assert(w[off + 2] == adr.len() as u8);
    lemma_be16_roundtrip(net);
    assert((adr.len() as u8) as int == adr.len());
    assert forall|j: int| 0 <= j < adr.len() implies w[off + 3 + j] == adr[j] by {
        assert(w.subrange(off, off + 3 + adr.len())[3 + j] == blk[3 + j]);
    }
    assert(w.subrange(off + 3, off + 3 + adr.len()) =~= adr);
}

} // verus!
