//! The typed view over one delivered log record.
//!
//! During a callback invocation the unverified glue reads every per-record
//! native getter once and stores the plain results in a [`RawRecord`]; the
//! [`Message`] accessors then compute the typed answers — byte-order
//! conversion, presence decisions, address and timestamp decoding — and each
//! of those computations is verified here.

use vstd::prelude::*;

use crate::config::AddressFamily;
use crate::QueueError;

verus! {

/// A layer-3 protocol number (EtherType), in host byte order.
pub type L3Protocol = u16;

/// A six-byte hardware (MAC) address, in transmission order.
#[derive(Clone, Copy, PartialEq, Eq, Structural, Debug)]
pub struct MacAddr(pub u8, pub u8, pub u8, pub u8, pub u8, pub u8);

impl MacAddr {
    /// Build an address from its six bytes, in transmission order.
    pub fn new(b0: u8, b1: u8, b2: u8, b3: u8, b4: u8, b5: u8) -> (r: MacAddr)
        ensures
            r == (MacAddr(b0, b1, b2, b3, b4, b5)),
    {
        MacAddr(b0, b1, b2, b3, b4, b5)
    }
}

/// A capture instant: seconds and microseconds since the Unix epoch,
/// independent of any calendar.
#[derive(Clone, Copy, PartialEq, Eq, Structural, Debug)]
pub struct Timestamp {
    /// Whole seconds since the epoch.
    pub secs: u64,
    /// Microseconds within the second, below one million.
    pub micros: u32,
}

/// The value two wire-order (big-endian) bytes encode.
pub open spec fn spec_u16_be(hi: u8, lo: u8) -> u16 {
    (hi * 256 + lo) as u16
}

/// Combine two wire-order (big-endian) bytes into the value they encode.
pub fn u16_be(hi: u8, lo: u8) -> (r: u16)
    ensures
        r == spec_u16_be(hi, lo),
{
    (hi as u16) * 256 + (lo as u16)
}

/// The hardware-address attribute of a record, as the native library hands
/// it out: a big-endian length field and up to eight address bytes.
#[derive(Clone, Copy, Debug)]
pub struct RawHwAddr {
    /// Wire-order bytes of the address length field.
    pub len_be: [u8; 2],
    /// The address bytes; only the first length-many are meaningful.
    pub addr: [u8; 8],
}

/// The plain values read from one native log record, one field per native
/// getter.  Getters that report success or failure through a return code
/// keep that code here, so the presence decision is made — and verified — in
/// the [`Message`] accessors.
#[derive(Clone, Debug)]
pub struct RawRecord {
    /// Address family of the originating packet, as the kernel tagged it.
    pub family: u8,
    /// Hardware link-layer type, already in host order.
    pub hwtype: u16,
    /// Hardware link-layer header bytes; empty when the record carries none.
    pub hwhdr: Vec<u8>,
    /// Hardware-address attribute, absent when the record carries none.
    pub hw: Option<RawHwAddr>,
    /// Wire-order bytes of the layer-3 protocol (EtherType) field.
    pub l3_proto_be: [u8; 2],
    /// The packet mark.
    pub mark: u32,
    /// Return code of the timestamp getter; zero means the fields are set.
    pub ts_rc: i32,
    /// Timestamp seconds as the native library reported them.
    pub ts_sec: i64,
    /// Timestamp microseconds as the native library reported them.
    pub ts_usec: i64,
    /// Ingress interface index; zero means unknown or local.
    pub indev: u32,
    /// Physical ingress interface index; zero means unknown or local.
    pub physindev: u32,
    /// Egress interface index; zero means unknown or local.
    pub outdev: u32,
    /// Physical egress interface index; zero means unknown or local.
    pub physoutdev: u32,
    /// Payload bytes; empty when the copy mode excluded the payload or the
    /// payload length was zero.
    pub payload: Vec<u8>,
    /// Bytes of the logging prefix string, without the terminating nul.
    pub prefix: Vec<u8>,
    /// Return code of the user-id getter; zero means `uid` is set.
    pub uid_rc: i32,
    /// Originating user id, meaningful only when its return code is zero.
    pub uid: u32,
    /// Return code of the group-id getter; zero means `gid` is set.
    pub gid_rc: i32,
    /// Originating group id, meaningful only when its return code is zero.
    pub gid: u32,
    /// Return code of the local sequence getter; zero means `seq` is set.
    pub seq_rc: i32,
    /// Local sequence number, meaningful only when its return code is zero.
    pub seq: u32,
    /// Return code of the global sequence getter; zero means `seq_global` is
    /// set.
    pub seq_global_rc: i32,
    /// Global sequence number, meaningful only when its return code is zero.
    pub seq_global: u32,
}

/// The typed, read-only view over one delivered log record.
#[derive(Clone, Debug)]
pub struct Message {
    /// The plain values the record was read into.
    pub raw: RawRecord,
}

/// The hardware source address a record resolves to: present exactly when
/// the record carries a hardware-address attribute whose length field
/// decodes to six.
pub open spec fn spec_packet_hwaddr(raw: RawRecord) -> Option<MacAddr> {
    match raw.hw {
        Some(h) => if spec_u16_be(h.len_be@[0], h.len_be@[1]) == 6 {
            Some(MacAddr(h.addr@[0], h.addr@[1], h.addr@[2], h.addr@[3], h.addr@[4], h.addr@[5]))
        } else {
            None
        },
        None => None,
    }
}

/// The capture instant a record resolves to: present exactly when the
/// timestamp getter succeeded and reported well-formed fields.
pub open spec fn spec_timestamp(raw: RawRecord) -> Option<Timestamp> {
    if raw.ts_rc == 0 && 0 <= raw.ts_sec && 0 <= raw.ts_usec < 1000000 {
        Some(Timestamp { secs: raw.ts_sec as u64, micros: raw.ts_usec as u32 })
    } else {
        None
    }
}

/// What the best-effort UTF-8 decoding of a byte sequence yields, with
/// invalid sequences replaced.
pub uninterp spec fn lossy_utf8_of(bytes: Seq<u8>) -> Seq<char>;

/// Relies on String::from_utf8_lossy: the decoding depends on the byte
/// sequence alone (invalid sequences are replaced, never fatal), and an
/// empty byte sequence decodes to the empty string.
#[verifier::external_body]
fn decode_utf8_lossy(bytes: &Vec<u8>) -> (r: String)
    ensures
        r@ == lossy_utf8_of(bytes@),
        bytes@.len() == 0 ==> r@.len() == 0,
{
    String::from_utf8_lossy(bytes).into_owned()
}

impl Message {
    /// Wrap the values read from a record.  A missing record — the native
    /// library handed the callback a null record pointer where a valid one
    /// is contractually guaranteed — is rejected as a protocol violation.
    pub fn new(raw: Option<RawRecord>) -> (r: Result<Message, QueueError>)
        ensures
            raw matches Some(rec) ==> r == Ok::<Message, QueueError>(Message { raw: rec }),
            raw is None ==> r == Err::<Message, QueueError>(QueueError::NullRecord),
    {
        match raw {
            Some(rec) => Ok(Message { raw: rec }),
            None => Err(QueueError::NullRecord),
        }
    }

    /// Address family of the originating packet, when it is one the bridge
    /// models.
    pub fn address_family(&self) -> (r: Option<AddressFamily>)
        ensures
            r == AddressFamily::spec_from_raw(self.raw.family),
    {
        AddressFamily::from_raw(self.raw.family)
    }

    /// The hardware link-layer type.
    pub fn hwtype(&self) -> (r: u16)
        ensures
            r == self.raw.hwtype,
    {
        self.raw.hwtype
    }

    /// The hardware link-layer header, absent when the record carries none.
    pub fn packet_hwhdr(&self) -> (r: Option<&[u8]>)
        ensures
            self.raw.hwhdr@.len() == 0 ==> r is None,
            self.raw.hwhdr@.len() > 0 ==> (r matches Some(h) && h@ == self.raw.hwhdr@),
    {
        if self.raw.hwhdr.len() == 0 {
            None
        } else {
            Some(self.raw.hwhdr.as_slice())
        }
    }

    /// The hardware address of the packet's source host: only a six-byte
    /// hardware address resolves; anything else reads as absent.
    pub fn packet_hwaddr(&self) -> (r: Option<MacAddr>)
        ensures
            r == spec_packet_hwaddr(self.raw),
    {
        match self.raw.hw {
            Some(h) => {
                let len = u16_be(h.len_be[0], h.len_be[1]);
                if len == 6 {
                    Some(MacAddr(h.addr[0], h.addr[1], h.addr[2], h.addr[3], h.addr[4], h.addr[5]))
                } else {
                    None
                }
            },
            None => None,
        }
    }

    /// The layer-3 protocol (EtherType) of the packet, converted from the
    /// wire's network byte order to host order.
    pub fn l3_proto(&self) -> (r: L3Protocol)
        ensures
            r == spec_u16_be(self.raw.l3_proto_be@[0], self.raw.l3_proto_be@[1]),
    {
        u16_be(self.raw.l3_proto_be[0], self.raw.l3_proto_be[1])
    }

    /// The packet mark.
    pub fn nfmark(&self) -> (r: u32)
        ensures
            r == self.raw.mark,
    {
        self.raw.mark
    }

    /// The capture timestamp: present exactly when the native getter
    /// succeeded and its fields are well formed (non-negative seconds,
    /// microseconds below one million).
    pub fn timestamp(&self) -> (r: Option<Timestamp>)
        ensures
            r == spec_timestamp(self.raw),
            r matches Some(t) ==> t.micros < 1000000,
    {
        if self.raw.ts_rc == 0 && self.raw.ts_sec >= 0 && self.raw.ts_usec >= 0
            && self.raw.ts_usec < 1000000 {
            Some(Timestamp { secs: self.raw.ts_sec as u64, micros: self.raw.ts_usec as u32 })
        } else {
            None
        }
    }

    /// Index of the ingress interface; zero means unknown or local.
    pub fn indev(&self) -> (r: u32)
        ensures
            r == self.raw.indev,
    {
        self.raw.indev
    }

    /// Index of the physical ingress interface; zero means unknown or local.
    pub fn physindev(&self) -> (r: u32)
        ensures
            r == self.raw.physindev,
    {
        self.raw.physindev
    }

    /// Index of the egress interface; zero means unknown or local.
    pub fn outdev(&self) -> (r: u32)
        ensures
            r == self.raw.outdev,
    {
        self.raw.outdev
    }

    /// Index of the physical egress interface; zero means unknown or local.
    pub fn physoutdev(&self) -> (r: u32)
        ensures
            r == self.raw.physoutdev,
    {
        self.raw.physoutdev
    }

    /// The packet payload: absent when the copy mode excluded it or its
    /// length was zero, otherwise exactly the copied bytes.
    pub fn payload(&self) -> (r: Option<&[u8]>)
        ensures
            self.raw.payload@.len() == 0 ==> r is None,
            self.raw.payload@.len() > 0 ==> (r matches Some(p) && p@ == self.raw.payload@),
    {
        if self.raw.payload.len() == 0 {
            None
        } else {
            Some(self.raw.payload.as_slice())
        }
    }

    /// The logging prefix, decoded from its bytes best-effort: invalid UTF-8
    /// sequences are replaced, never fatal.
    pub fn prefix(&self) -> (r: String)
        ensures
            r@ == lossy_utf8_of(self.raw.prefix@),
    {
        decode_utf8_lossy(&self.raw.prefix)
    }

    /// The id of the user that generated the packet, when the kernel could
    /// resolve it.
    pub fn uid(&self) -> (r: Option<u32>)
        ensures
            r == (if self.raw.uid_rc == 0 {
                Some(self.raw.uid)
            } else {
                None::<u32>
            }),
    {
        if self.raw.uid_rc == 0 {
            Some(self.raw.uid)
        } else {
            None
        }
    }

    /// The id of the group that generated the packet, when the kernel could
    /// resolve it.
    pub fn gid(&self) -> (r: Option<u32>)
        ensures
            r == (if self.raw.gid_rc == 0 {
                Some(self.raw.gid)
            } else {
                None::<u32>
            }),
    {
        if self.raw.gid_rc == 0 {
            Some(self.raw.gid)
        } else {
            None
        }
    }

    /// The local (per-group) sequence number: present exactly when the
    /// record carried one, which the kernel includes only while the
    /// per-group sequence flag is set.
    pub fn local_seqnum(&self) -> (r: Option<u32>)
        ensures
            r == (if self.raw.seq_rc == 0 {
                Some(self.raw.seq)
            } else {
                None::<u32>
            }),
    {
        if self.raw.seq_rc == 0 {
            Some(self.raw.seq)
        } else {
            None
        }
    }

    /// The global sequence number: present exactly when the record carried
    /// one, which the kernel includes only while the global sequence flag is
    /// set.
    pub fn global_seqnum(&self) -> (r: Option<u32>)
        ensures
            r == (if self.raw.seq_global_rc == 0 {
                Some(self.raw.seq_global)
            } else {
                None::<u32>
            }),
    {
        if self.raw.seq_global_rc == 0 {
            Some(self.raw.seq_global)
        } else {
            None
        }
    }
}

/// A caller-supplied handler for delivered records.  Ownership of the
/// handler moves to the bridge at registration time; the bridge lends the
/// handler exclusive access to itself for one record at a time.
pub trait MessageHandler {
    /// Handle one delivered record.
    fn handle(&mut self, msg: Message);
}

} // verus!
