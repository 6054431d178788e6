//! Configuration of a logging queue: protocol families, copy policy,
//! sequence-numbering flags, and the declarative builder options.

use vstd::prelude::*;

verus! {

/// Default capacity of the receive buffer, large enough for one
/// maximum-size netlink datagram plus framing overhead.
pub const NFLOG_BUF_SIZE: usize = 150000;

/// A protocol family that the kernel logging facility can bind.
#[derive(Clone, Copy, PartialEq, Eq, Structural, Debug)]
pub enum AddressFamily {
    /// IPv4
    Inet,
    /// IPv6
    Inet6,
    /// Bridged traffic
    Bridge,
}

impl AddressFamily {
    /// The numeric protocol-family value the native bind and unbind calls take.
    pub open spec fn spec_raw(self) -> u16 {
        match self {
            AddressFamily::Inet => 2,
            AddressFamily::Inet6 => 10,
            AddressFamily::Bridge => 7,
        }
    }

    /// Numeric protocol-family value, as the native layer expects it.
    pub fn raw(self) -> (r: u16)
        ensures
            r == self.spec_raw(),
    {
        match self {
            AddressFamily::Inet => 2,
            AddressFamily::Inet6 => 10,
            AddressFamily::Bridge => 7,
        }
    }

    /// The family a raw value denotes, if it is one this bridge models.
    pub open spec fn spec_from_raw(raw: u8) -> Option<AddressFamily> {
        if raw == 2 {
            Some(AddressFamily::Inet)
        } else if raw == 10 {
            Some(AddressFamily::Inet6)
        } else if raw == 7 {
            Some(AddressFamily::Bridge)
        } else {
            None
        }
    }

    /// Decode the family byte carried by a received record.
    pub fn from_raw(raw: u8) -> (r: Option<AddressFamily>)
        ensures
            r == AddressFamily::spec_from_raw(raw),
    {
        if raw == 2 {
            Some(AddressFamily::Inet)
        } else if raw == 10 {
            Some(AddressFamily::Inet6)
        } else if raw == 7 {
            Some(AddressFamily::Bridge)
        } else {
            None
        }
    }
}

/// How much of a matched packet the kernel copies into a log record.
#[derive(Clone, Copy, PartialEq, Eq, Structural, Debug)]
pub enum CopyMode {
    /// Copy neither packet contents nor metadata.
    NoCopy,
    /// Copy only packet metadata, not payload.
    Meta,
    /// Copy packet metadata and payload, up to the configured range.
    Packet,
}

impl CopyMode {
    /// The numeric mode value the native copy-mode setter takes.
    pub open spec fn spec_raw(self) -> u8 {
        match self {
            CopyMode::NoCopy => 0,
            CopyMode::Meta => 1,
            CopyMode::Packet => 2,
        }
    }

    /// Numeric mode value, as the native layer expects it.
    pub fn raw(self) -> (r: u8)
        ensures
            r == self.spec_raw(),
    {
        match self {
            CopyMode::NoCopy => 0,
            CopyMode::Meta => 1,
            CopyMode::Packet => 2,
        }
    }
}

/// Bit set of per-group configuration flags, each independently enabling a
/// monotonically increasing counter on received records.
#[derive(Clone, Copy, PartialEq, Eq, Structural, Debug)]
pub struct Flags {
    /// Raw flag bits, as the native flags setter takes them.
    pub bits: u16,
}

impl Flags {
    /// Bit enabling the per-group sequence counter.
    pub open spec fn spec_seq_bit() -> u16 {
        1
    }

    /// Bit enabling the global sequence counter.
    pub open spec fn spec_seq_global_bit() -> u16 {
        2
    }

    /// No flag set.
    pub fn empty() -> (r: Flags)
        ensures
            r.bits == 0,
    {
        Flags { bits: 0 }
    }

    /// The flag enabling the per-group sequence counter.
    pub fn sequence() -> (r: Flags)
        ensures
            r.bits == Flags::spec_seq_bit(),
    {
        Flags { bits: 1 }
    }

    /// The flag enabling the global sequence counter.
    pub fn global_sequence() -> (r: Flags)
        ensures
            r.bits == Flags::spec_seq_global_bit(),
    {
        Flags { bits: 2 }
    }

    /// The union of two flag sets.
    pub fn union(self, other: Flags) -> (r: Flags)
        ensures
            r.bits == self.bits | other.bits,
    {
        Flags { bits: self.bits | other.bits }
    }

    /// Whether every flag of `other` is set in `self`.
    pub fn contains(self, other: Flags) -> (r: bool)
        ensures
            r == (self.bits & other.bits == other.bits),
    {
        self.bits & other.bits == other.bits
    }
}

/// The declarative options a logging queue is built from.
///
/// Once a queue is built the recorded configuration changes only through the
/// same setters the queue exposes, which keep it in lockstep with the native
/// state: a successful native mutation updates the record, a failed one
/// leaves it unchanged.
pub struct QueueConfig {
    /// Protocol families to bind; must not be empty.
    pub address_families: Vec<AddressFamily>,
    /// Number of the logging group to bind.
    pub group_num: u16,
    /// Capacity of the receive buffer.
    pub buffer_size: usize,
    /// Whether to unbind each requested family before binding it.
    pub unbind: bool,
    /// Copy mode to apply after the group is bound, if any.
    pub copy_mode: Option<CopyMode>,
    /// Copy range in bytes, applied together with the copy mode.
    pub range: Option<u32>,
    /// Sequence-numbering flags to apply after the group is bound, if any.
    pub flags: Option<Flags>,
}

impl QueueConfig {
    /// A configuration the builder accepts: at least one protocol family.
    pub open spec fn valid(self) -> bool {
        self.address_families@.len() > 0
    }

    /// Record the outcome of the native copy-mode setter: on success the
    /// configuration notes the new mode and range, on failure it is unchanged.
    pub fn record_set_mode(&mut self, native_ok: bool, mode: CopyMode, range: u32)
        ensures
            native_ok ==> final(self).copy_mode == Some(mode)
                && final(self).range == Some(range)
                && final(self).flags == old(self).flags
                && final(self).address_families == old(self).address_families
                && final(self).group_num == old(self).group_num
                && final(self).buffer_size == old(self).buffer_size
                && final(self).unbind == old(self).unbind,
            !native_ok ==> *final(self) == *old(self),
    {
        if native_ok {
            self.copy_mode = Some(mode);
            self.range = Some(range);
        }
    }

    /// Record the outcome of the native flags setter: on success the
    /// configuration notes the new flags, on failure it is unchanged.
    pub fn record_set_flags(&mut self, native_ok: bool, flags: Flags)
        ensures
            native_ok ==> final(self).flags == Some(flags)
                && final(self).copy_mode == old(self).copy_mode
                && final(self).range == old(self).range
                && final(self).address_families == old(self).address_families
                && final(self).group_num == old(self).group_num
                && final(self).buffer_size == old(self).buffer_size
                && final(self).unbind == old(self).unbind,
            !native_ok ==> *final(self) == *old(self),
    {
        if native_ok {
            self.flags = Some(flags);
        }
    }
}

impl Default for QueueConfig {
    /// The default options: IPv4 and IPv6, group 0, the default buffer
    /// capacity, no unbind-before-bind, and no copy mode, range or flags.
    fn default() -> (r: QueueConfig)
        ensures
            r.address_families@ == seq![AddressFamily::Inet, AddressFamily::Inet6],
            r.group_num == 0,
            r.buffer_size == NFLOG_BUF_SIZE,
            r.unbind == false,
            r.copy_mode is None,
            r.range is None,
            r.flags is None,
            r.valid(),
    {
        let mut families: Vec<AddressFamily> = Vec::new();
        families.push(AddressFamily::Inet);
        families.push(AddressFamily::Inet6);
        proof {
            assert(families@ =~= seq![AddressFamily::Inet, AddressFamily::Inet6]);
        }
        QueueConfig {
            address_families: families,
            group_num: 0,
            buffer_size: NFLOG_BUF_SIZE,
            unbind: false,
            copy_mode: None,
            range: None,
            flags: None,
        }
    }
}

} // verus!
