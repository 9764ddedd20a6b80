use vstd::prelude::*;

verus! {

/// Bits of the message word that carry the payload length.
pub const LENGTH_BITS: usize = 7;

/// Bits of the message word that carry the number of extra capabilities.
pub const EXTRA_CAPS_BITS: usize = 2;

/// Bits of the message word that carry the unwrapped-capabilities mask.
pub const CAPS_UNWRAPPED_BITS: usize = 3;

/// Position of the label in the message word.
pub const LABEL_SHIFT: usize = 12;

/// The largest label that fits in a message word.
pub open spec fn max_label() -> usize {
    (!0usize) >> 12usize
}

/// The tag word that travels with every kernel message: a label, the
/// capability counts, and the number of message registers used.
///
/// Layout, from the least significant bit: length (7 bits), extra caps
/// (2 bits), caps unwrapped (3 bits), label (the remaining 52 bits).
#[derive(Clone, Copy, Debug, PartialEq, Eq, Structural)]
pub struct MessageInfo {
    pub word: usize,
}

/// The word that `MessageInfo::new` packs.
pub open spec fn pack(label: usize, caps_unwrapped: usize, extra_caps: usize, length: usize) -> usize {
    ((label << 12usize) | ((caps_unwrapped & 0x7) << 9usize) | ((extra_caps & 0x3) << 7usize) | (length & 0x7f)) as usize
}

impl MessageInfo {
    /// The label field of a message word.
    pub open spec fn label_of(word: usize) -> usize {
        word >> 12usize
    }

    /// The length field of a message word.
    pub open spec fn length_of(word: usize) -> usize {
        word & 0x7f
    }

    pub open spec fn extra_caps_of(word: usize) -> usize {
        (word >> 7usize) & 0x3
    }

    pub open spec fn caps_unwrapped_of(word: usize) -> usize {
        (word >> 9usize) & 0x7
    }

    /// Packs the four fields into one message word; each field is cut to its width.
    pub fn from_fields(label: usize, caps_unwrapped: usize, extra_caps: usize, length: usize) -> (m: MessageInfo)
        ensures
            m.word == pack(label, caps_unwrapped, extra_caps, length),
    {
        MessageInfo {
            word: (label << 12usize) | ((caps_unwrapped & 0x7) << 9usize) | ((extra_caps & 0x3) << 7usize) | (length & 0x7f),
        }
    }

    /// The message that invokes `label` with `length` message registers.
    pub fn new(label: InvocationLabel, caps_unwrapped: usize, extra_caps: usize, length: usize) -> (m: MessageInfo)
        ensures
            m.word == pack(label.code(), caps_unwrapped, extra_caps, length),
    {
        Self::from_fields(label.as_usize(), caps_unwrapped, extra_caps, length)
    }

    /// The label carried by the message.
    pub fn get_label(&self) -> (l: usize)
        ensures
            l == Self::label_of(self.word),
    {
        self.word >> 12usize
    }

    /// The number of message registers the message uses.
    pub fn get_length(&self) -> (n: usize)
        ensures
            n == Self::length_of(self.word),
            n < 128,
    {
        let w = self.word;
        assert(w & 0x7f < 128usize) by (bit_vector);
        w & 0x7f
    }
}

/// Packing and unpacking agree: every field that fits its width reads back as written.
pub proof fn lemma_pack_unpack(label: usize, caps_unwrapped: usize, extra_caps: usize, length: usize)
    requires
        label <= max_label(),
        caps_unwrapped < 8,
        extra_caps < 4,
        length < 128,
    ensures
        MessageInfo::label_of(pack(label, caps_unwrapped, extra_caps, length)) == label,
        MessageInfo::length_of(pack(label, caps_unwrapped, extra_caps, length)) == length,
        MessageInfo::extra_caps_of(pack(label, caps_unwrapped, extra_caps, length)) == extra_caps,
        MessageInfo::caps_unwrapped_of(pack(label, caps_unwrapped, extra_caps, length)) == caps_unwrapped,
{
    let w = pack(label, caps_unwrapped, extra_caps, length);
    assert(MessageInfo::label_of(w) == label && MessageInfo::length_of(w) == length
        && MessageInfo::extra_caps_of(w) == extra_caps && MessageInfo::caps_unwrapped_of(w) == caps_unwrapped)
        by (bit_vector)
        requires
            w == pack(label, caps_unwrapped, extra_caps, length),
            label <= max_label(),
            caps_unwrapped < 8,
            extra_caps < 4,
            length < 128,
    ;
}


/// The operations a capability can be invoked for; the number of each is the
/// label of the message that invokes it.
#[derive(Clone, Copy, Debug, PartialEq, Eq, Structural)]
pub enum InvocationLabel {
    AllocObject,
    CNodeAlloc,
    CNodeDelete,
    CNodeCopy,
    TCBSuspend,
    TCBResume,
    TCBSetSpace,
    TCBSetIPCBuffer,
    TCBSetTLSBase,
    TCBReadRegisters,
    TCBWriteRegisters,
    PageMap,
    PageUnmap,
    PageTableMap,
    PageTableUnmap,
}

impl InvocationLabel {
    /// The label number of the operation.
    pub open spec fn code(self) -> usize {
        match self {
            InvocationLabel::AllocObject => 1,
            InvocationLabel::CNodeAlloc => 2,
            InvocationLabel::CNodeDelete => 3,
            InvocationLabel::CNodeCopy => 4,
            InvocationLabel::TCBSuspend => 5,
            InvocationLabel::TCBResume => 6,
            InvocationLabel::TCBSetSpace => 7,
            InvocationLabel::TCBSetIPCBuffer => 8,
            InvocationLabel::TCBSetTLSBase => 9,
            InvocationLabel::TCBReadRegisters => 10,
            InvocationLabel::TCBWriteRegisters => 11,
            InvocationLabel::PageMap => 12,
            InvocationLabel::PageUnmap => 13,
            InvocationLabel::PageTableMap => 14,
            InvocationLabel::PageTableUnmap => 15,
        }
    }

    pub fn as_usize(&self) -> (c: usize)
        ensures
            c == self.code(),
    {
        match self {
            InvocationLabel::AllocObject => 1,
            InvocationLabel::CNodeAlloc => 2,
            InvocationLabel::CNodeDelete => 3,
            InvocationLabel::CNodeCopy => 4,
            InvocationLabel::TCBSuspend => 5,
            InvocationLabel::TCBResume => 6,
            InvocationLabel::TCBSetSpace => 7,
            InvocationLabel::TCBSetIPCBuffer => 8,
            InvocationLabel::TCBSetTLSBase => 9,
            InvocationLabel::TCBReadRegisters => 10,
            InvocationLabel::TCBWriteRegisters => 11,
            InvocationLabel::PageMap => 12,
            InvocationLabel::PageUnmap => 13,
            InvocationLabel::PageTableMap => 14,
            InvocationLabel::PageTableUnmap => 15,
        }
    }
}

/// The outcome that the kernel puts in the label of its reply.
#[derive(Clone, Copy, Debug, PartialEq, Eq, Structural)]
pub enum ResponseLabel {
    Success,
    InvalidParam,
    PageTableMiss,
    /// Any label that names none of the outcomes above.
    UnknownError,
}

impl ResponseLabel {
    /// The label number of the outcome.
    pub open spec fn code(self) -> usize {
        match self {
            ResponseLabel::Success => 0,
            ResponseLabel::InvalidParam => 1,
            ResponseLabel::PageTableMiss => 2,
            ResponseLabel::UnknownError => 3,
        }
    }

    /// The outcome that a reply label names.
    pub open spec fn from_code(v: usize) -> ResponseLabel {
        if v == 0 {
            ResponseLabel::Success
        } else if v == 1 {
            ResponseLabel::InvalidParam
        } else if v == 2 {
            ResponseLabel::PageTableMiss
        } else {
            ResponseLabel::UnknownError
        }
    }

    pub fn as_usize(&self) -> (c: usize)
        ensures
            c == self.code(),
    {
        match self {
            ResponseLabel::Success => 0,
            ResponseLabel::InvalidParam => 1,
            ResponseLabel::PageTableMiss => 2,
            ResponseLabel::UnknownError => 3,
        }
    }

    /// Reads an outcome out of a reply label.
    pub fn from_usize(v: usize) -> (r: ResponseLabel)
        ensures
            r == Self::from_code(v),
    {
        if v == 0 {
            ResponseLabel::Success
        } else if v == 1 {
            ResponseLabel::InvalidParam
        } else if v == 2 {
            ResponseLabel::PageTableMiss
        } else {
            ResponseLabel::UnknownError
        }
    }
}

/// Every outcome reads back from its own label number, and a number reads back
/// as itself exactly when it names an outcome.
pub proof fn lemma_response_label_round_trip(r: ResponseLabel, v: usize)
    ensures
        ResponseLabel::from_code(r.code()) == r,
        (ResponseLabel::from_code(v).code() == v) <==> v <= 3,
        (ResponseLabel::from_code(v) == ResponseLabel::Success) <==> v == 0,
{
}

/// The message that `MessageInfo::new` builds for an invocation carries the
/// invocation's label and the requested length (when it is below 128).
pub proof fn lemma_invocation_message(label: InvocationLabel, length: usize)
    requires
        length < 128,
    ensures
        MessageInfo::label_of(pack(label.code(), 0, 0, length)) == label.code(),
        MessageInfo::length_of(pack(label.code(), 0, 0, length)) == length,
{
    assert(label.code() <= 15);
    assert(15usize <= (!0usize) >> 12usize) by (bit_vector);
    lemma_pack_unpack(label.code(), 0, 0, length);
}

} // verus!
