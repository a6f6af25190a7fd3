//! The tagged-union wire record and its typed counterpart.
use vstd::prelude::*;

verus! {

/// Kind code of an empty record.
pub const VT_EMPTY: u16 = 0;

/// Kind code of a 32-bit signed integer.
pub const VT_I4: u16 = 3;

/// Kind code of a string handle.
pub const VT_BSTR: u16 = 8;

/// Kind code of a dispatch-capable object handle.
pub const VT_DISPATCH: u16 = 9;

/// Kind code of an error code; used for omitted optional arguments.
pub const VT_ERROR: u16 = 10;

/// Kind code of a generic object handle.
pub const VT_UNKNOWN: u16 = 13;

/// Error code that marks an optional argument as not supplied.
pub const DISP_E_PARAMNOTFOUND: u32 = 0x80020004;

/// Address of a remote interface, or of a string, as carried in a record's
/// payload. It is a plain address, freely copied: it owns no reference.
/// Taking and releasing references is the business of the caller that owns
/// the runtime, which must keep the object alive while its address is used.
#[derive(Clone, Copy, Debug, PartialEq, Eq, Structural)]
pub struct Handle(pub usize);

/// The fixed-layout wire record: kind code, three padding words, the
/// pointer- or value-sized payload, and a bookkeeping word.
#[derive(Clone, Copy, Debug, PartialEq, Eq, Structural)]
pub struct EvilVariant {
    pub vt: u16,
    pub trash1: u16,
    pub trash2: u16,
    pub trash3: u16,
    pub payload: usize,
    pub rec: usize,
}

impl EvilVariant {
    /// A record of kind `vt` with the given payload and every other word zero.
    pub open spec fn spec_new(vt: u16, payload: usize) -> EvilVariant {
        EvilVariant { vt, trash1: 0, trash2: 0, trash3: 0, payload, rec: 0 }
    }

    pub fn new(vt: u16, union_variant: usize) -> (r: EvilVariant)
        ensures
            r == EvilVariant::spec_new(vt, union_variant),
    {
        EvilVariant { vt, trash1: 0, trash2: 0, trash3: 0, payload: union_variant, rec: 0 }
    }

    /// Whether the payload is the all-zero bit pattern.
    pub fn is_null(&self) -> (r: bool)
        ensures
            r == (self.payload == 0),
    {
        self.payload == 0
    }
}

/// The value that a wire record carries, for the kinds this client uses.
#[derive(Clone, Copy, Debug, PartialEq, Eq, Structural)]
pub enum TypedVariant {
    Empty,
    Int32(i32),
    Bstr(Handle),
    Dispatch(Handle),
    Unknown(Handle),
}

/// Why a wire record or a reply could not be taken as the expected value.
#[derive(Debug, PartialEq, Eq)]
pub enum VariantError {
    /// The runtime failed without saying more.
    Opaque,
    /// A pointer-carrying kind with a zero payload: "no value".
    NullPointer,
    /// A call answered with a value of another kind than expected.
    Mismatch { method: String, result: TypedVariant },
    /// A kind code outside the supported set.
    UnsupportedVariant,
}

/// The kind code of each value.
pub open spec fn kind_code(v: TypedVariant) -> u16 {
    match v {
        TypedVariant::Empty => VT_EMPTY,
        TypedVariant::Int32(_) => VT_I4,
        TypedVariant::Bstr(_) => VT_BSTR,
        TypedVariant::Dispatch(_) => VT_DISPATCH,
        TypedVariant::Unknown(_) => VT_UNKNOWN,
    }
}

/// Whether `vt` is one of the kinds that carry a pointer.
pub open spec fn is_pointer_kind(vt: u16) -> bool {
    vt == VT_BSTR || vt == VT_DISPATCH || vt == VT_UNKNOWN
}

/// Whether `vt` is one of the supported kinds.
pub open spec fn is_supported_kind(vt: u16) -> bool {
    vt == VT_EMPTY || vt == VT_I4 || is_pointer_kind(vt)
}

/// An integer sits in the low 32 bits of the payload.
pub open spec fn int_payload(n: i32) -> usize {
    (n as u32) as usize
}

/// What decoding a record gives.
pub open spec fn decoded(w: EvilVariant) -> Result<TypedVariant, VariantError> {
    if w.vt == VT_EMPTY {
        Ok(TypedVariant::Empty)
    } else if w.vt == VT_I4 {
        Ok(TypedVariant::Int32((w.payload as u32) as i32))
    } else if !is_pointer_kind(w.vt) {
        Err(VariantError::UnsupportedVariant)
    } else if w.payload == 0 {
        Err(VariantError::NullPointer)
    } else if w.vt == VT_BSTR {
        Ok(TypedVariant::Bstr(Handle(w.payload)))
    } else if w.vt == VT_DISPATCH {
        Ok(TypedVariant::Dispatch(Handle(w.payload)))
    } else {
        Ok(TypedVariant::Unknown(Handle(w.payload)))
    }
}

/// What encoding a value gives.
pub open spec fn encoded(v: TypedVariant) -> EvilVariant {
    match v {
        TypedVariant::Empty => EvilVariant::spec_new(VT_EMPTY, 0),
        TypedVariant::Int32(n) => EvilVariant::spec_new(VT_I4, int_payload(n)),
        TypedVariant::Bstr(h) => EvilVariant::spec_new(VT_BSTR, h.0),
        TypedVariant::Dispatch(h) => EvilVariant::spec_new(VT_DISPATCH, h.0),
        TypedVariant::Unknown(h) => EvilVariant::spec_new(VT_UNKNOWN, h.0),
    }
}

impl TypedVariant {
    /// A value is representable when none of its handles is null.
    pub open spec fn wf(self) -> bool {
        match self {
            TypedVariant::Bstr(h) => h.0 != 0,
            TypedVariant::Dispatch(h) => h.0 != 0,
            TypedVariant::Unknown(h) => h.0 != 0,
            _ => true,
        }
    }

    pub fn as_u16(&self) -> (r: u16)
        ensures
            r == kind_code(*self),
    {
        match self {
            TypedVariant::Empty => VT_EMPTY,
            TypedVariant::Int32(_) => VT_I4,
            TypedVariant::Bstr(_) => VT_BSTR,
            TypedVariant::Dispatch(_) => VT_DISPATCH,
            TypedVariant::Unknown(_) => VT_UNKNOWN,
        }
    }

    /// Reads a wire record. The record is only borrowed: handles in the
    /// result are the addresses the record carries, and stay valid as long as
    /// whoever owns the record keeps its references.
    pub fn decode(w: &EvilVariant) -> (r: Result<TypedVariant, VariantError>)
        ensures
            r == decoded(*w),
            r matches Ok(v) ==> v.wf(),
    {
        if w.vt == VT_EMPTY {
            Ok(TypedVariant::Empty)
        } else if w.vt == VT_I4 {
            Ok(TypedVariant::Int32((w.payload as u32) as i32))
        } else if w.vt != VT_BSTR && w.vt != VT_DISPATCH && w.vt != VT_UNKNOWN {
            Err(VariantError::UnsupportedVariant)
        } else if w.is_null() {
            Err(VariantError::NullPointer)
        } else if w.vt == VT_BSTR {
            Ok(TypedVariant::Bstr(Handle(w.payload)))
        } else if w.vt == VT_DISPATCH {
            Ok(TypedVariant::Dispatch(Handle(w.payload)))
        } else {
            Ok(TypedVariant::Unknown(Handle(w.payload)))
        }
    }

    /// Writes the value into a wire record: the kind code, and the value's
    /// bits or address as the payload. Addresses are copied as they are; who
    /// holds the reference behind one is up to the caller that owns it.
    pub fn encode(self) -> (r: EvilVariant)
        ensures
            r == encoded(self),
    {
        let vt = self.as_u16();
        let payload: usize = match self {
            TypedVariant::Empty => 0,
            TypedVariant::Int32(n) => (n as u32) as usize,
            TypedVariant::Bstr(h) => h.0,
            TypedVariant::Dispatch(h) => h.0,
            TypedVariant::Unknown(h) => h.0,
        };
        EvilVariant::new(vt, payload)
    }
}

/// The record passed for an optional argument that is left out.
pub fn opt_out_arg() -> (r: EvilVariant)
    ensures
        r == EvilVariant::spec_new(VT_ERROR, DISP_E_PARAMNOTFOUND as usize),
{
    EvilVariant::new(VT_ERROR, DISP_E_PARAMNOTFOUND as usize)
}

/// Decoding undoes encoding, for every representable value; in particular
/// the integer zero comes back as an integer, not as a missing value.
pub proof fn lemma_round_trip(v: TypedVariant)
    requires
        v.wf(),
    ensures
        decoded(encoded(v)) == Ok::<TypedVariant, VariantError>(v),
{
    if let TypedVariant::Int32(n) = v {
        assert(((n as u32) as usize) as u32 == n as u32);
        assert(((n as u32) as i32) == n) by (bit_vector);
    }
}

/// A pointer-carrying kind with a zero payload always decodes as "no value".
pub proof fn lemma_null_payload(w: EvilVariant)
    requires
        is_pointer_kind(w.vt),
        w.payload == 0,
    ensures
        decoded(w) == Err::<TypedVariant, VariantError>(VariantError::NullPointer),
{
}

/// A kind code outside the supported set always decodes as unsupported,
/// whatever the payload.
pub proof fn lemma_unsupported_kind(w: EvilVariant)
    requires
        !is_supported_kind(w.vt),
    ensures
        decoded(w) == Err::<TypedVariant, VariantError>(VariantError::UnsupportedVariant),
{
}

} // verus!
