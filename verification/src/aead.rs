use vstd::prelude::*;
use crate::error::AeadError;
use crate::wire::chain_bit;
use crate::wire::descriptor_size;
use crate::wire::descriptor_size_spec;
use crate::wire::has_chain_bit;
use crate::wire::project;
use crate::wire::WireBuffer;
use crate::wire::WireBufferView;
use crate::wire::WireDescriptor;
use crate::wire::WireDescriptorView;
use crate::wire::AUTHENTICATED_CIPHER_MODE_INFO_VERSION;
use crate::wire::AUTH_MODE_CHAIN_CALLS_FLAG;
use crate::wire::MAC_CONTEXT_LEN;

verus! {

/// Parameters of one authenticated-cipher operation, or of one chained
/// sequence of calls, with every buffer owned.
///
/// An empty `nonce` stands for an absent one; that state arises only from
/// reading back a descriptor whose nonce pointer is null. `aad_size`,
/// `data_size` and `flags` are what the provider last wrote; the two sizes
/// say nothing before the first call.
#[derive(Debug, PartialOrd, PartialEq, Clone)]
pub struct AuthenticatedCipherModeInfo {
    pub nonce: Vec<u8>,
    pub auth_data: Option<Vec<u8>>,
    pub tag: Option<Vec<u8>>,
    pub mac_context: Option<Vec<u8>>,
    pub aad_size: u32,
    pub data_size: u64,
    pub flags: u32,
}

/// What an [`AuthenticatedCipherModeInfo`] holds, as mathematical values.
pub ghost struct ModeInfoView {
    pub nonce: Seq<u8>,
    pub auth_data: Option<Seq<u8>>,
    pub tag: Option<Seq<u8>>,
    pub mac_context: Option<Seq<u8>>,
    pub aad_size: u32,
    pub data_size: u64,
    pub flags: u32,
}

/// The bytes of an optional buffer.
pub open spec fn bytes_of(buffer: Option<Vec<u8>>) -> Option<Seq<u8>> {
    match buffer {
        Some(v) => Some(v@),
        None => None,
    }
}

/// Sixteen zero bytes: a chaining context before the first call.
pub open spec fn fresh_mac_context() -> Seq<u8> {
    Seq::new(MAC_CONTEXT_LEN as nat, |i: int| 0u8)
}

/// An optional buffer fits a 32-bit length field.
pub open spec fn fits_length(buffer: Option<Seq<u8>>) -> bool {
    match buffer {
        Some(s) => s.len() <= u32::MAX,
        None => true,
    }
}

/// An optional buffer is absent or holds at least one byte.
pub open spec fn absent_or_filled(buffer: Option<Seq<u8>>) -> bool {
    match buffer {
        Some(s) => s.len() > 0,
        None => true,
    }
}

/// The owned buffer read back from a wire pair: absent behind a null
/// pointer, else a copy of the bytes at the pointer.
pub open spec fn unproject(w: WireBufferView) -> Option<Seq<u8>> {
    if w.is_null() {
        None
    } else {
        Some(w.bytes())
    }
}

impl ModeInfoView {
    /// The chaining context is present exactly when the chain bit is set,
    /// and is sixteen bytes long when present.
    pub open spec fn chaining_valid(self) -> bool {
        &&& self.mac_context is Some <==> chain_bit(self.flags)
        &&& self.mac_context matches Some(c) ==> c.len() == MAC_CONTEXT_LEN
    }

    /// Every buffer fits a 32-bit length field.
    pub open spec fn fits_wire(self) -> bool {
        &&& self.nonce.len() <= u32::MAX
        &&& fits_length(self.auth_data)
        &&& fits_length(self.tag)
        &&& fits_length(self.mac_context)
    }

    /// The descriptor that construction yields for a non-empty nonce.
    pub open spec fn fresh(
        nonce: Seq<u8>,
        tag: Option<Seq<u8>>,
        auth_data: Option<Seq<u8>>,
        is_chained: bool,
    ) -> ModeInfoView {
        ModeInfoView {
            nonce,
            auth_data,
            tag,
            mac_context: if is_chained {
                Some(fresh_mac_context())
            } else {
                None
            },
            aad_size: 0,
            data_size: 0,
            flags: if is_chained {
                AUTH_MODE_CHAIN_CALLS_FLAG
            } else {
                0
            },
        }
    }

    /// The wire form: the layout's size and version, one pointer and length
    /// pair per buffer, and the counters and flags as they stand.
    pub open spec fn encode(self) -> WireDescriptorView {
        WireDescriptorView {
            size: descriptor_size_spec(),
            version: AUTHENTICATED_CIPHER_MODE_INFO_VERSION,
            nonce: project(Some(self.nonce)),
            auth_data: project(self.auth_data),
            tag: project(self.tag),
            mac_context: project(self.mac_context),
            aad_size: self.aad_size,
            data_size: self.data_size,
            flags: self.flags,
        }
    }

    /// What reading a wire descriptor back gives. Pointer and length pairs
    /// are checked first, the chaining context after them.
    pub open spec fn decode(w: WireDescriptorView) -> Result<ModeInfoView, AeadError> {
        if !w.paired() {
            Err(AeadError::NullPointerOnDecode)
        } else if !w.chaining_valid() {
            Err(AeadError::InvalidChainingContextSize)
        } else {
            Ok(
                ModeInfoView {
                    nonce: w.nonce.bytes(),
                    auth_data: unproject(w.auth_data),
                    tag: unproject(w.tag),
                    mac_context: unproject(w.mac_context),
                    aad_size: w.aad_size,
                    data_size: w.data_size,
                    flags: w.flags,
                },
            )
        }
    }
}

impl View for AuthenticatedCipherModeInfo {
    type V = ModeInfoView;

    open spec fn view(&self) -> ModeInfoView {
        ModeInfoView {
            nonce: self.nonce@,
            auth_data: bytes_of(self.auth_data),
            tag: bytes_of(self.tag),
            mac_context: bytes_of(self.mac_context),
            aad_size: self.aad_size,
            data_size: self.data_size,
            flags: self.flags,
        }
    }
}

/// The wire pair for an optional owned buffer.
fn project_buffer<'a>(buffer: &'a Option<Vec<u8>>) -> (w: WireBuffer<'a>)
    requires
        fits_length(bytes_of(*buffer)),
    ensures
        w@ == project(bytes_of(*buffer)),
{
    match buffer {
        Some(v) => WireBuffer::borrow_from(v.as_slice()),
        None => WireBuffer::null(),
    }
}

/// The optional owned buffer behind a wire pair.
fn unproject_buffer(w: &WireBuffer) -> (buffer: Option<Vec<u8>>)
    requires
        w@.readable(),
    ensures
        bytes_of(buffer) == unproject(w@),
{
    if w.is_null() {
        None
    } else {
        Some(w.copy_out())
    }
}

/// Whether an optional owned buffer fits a 32-bit length field.
fn buffer_fits(buffer: &Option<Vec<u8>>) -> (b: bool)
    ensures
        b == fits_length(bytes_of(*buffer)),
{
    match buffer {
        Some(v) => v.len() <= u32::MAX as usize,
        None => true,
    }
}

impl AuthenticatedCipherModeInfo {
    /// Whether every buffer fits a 32-bit length field, as projecting onto
    /// the wire layout needs.
    pub fn fits_wire(&self) -> (b: bool)
        ensures
            b == self@.fits_wire(),
    {
        self.nonce.len() <= u32::MAX as usize && buffer_fits(&self.auth_data) && buffer_fits(
            &self.tag,
        ) && buffer_fits(&self.mac_context)
    }

    /// Builds the parameters of a new operation.
    ///
    /// An empty nonce is refused with [`AeadError::MissingNonce`]. A chained
    /// operation starts with the chain flag set and a chaining context of
    /// sixteen zero bytes; an unchained one has neither. Both counters start
    /// at zero.
    pub fn new(
        nonce: Vec<u8>,
        tag: Option<Vec<u8>>,
        auth_data: Option<Vec<u8>>,
        is_chained: bool,
    ) -> (r: Result<Self, AeadError>)
        ensures
            nonce@.len() == 0 ==> r == Err::<Self, AeadError>(AeadError::MissingNonce),
            nonce@.len() > 0 ==> r is Ok && r->Ok_0@ == ModeInfoView::fresh(
                nonce@,
                bytes_of(tag),
                bytes_of(auth_data),
                is_chained,
            ),
            r matches Ok(info) ==> info@.chaining_valid() && (chain_bit(info.flags) <==> is_chained)
                && (is_chained ==> info@.mac_context == Some(fresh_mac_context())) && (!is_chained
                ==> info@.mac_context is None),
    {
        if nonce.len() == 0 {
            return Err(AeadError::MissingNonce);
        }
        let mut flags: u32 = 0;
        let mut mac_context: Option<Vec<u8>> = None;
        if is_chained {
            flags = flags | AUTH_MODE_CHAIN_CALLS_FLAG;
            let zeroes: Vec<u8> = vec![0u8; MAC_CONTEXT_LEN];
            assert(zeroes@ =~= fresh_mac_context());
            mac_context = Some(zeroes);
        }
        assert(0u32 | 1u32 == 1u32 && 1u32 & 1u32 == 1u32 && 0u32 & 1u32 == 0u32) by (bit_vector);
        Ok(
            AuthenticatedCipherModeInfo {
                nonce,
                auth_data,
                tag,
                mac_context,
                aad_size: 0,
                data_size: 0,
                flags,
            },
        )
    }

    /// Projects the parameters onto the wire layout for one provider call.
    ///
    /// The result borrows every buffer it points to, so it cannot be kept
    /// past the parameters it was made from. A buffer that is absent or
    /// empty becomes the null pointer with length zero.
    pub fn to_bcrypt_struct(&self) -> (w: WireDescriptor<'_>)
        requires
            self@.fits_wire(),
        ensures
            w@ == self@.encode(),
            w@.paired(),
            w@.readable(),
    {
        proof {
            crate::theorems::encode_is_paired_and_readable(self@);
        }
        WireDescriptor {
            size: descriptor_size(),
            version: AUTHENTICATED_CIPHER_MODE_INFO_VERSION,
            nonce: WireBuffer::borrow_from(self.nonce.as_slice()),
            auth_data: project_buffer(&self.auth_data),
            tag: project_buffer(&self.tag),
            mac_context: project_buffer(&self.mac_context),
            aad_size: self.aad_size,
            data_size: self.data_size,
            flags: self.flags,
        }
    }

    /// Reads a wire descriptor back into parameters that own fresh copies
    /// of every buffer.
    ///
    /// Fails with [`AeadError::NullPointerOnDecode`] when some pointer and
    /// its length disagree; otherwise with
    /// [`AeadError::InvalidChainingContextSize`] when the chaining context
    /// is not sixteen bytes long or its presence disagrees with the chain
    /// flag. The counters and flags are taken over as they are.
    pub fn from_bcrypt_struct(data: &WireDescriptor) -> (r: Result<Self, AeadError>)
        requires
            data@.readable(),
        ensures
            match r {
                Ok(info) => ModeInfoView::decode(data@) == Ok::<ModeInfoView, AeadError>(info@),
                Err(e) => ModeInfoView::decode(data@) == Err::<ModeInfoView, AeadError>(e),
            },
            r matches Ok(info) ==> info@.chaining_valid() && info@.fits_wire(),
    {
        if !(data.nonce.is_paired() && data.auth_data.is_paired() && data.tag.is_paired()
            && data.mac_context.is_paired()) {
            return Err(AeadError::NullPointerOnDecode);
        }
        let chained: bool = has_chain_bit(data.flags);
        let has_context: bool = !data.mac_context.is_null();
        if has_context != chained || (has_context && data.mac_context.len as usize
            != MAC_CONTEXT_LEN) {
            return Err(AeadError::InvalidChainingContextSize);
        }
        Ok(
            AuthenticatedCipherModeInfo {
                nonce: data.nonce.copy_out(),
                auth_data: unproject_buffer(&data.auth_data),
                tag: unproject_buffer(&data.tag),
                mac_context: unproject_buffer(&data.mac_context),
                aad_size: data.aad_size,
                data_size: data.data_size,
                flags: data.flags,
            },
        )
    }

    /// Replaces the parameters by what `data` holds after a provider call.
    ///
    /// On failure, which comes exactly when
    /// [`AuthenticatedCipherModeInfo::from_bcrypt_struct`] fails, nothing
    /// is changed.
    pub fn update_from_raw(&mut self, data: &WireDescriptor) -> (r: Result<(), AeadError>)
        requires
            data@.readable(),
        ensures
            match r {
                Ok(_) => ModeInfoView::decode(data@) == Ok::<ModeInfoView, AeadError>(
                    final(self)@,
                ),
                Err(e) => ModeInfoView::decode(data@) == Err::<ModeInfoView, AeadError>(e)
                    && *final(self) == *old(self),
            },
    {
        match Self::from_bcrypt_struct(data) {
            Ok(info) => {
                *self = info;
                Ok(())
            },
            Err(e) => Err(e),
        }
    }
}

} // verus!
