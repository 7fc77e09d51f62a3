use vstd::prelude::*;

verus! {

/// Version number that the provider expects in every descriptor.
pub const AUTHENTICATED_CIPHER_MODE_INFO_VERSION: u32 = 1;

/// Flag bit 0: the operation is split over several provider calls.
pub const AUTH_MODE_CHAIN_CALLS_FLAG: u32 = 1;

/// Length of a chaining context, in bytes.
pub const MAC_CONTEXT_LEN: usize = 16;

/// Whether bit 0 of `flags` is set.
pub open spec fn chain_bit(flags: u32) -> bool {
    flags & AUTH_MODE_CHAIN_CALLS_FLAG == AUTH_MODE_CHAIN_CALLS_FLAG
}

/// Whether bit 0 of `flags` is set.
pub fn has_chain_bit(flags: u32) -> (b: bool)
    ensures
        b == chain_bit(flags),
{
    flags & AUTH_MODE_CHAIN_CALLS_FLAG == AUTH_MODE_CHAIN_CALLS_FLAG
}

/// The first offset at or after `offset` that is a multiple of `align`.
pub open spec fn align_up(offset: nat, align: nat) -> nat
    recommends
        align > 0,
{
    if offset % align == 0 {
        offset
    } else {
        (offset + align - offset % align) as nat
    }
}

/// The offset just past a field of `size` bytes that is placed at the first
/// multiple of `align` at or after `offset`.
pub open spec fn after_field(offset: nat, size: nat, align: nat) -> nat
    recommends
        align > 0,
{
    align_up(offset, align) + size
}

/// The offset just past a pointer of `pointer_bytes` bytes and the 32-bit
/// length that follows it.
pub open spec fn after_pair(offset: nat, pointer_bytes: nat) -> nat
    recommends
        pointer_bytes > 0,
{
    after_field(after_field(offset, pointer_bytes, pointer_bytes), 4, 4)
}

/// Byte size of the wire layout on a machine whose pointers take
/// `pointer_bytes` bytes. In order: the 32-bit size and version, the four
/// pointer and length pairs, the 32-bit and the 64-bit counter and the
/// 32-bit flags, each at its natural alignment, and padding to the
/// alignment of the 64-bit counter.
pub open spec fn layout_size(pointer_bytes: nat) -> nat
    recommends
        pointer_bytes > 0,
{
    let header = after_field(after_field(0, 4, 4), 4, 4);
    let pairs = after_pair(
        after_pair(after_pair(after_pair(header, pointer_bytes), pointer_bytes), pointer_bytes),
        pointer_bytes,
    );
    let counters = after_field(after_field(pairs, 4, 4), 8, 8);
    let flags = after_field(counters, 4, 4);
    align_up(flags, 8)
}

/// Byte size of the wire layout on this machine.
pub open spec fn descriptor_size_spec() -> u32 {
    layout_size(vstd::layout::size_of::<usize>()) as u32
}

/// The layout takes 88 bytes with 8-byte pointers and 64 bytes with 4-byte
/// pointers.
pub proof fn layout_size_of_known_widths()
    ensures
        layout_size(8) == 88,
        layout_size(4) == 64,
{
    assert(after_field(after_field(0, 4, 4), 4, 4) == 8);
    assert(after_pair(8, 8) == 20);
    assert(after_pair(20, 8) == 36);
    assert(after_pair(36, 8) == 52);
    assert(after_pair(52, 8) == 68);
    assert(after_field(after_field(68, 4, 4), 8, 8) == 80);
    assert(align_up(after_field(80, 4, 4), 8) == 88);
    assert(after_pair(8, 4) == 16);
    assert(after_pair(16, 4) == 24);
    assert(after_pair(24, 4) == 32);
    assert(after_pair(32, 4) == 40);
    assert(after_field(after_field(40, 4, 4), 8, 8) == 56);
    assert(align_up(after_field(56, 4, 4), 8) == 64);
}

/// Byte size of the wire layout on this machine: the value of the
/// descriptor's own size field.
pub fn descriptor_size() -> (n: u32)
    ensures
        n == descriptor_size_spec(),
        n == 88 || n == 64,
{
    proof {
        broadcast use vstd::layout::layout_of_primitives;
        layout_size_of_known_widths();
    }
    if core::mem::size_of::<usize>() == 8 {
        88
    } else {
        64
    }
}

/// One pointer and length pair of the wire layout.
///
/// `region` stands for the pointer: `None` is the null pointer, `Some(r)` a
/// pointer to the bytes `r`. `len` is the 32-bit length stored beside it.
#[derive(Debug, Clone, Copy)]
pub struct WireBuffer<'a> {
    pub region: Option<&'a [u8]>,
    pub len: u32,
}

/// What a [`WireBuffer`] holds, as mathematical values.
pub ghost struct WireBufferView {
    pub region: Option<Seq<u8>>,
    pub len: u32,
}

impl WireBufferView {
    /// The null pointer with length zero.
    pub open spec fn null() -> WireBufferView {
        WireBufferView { region: None, len: 0 }
    }

    /// The pointer is null.
    pub open spec fn is_null(self) -> bool {
        self.region is None
    }

    /// Pointer and length agree: null exactly when the length is zero.
    pub open spec fn paired(self) -> bool {
        self.is_null() <==> self.len == 0
    }

    /// The pointer, when not null, can be read for `len` bytes.
    pub open spec fn readable(self) -> bool {
        match self.region {
            Some(r) => self.len <= r.len(),
            None => true,
        }
    }

    /// The `len` bytes at the pointer; nothing behind a null pointer.
    pub open spec fn bytes(self) -> Seq<u8> {
        match self.region {
            Some(r) => r.subrange(0, self.len as int),
            None => Seq::empty(),
        }
    }
}

impl<'a> View for WireBuffer<'a> {
    type V = WireBufferView;

    open spec fn view(&self) -> WireBufferView {
        WireBufferView {
            region: match self.region {
                Some(r) => Some(r@),
                None => None,
            },
            len: self.len,
        }
    }
}

impl<'a> WireBuffer<'a> {
    /// The null pointer with length zero.
    pub fn null() -> (w: WireBuffer<'a>)
        ensures
            w@ == WireBufferView::null(),
    {
        WireBuffer { region: None, len: 0 }
    }

    /// A pointer to `bytes` with their length; the null pair when `bytes` is
    /// empty, so that pointer and length always agree.
    pub fn borrow_from(bytes: &'a [u8]) -> (w: WireBuffer<'a>)
        requires
            bytes@.len() <= u32::MAX,
        ensures
            w@ == project(Some(bytes@)),
            w@.paired(),
            w@.readable(),
            w@.bytes() == bytes@,
    {
        let n: usize = bytes.len();
        if n == 0 {
            assert(bytes@ =~= Seq::empty());
            WireBuffer { region: None, len: 0 }
        } else {
            assert(bytes@.subrange(0, n as int) =~= bytes@);
            WireBuffer { region: Some(bytes), len: n as u32 }
        }
    }

    /// Whether the pointer is null.
    pub fn is_null(&self) -> (b: bool)
        ensures
            b == self@.is_null(),
    {
        self.region.is_none()
    }

    /// Whether pointer and length agree.
    pub fn is_paired(&self) -> (b: bool)
        ensures
            b == self@.paired(),
    {
        self.region.is_none() == (self.len == 0)
    }

    /// Whether the pointer, when not null, can be read for `len` bytes.
    pub fn is_readable(&self) -> (b: bool)
        ensures
            b == self@.readable(),
    {
        match self.region {
            Some(r) => self.len as usize <= r.len(),
            None => true,
        }
    }

    /// Copies the `len` bytes at the pointer into a buffer of their own.
    /// A null pointer gives the empty buffer.
    pub fn copy_out(&self) -> (v: Vec<u8>)
        requires
            self@.readable(),
        ensures
            v@ == self@.bytes(),
    {
        let mut v: Vec<u8> = Vec::new();
        match self.region {
            None => {},
            Some(r) => {
                let n: usize = self.len as usize;
                let mut i: usize = 0;
                while i < n
                    invariant
                        i <= n,
                        n <= r@.len(),
                        v@ == r@.subrange(0, i as int),
                    decreases n - i,
                {
                    v.push(r[i]);
                    i = i + 1;
                    assert(v@ =~= r@.subrange(0, i as int));
                }
            },
        }
        v
    }
}

/// The wire pair that stands for an optional owned buffer: a pointer to its
/// bytes with their length, or the null pair when the buffer is absent or
/// empty.
pub open spec fn project(buffer: Option<Seq<u8>>) -> WireBufferView {
    match buffer {
        Some(s) => if s.len() > 0 {
            WireBufferView { region: Some(s), len: s.len() as u32 }
        } else {
            WireBufferView::null()
        },
        None => WireBufferView::null(),
    }
}

/// The fixed-layout record handed to the provider for the length of one
/// call. Field order is that of the layout.
#[derive(Debug, Clone, Copy)]
pub struct WireDescriptor<'a> {
    pub size: u32,
    pub version: u32,
    pub nonce: WireBuffer<'a>,
    pub auth_data: WireBuffer<'a>,
    pub tag: WireBuffer<'a>,
    pub mac_context: WireBuffer<'a>,
    pub aad_size: u32,
    pub data_size: u64,
    pub flags: u32,
}

/// What a [`WireDescriptor`] holds, as mathematical values.
pub ghost struct WireDescriptorView {
    pub size: u32,
    pub version: u32,
    pub nonce: WireBufferView,
    pub auth_data: WireBufferView,
    pub tag: WireBufferView,
    pub mac_context: WireBufferView,
    pub aad_size: u32,
    pub data_size: u64,
    pub flags: u32,
}

impl WireDescriptorView {
    /// Every pointer and length pair agrees.
    pub open spec fn paired(self) -> bool {
        &&& self.nonce.paired()
        &&& self.auth_data.paired()
        &&& self.tag.paired()
        &&& self.mac_context.paired()
    }

    /// Every non-null pointer can be read for its length.
    pub open spec fn readable(self) -> bool {
        &&& self.nonce.readable()
        &&& self.auth_data.readable()
        &&& self.tag.readable()
        &&& self.mac_context.readable()
    }

    /// The chaining context is present exactly when the chain bit is set,
    /// and is sixteen bytes long when present.
    pub open spec fn chaining_valid(self) -> bool {
        &&& !self.mac_context.is_null() <==> chain_bit(self.flags)
        &&& !self.mac_context.is_null() ==> self.mac_context.len == MAC_CONTEXT_LEN
    }
}

impl<'a> View for WireDescriptor<'a> {
    type V = WireDescriptorView;

    open spec fn view(&self) -> WireDescriptorView {
        WireDescriptorView {
            size: self.size,
            version: self.version,
            nonce: self.nonce@,
            auth_data: self.auth_data@,
            tag: self.tag@,
            mac_context: self.mac_context@,
            aad_size: self.aad_size,
            data_size: self.data_size,
            flags: self.flags,
        }
    }
}

impl<'a> WireDescriptor<'a> {
    /// Whether every non-null pointer can be read for its length.
    pub fn is_readable(&self) -> (b: bool)
        ensures
            b == self@.readable(),
    {
        self.nonce.is_readable() && self.auth_data.is_readable() && self.tag.is_readable()
            && self.mac_context.is_readable()
    }
}

} // verus!
