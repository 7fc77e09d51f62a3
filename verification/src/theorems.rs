use vstd::prelude::*;
use crate::aead::absent_or_filled;
use crate::aead::fits_length;
use crate::aead::ModeInfoView;
use crate::error::AeadError;
use crate::wire::chain_bit;
use crate::wire::descriptor_size_spec;
use crate::wire::project;
use crate::wire::WireBufferView;
use crate::wire::WireDescriptorView;
use crate::wire::AUTHENTICATED_CIPHER_MODE_INFO_VERSION;

verus! {

/// The wire pair of a buffer that fits a 32-bit length is always
/// consistent: the pointer is null exactly when the length is zero, the
/// length is that of the buffer, and the bytes at the pointer are the
/// buffer's.
pub proof fn project_is_paired_and_readable(buffer: Option<Seq<u8>>)
    requires
        fits_length(buffer),
    ensures
        project(buffer).paired(),
        project(buffer).readable(),
        project(buffer).is_null() <==> (buffer matches Some(s) ==> s.len() == 0),
        buffer matches Some(s) ==> project(buffer).len == s.len() && project(buffer).bytes() == s,
        buffer is None ==> project(buffer) == WireBufferView::null(),
{
    match buffer {
        Some(s) => {
            assert(s.subrange(0, s.len() as int) =~= s);
            if s.len() == 0 {
                assert(s =~= Seq::<u8>::empty());
            }
        },
        None => {},
    }
}

/// Every descriptor whose buffers fit 32-bit lengths has a wire form in
/// which each pointer and length pair agrees and each pointer is readable,
/// with the layout's size and version and with counters and flags
/// unchanged.
pub proof fn encode_is_paired_and_readable(x: ModeInfoView)
    requires
        x.fits_wire(),
    ensures
        x.encode().paired(),
        x.encode().readable(),
        x.encode().size == descriptor_size_spec(),
        x.encode().version == AUTHENTICATED_CIPHER_MODE_INFO_VERSION,
        x.encode().aad_size == x.aad_size,
        x.encode().data_size == x.data_size,
        x.encode().flags == x.flags,
{
    project_is_paired_and_readable(Some(x.nonce));
    project_is_paired_and_readable(x.auth_data);
    project_is_paired_and_readable(x.tag);
    project_is_paired_and_readable(x.mac_context);
}

/// Round trip: reading back the wire form of a descriptor gives the
/// descriptor again, buffers byte for byte and counters and flags
/// unchanged, provided that its chaining context agrees with its chain
/// flag, its buffers fit 32-bit lengths, and each optional buffer that is
/// present holds at least one byte.
pub proof fn decode_encode_round_trip(x: ModeInfoView)
    requires
        x.chaining_valid(),
        x.fits_wire(),
        absent_or_filled(x.auth_data),
        absent_or_filled(x.tag),
    ensures
        ModeInfoView::decode(x.encode()) == Ok::<ModeInfoView, AeadError>(x),
{
    project_is_paired_and_readable(Some(x.nonce));
    project_is_paired_and_readable(x.auth_data);
    project_is_paired_and_readable(x.tag);
    project_is_paired_and_readable(x.mac_context);
    let w = x.encode();
    assert(w.paired());
    assert(w.chaining_valid());
    assert(w.nonce.bytes() =~= x.nonce);
}

/// A present but empty optional buffer does not survive the round trip: it
/// is read back as absent.
pub proof fn empty_buffer_reads_back_absent(x: ModeInfoView)
    requires
        x.chaining_valid(),
        x.fits_wire(),
        x.auth_data == Some(Seq::<u8>::empty()),
    ensures
        ModeInfoView::decode(x.encode()) is Ok,
        ModeInfoView::decode(x.encode())->Ok_0.auth_data is None,
{
    project_is_paired_and_readable(Some(x.nonce));
    project_is_paired_and_readable(x.auth_data);
    project_is_paired_and_readable(x.tag);
    project_is_paired_and_readable(x.mac_context);
}

/// A wire descriptor with every pointer null, every length zero and the
/// chain bit clear reads back as a descriptor with no nonce, no associated
/// data, no tag and no chaining context, and with the wire's counters and
/// flags.
pub proof fn decode_of_all_null(w: WireDescriptorView)
    requires
        w.nonce == WireBufferView::null(),
        w.auth_data == WireBufferView::null(),
        w.tag == WireBufferView::null(),
        w.mac_context == WireBufferView::null(),
        !chain_bit(w.flags),
    ensures
        ModeInfoView::decode(w) is Ok,
        ModeInfoView::decode(w)->Ok_0.nonce == Seq::<u8>::empty(),
        ModeInfoView::decode(w)->Ok_0.auth_data is None,
        ModeInfoView::decode(w)->Ok_0.tag is None,
        ModeInfoView::decode(w)->Ok_0.mac_context is None,
        ModeInfoView::decode(w)->Ok_0.aad_size == w.aad_size,
        ModeInfoView::decode(w)->Ok_0.data_size == w.data_size,
        ModeInfoView::decode(w)->Ok_0.flags == w.flags,
{
}

/// With every pointer null and every length zero but the chain bit set,
/// reading back fails: the chaining context that the flag calls for is
/// missing.
pub proof fn decode_of_all_null_chained(w: WireDescriptorView)
    requires
        w.nonce == WireBufferView::null(),
        w.auth_data == WireBufferView::null(),
        w.tag == WireBufferView::null(),
        w.mac_context == WireBufferView::null(),
        chain_bit(w.flags),
    ensures
        ModeInfoView::decode(w) == Err::<ModeInfoView, AeadError>(
            AeadError::InvalidChainingContextSize,
        ),
{
}

/// Whatever reads back successfully has a chaining context exactly when its
/// chain bit is set, sixteen bytes long, and buffers that fit the wire, so
/// it can be projected again for the next call of a chain.
pub proof fn decoded_is_valid(w: WireDescriptorView)
    requires
        w.readable(),
        ModeInfoView::decode(w) is Ok,
    ensures
        ModeInfoView::decode(w)->Ok_0.chaining_valid(),
        ModeInfoView::decode(w)->Ok_0.fits_wire(),
{
}

} // verus!
