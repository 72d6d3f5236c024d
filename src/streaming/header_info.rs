//! The streaming header: PSF word, format version, kernel version and platform fields.
use vstd::prelude::*;
use vstd::slice::slice_subrange;
use crate::bytes::{read_u16, read_u32, u16_at, u32_at};
use crate::streaming::error::Error;
use crate::text::trimmed_text;
use crate::types::{
    spec_port_identity, Endianness, KernelPortIdentity, KernelVersion, PlatformCfgVersion,
    TrimmedString,
};

verus! {

/// The PSF word as a little-endian reader sees it in a little-endian trace.
pub const PSF_LITTLE_ENDIAN: u32 = 0x50_53_46_00;

/// The PSF word as a little-endian reader sees it in a big-endian trace.
pub const PSF_BIG_ENDIAN: u32 = 0x00_46_53_50;

/// Bytes of the header after the PSF word.
pub const HEADER_BODY_SIZE: usize = 28;

/// The byte order a PSF word announces, if it is one.
pub open spec fn psf_endianness(word: u32) -> Option<Endianness> {
    if word == PSF_LITTLE_ENDIAN {
        Some(Endianness::Little)
    } else if word == PSF_BIG_ENDIAN {
        Some(Endianness::Big)
    } else {
        None
    }
}

/// The two bytes of a 16-bit value, low byte first.
pub open spec fn le_bytes_of(v: u16) -> [u8; 2] {
    [(v % 256) as u8, (v / 256) as u8]
}

/// Metadata at the start of a streaming trace.
#[derive(Clone, Debug, PartialEq, Eq)]
pub struct HeaderInfo {
    pub endianness: Endianness,
    pub format_version: u16,
    pub kernel_version: KernelVersion,
    pub kernel_port: KernelPortIdentity,
    pub options: u32,
    pub irq_priority_order: u32,
    pub num_cores: u32,
    pub isr_tail_chaining_threshold: u32,
    pub platform_cfg: String,
    pub platform_cfg_version: PlatformCfgVersion,
}

/// Format versions 10 and 12 put the platform name before its version; later ones put
/// it after.
pub open spec fn name_first(format_version: u16) -> bool {
    format_version == 10 || format_version == 12
}

/// The header body at `pos` (after the PSF word) decodes to `h`.
pub open spec fn header_matches(h: HeaderInfo, data: Seq<u8>, pos: int, e: Endianness) -> bool {
    let fv = u16_at(data, pos, e);
    let kv = le_bytes_of(u16_at(data, pos + 2, e));
    let options = u32_at(data, pos + 4, e);
    let name_pos = if name_first(fv) { pos + 16 } else { pos + 20 };
    let ver_pos = if name_first(fv) { pos + 24 } else { pos + 16 };
    &&& h.endianness == e
    &&& h.format_version == fv
    &&& h.kernel_version == KernelVersion(kv)
    &&& spec_port_identity(kv) == Ok::<KernelPortIdentity, crate::types::InvalidKernelVersion>(h.kernel_port)
    &&& h.options == options
    &&& h.irq_priority_order == options % 2
    &&& h.num_cores == u32_at(data, pos + 8, e) % 256
    &&& h.isr_tail_chaining_threshold == u32_at(data, pos + 12, e)
    &&& h.platform_cfg@ == trimmed_text(data.subrange(name_pos, name_pos + 8))
    &&& h.platform_cfg_version == PlatformCfgVersion {
        patch: u16_at(data, ver_pos, e),
        minor: data[ver_pos + 2],
        major: data[ver_pos + 3],
    }
}

/// Where decoding a header body at `pos` fails, if it does.
pub open spec fn header_failure(data: Seq<u8>, pos: int, e: Endianness) -> Option<Error> {
    if pos + HEADER_BODY_SIZE > data.len() {
        Some(Error::Io)
    } else {
        let kv = le_bytes_of(u16_at(data, pos + 2, e));
        match spec_port_identity(kv) {
            Ok(_) => None,
            Err(_) => Some(Error::KernelVersion(kv)),
        }
    }
}

/// The first offset at or after `from` where a PSF word (in either order) starts.
pub open spec fn is_psf_at(data: Seq<u8>, i: int) -> bool {
    0 <= i && i + 4 <= data.len() && psf_endianness(u32_at(data, i, Endianness::Little)) is Some
}

impl HeaderInfo {
    /// Decodes the PSF word at `pos`.
    pub fn read_psf_word(data: &[u8], pos: usize) -> (r: Result<Endianness, Error>)
        ensures
            pos + 4 > data@.len() ==> r == Err::<Endianness, Error>(Error::Io),
            r is Ok ==> pos + 4 <= data.len(),
            pos + 4 <= data@.len() ==> r == match psf_endianness(u32_at(data@, pos as int, Endianness::Little)) {
                Some(e) => Ok::<Endianness, Error>(e),
                None => Err(Error::PSFEndiannessIdentifier(u32_at(data@, pos as int, Endianness::Little))),
            },
    {
        let word = match read_u32(data, pos, Endianness::Little) {
            Some(w) => w,
            None => return Err(Error::Io),
        };
        if word == PSF_LITTLE_ENDIAN {
            Ok(Endianness::Little)
        } else if word == PSF_BIG_ENDIAN {
            Ok(Endianness::Big)
        } else {
            Err(Error::PSFEndiannessIdentifier(word))
        }
    }

    /// Decodes a whole header at `pos`, PSF word first; returns it with the position
    /// after it.
    pub fn read(data: &[u8], pos: usize) -> (r: Result<(HeaderInfo, usize), Error>)
        ensures
            pos + 4 > data@.len() ==> r == Err::<(HeaderInfo, usize), Error>(Error::Io),
            pos + 4 <= data@.len() ==> match psf_endianness(u32_at(data@, pos as int, Endianness::Little)) {
                None => r == Err::<(HeaderInfo, usize), Error>(Error::PSFEndiannessIdentifier(
                    u32_at(data@, pos as int, Endianness::Little),
                )),
                Some(e) => match header_failure(data@, pos + 4, e) {
                    Some(x) => r == Err::<(HeaderInfo, usize), Error>(x),
                    None => r matches Ok((h, np)) && np == pos + 4 + HEADER_BODY_SIZE
                        && header_matches(h, data@, pos + 4, e),
                },
            },
    {
        let e = match Self::read_psf_word(data, pos) {
            Ok(e) => e,
            Err(x) => return Err(x),
        };
        Self::read_with_endianness(e, data, pos + 4)
    }

    /// Decodes the header body at `pos`, the PSF word having been read already (as after
    /// a trace restart).
    pub fn read_with_endianness(e: Endianness, data: &[u8], pos: usize) -> (r: Result<(HeaderInfo, usize), Error>)
        ensures
            match header_failure(data@, pos as int, e) {
                Some(x) => r == Err::<(HeaderInfo, usize), Error>(x),
                None => r matches Ok((h, np)) && np == pos + HEADER_BODY_SIZE && header_matches(
                    h,
                    data@,
                    pos as int,
                    e,
                ),
            },
    {
        if pos > data.len() || data.len() - pos < HEADER_BODY_SIZE {
            return Err(Error::Io);
        }
        let format_version = read_u16(data, pos, e).unwrap();
        let platform = read_u16(data, pos + 2, e).unwrap();
        let kv_bytes: [u8; 2] = [(platform % 256) as u8, (platform / 256) as u8];
        let kernel_version = KernelVersion(kv_bytes);
        let kernel_port = match kernel_version.port_identity() {
            Ok(p) => p,
            Err(x) => return Err(Error::KernelVersion(x.0)),
        };
        let options = read_u32(data, pos + 4, e).unwrap();
        let num_cores = read_u32(data, pos + 8, e).unwrap() % 256;
        let isr_tail_chaining_threshold = read_u32(data, pos + 12, e).unwrap();
        let first = format_version == 10 || format_version == 12;
        let name_pos = if first { pos + 16 } else { pos + 20 };
        let ver_pos = if first { pos + 24 } else { pos + 16 };
        let patch = read_u16(data, ver_pos, e).unwrap();
        let minor = data[ver_pos + 2];
        let major = data[ver_pos + 3];
        let name = slice_subrange(data, name_pos, name_pos + 8);
        let platform_cfg = TrimmedString::from_raw(name).0;
        let h = HeaderInfo {
            endianness: e,
            format_version,
            kernel_version,
            kernel_port,
            options,
            irq_priority_order: options % 2,
            num_cores,
            isr_tail_chaining_threshold,
            platform_cfg,
            platform_cfg_version: PlatformCfgVersion { major, minor, patch },
        };
        Ok((h, pos + HEADER_BODY_SIZE))
    }

    /// Finds the first PSF word at or after `pos` (skipping any leading garbage) and
    /// decodes the header there. Returns the header, the offset of its PSF word and the
    /// position after it.
    pub fn find(data: &[u8], pos: usize) -> (r: Result<(HeaderInfo, usize, usize), Error>)
        ensures
            (forall|i: int| pos <= i ==> !#[trigger] is_psf_at(data@, i)) ==> r == Err::<
                (HeaderInfo, usize, usize),
                Error,
            >(Error::Io),
            r matches Ok((h, at, np)) ==> pos <= at && is_psf_at(data@, at as int) && (forall|i: int|
                pos <= i < at ==> !#[trigger] is_psf_at(data@, i)) && np == at + 4 + HEADER_BODY_SIZE
                && header_matches(
                h,
                data@,
                at + 4,
                psf_endianness(u32_at(data@, at as int, Endianness::Little)).unwrap(),
            ),
            (exists|i: int| pos <= i && #[trigger] is_psf_at(data@, i)) && r is Err ==> exists|at: int|
                pos <= at && is_psf_at(data@, at) && (forall|i: int| pos <= i < at ==> !#[trigger] is_psf_at(data@, i))
                && header_failure(
                data@,
                at + 4,
                psf_endianness(u32_at(data@, at, Endianness::Little)).unwrap(),
            ) == Some(r->Err_0),
    {
        let mut i: usize = pos;
        while i < data.len() && data.len() - i >= 4
            invariant
                pos <= i,
                forall|j: int| pos <= j < i ==> !#[trigger] is_psf_at(data@, j),
            decreases data.len() - i,
        {
            let w = read_u32(data, i, Endianness::Little).unwrap();
            if w == PSF_LITTLE_ENDIAN || w == PSF_BIG_ENDIAN {
                let e = if w == PSF_LITTLE_ENDIAN { Endianness::Little } else { Endianness::Big };
                assert(is_psf_at(data@, i as int));
                return match Self::read_with_endianness(e, data, i + 4) {
                    Ok((h, np)) => Ok((h, i, np)),
                    Err(x) => Err(x),
                };
            }
            i += 1;
        }
        proof {
            assert forall|j: int| pos <= j implies !#[trigger] is_psf_at(data@, j) by {
                if j >= i {
                    assert(j + 4 > data@.len());
                }
            }
        }
        Err(Error::Io)
    }
}

} // verus!
