//! The fixed byte patterns that frame a snapshot and separate its sections.
use vstd::prelude::*;
use crate::bytes::{read_u32, u32_at};
use crate::snapshot::error::Error;
use crate::types::Endianness;

verus! {

/// Size in bytes of a start or end marker.
pub const MARKER_SIZE: usize = 12;

/// The markers around the recorder region.
#[derive(Copy, Clone, Debug, PartialEq, Eq, Structural)]
pub enum MarkerBytes {
    Start,
    End,
}

/// The bytes of a marker.
pub open spec fn marker_bytes(m: MarkerBytes) -> Seq<u8> {
    match m {
        MarkerBytes::Start => seq![0x01u8, 0x02, 0x03, 0x04, 0x71, 0x72, 0x73, 0x74, 0xF1, 0xF2, 0xF3, 0xF4],
        MarkerBytes::End => seq![0x0Au8, 0x0B, 0x0C, 0x0D, 0x71, 0x72, 0x73, 0x74, 0xF1, 0xF2, 0xF3, 0xF4],
    }
}

/// The marker's bytes stand at `pos`.
pub open spec fn marker_at(data: Seq<u8>, pos: int, m: MarkerBytes) -> bool {
    0 <= pos && pos + 12 <= data.len() && data.subrange(pos, pos + 12) == marker_bytes(m)
}

impl MarkerBytes {
    pub fn as_bytes(self) -> (r: [u8; 12])
        ensures
            r@ == marker_bytes(self),
    {
        let r = match self {
            MarkerBytes::Start => [0x01, 0x02, 0x03, 0x04, 0x71, 0x72, 0x73, 0x74, 0xF1, 0xF2, 0xF3, 0xF4],
            MarkerBytes::End => [0x0A, 0x0B, 0x0C, 0x0D, 0x71, 0x72, 0x73, 0x74, 0xF1, 0xF2, 0xF3, 0xF4],
        };
        assert(r@ =~= marker_bytes(self));
        r
    }

    /// Whether the marker stands at `pos`.
    pub fn matches_at(self, data: &[u8], pos: usize) -> (r: bool)
        ensures
            r == marker_at(data@, pos as int, self),
    {
        if pos > data.len() || data.len() - pos < MARKER_SIZE {
            return false;
        }
        let m = self.as_bytes();
        let mut i: usize = 0;
        while i < MARKER_SIZE
            invariant
                i <= 12,
                pos + 12 <= data.len(),
                m@ == marker_bytes(self),
                forall|j: int| 0 <= j < i ==> data@[pos + j] == m@[j],
            decreases MARKER_SIZE - i,
        {
            if data[pos + i] != m[i] {
                assert(data@.subrange(pos as int, pos + 12)[i as int] != marker_bytes(self)[i as int]);
                return false;
            }
            i += 1;
        }
        assert(data@.subrange(pos as int, pos + 12) =~= marker_bytes(self));
        true
    }

    /// Checks that the marker stands at `pos`; returns the position after it.
    pub fn read(self, data: &[u8], pos: usize) -> (r: Result<usize, Error>)
        ensures
            pos + 12 > data@.len() ==> r == Err::<usize, Error>(Error::Io),
            pos + 12 <= data@.len() && marker_at(data@, pos as int, self) ==> r == Ok::<usize, Error>(
                (pos + 12) as usize,
            ),
            pos + 12 <= data@.len() && !marker_at(data@, pos as int, self) ==> (r matches Err(
                Error::MarkerBytes(at, found, m),
            ) && at == pos && m == self && found@ == data@.subrange(pos as int, pos + 12)),
    {
        if pos > data.len() || data.len() - pos < MARKER_SIZE {
            return Err(Error::Io);
        }
        if self.matches_at(data, pos) {
            Ok(pos + MARKER_SIZE)
        } else {
            let mut found: [u8; 12] = [0; 12];
            let mut i: usize = 0;
            while i < MARKER_SIZE
                invariant
                    i <= 12,
                    pos + 12 <= data.len(),
                    found@.len() == 12,
                    forall|j: int| 0 <= j < i ==> found@[j] == data@[pos + j],
                decreases MARKER_SIZE - i,
            {
                found.set(i, data[pos + i]);
                i += 1;
            }
            assert(found@ =~= data@.subrange(pos as int, pos + 12));
            Err(Error::MarkerBytes(pos as u64, found, self))
        }
    }
}

/// The four debug markers between the sections of a snapshot.
#[derive(Copy, Clone, Debug, PartialEq, Eq, Structural)]
pub enum DebugMarker {
    Marker0,
    Marker1,
    Marker2,
    Marker3,
}

/// The word of a debug marker.
pub open spec fn debug_marker_word(m: DebugMarker) -> u32 {
    match m {
        DebugMarker::Marker0 => 0xF0F0F0F0,
        DebugMarker::Marker1 => 0xF1F1F1F1,
        DebugMarker::Marker2 => 0xF2F2F2F2,
        DebugMarker::Marker3 => 0xF3F3F3F3,
    }
}

impl DebugMarker {
    pub fn into_u32(self) -> (r: u32)
        ensures
            r == debug_marker_word(self),
    {
        match self {
            DebugMarker::Marker0 => 0xF0F0F0F0,
            DebugMarker::Marker1 => 0xF1F1F1F1,
            DebugMarker::Marker2 => 0xF2F2F2F2,
            DebugMarker::Marker3 => 0xF3F3F3F3,
        }
    }

    /// Checks that the marker word stands at `pos`; returns the position after it.
    pub fn read(self, data: &[u8], pos: usize) -> (r: Result<usize, Error>)
        ensures
            pos + 4 > data@.len() ==> r == Err::<usize, Error>(Error::Io),
            pos + 4 <= data@.len() ==> r == if u32_at(data@, pos as int, Endianness::Little)
                == debug_marker_word(self) {
                Ok::<usize, Error>((pos + 4) as usize)
            } else {
                Err(Error::DebugMarker(pos as u64, u32_at(data@, pos as int, Endianness::Little), self))
            },
    {
        let marker = match read_u32(data, pos, Endianness::Little) {
            Some(w) => w,
            None => return Err(Error::Io),
        };
        if marker != self.into_u32() {
            Err(Error::DebugMarker(pos as u64, marker, self))
        } else {
            Ok(pos + 4)
        }
    }
}

} // verus!
