use vstd::prelude::*;
use crate::request::Rotation;

verus! {

/// What the EXIF parser finds in a buffer: `None` when it cannot parse it,
/// else each entry as (is it the orientation tag, its first value as an integer).
pub uninterp spec fn exif_entries_of(b: Seq<u8>) -> Option<Seq<(bool, Option<i64>)>>;

/// Relies on `rexif::parse_buffer_quiet`, with `ExifTag::Orientation` and
/// `TagValue::to_i64(0)` on each entry: the entries depend on the bytes alone.
#[verifier::external_body]
fn exif_entries(buffer: &[u8]) -> (r: Option<Vec<(bool, Option<i64>)>>)
    ensures
        exif_entries_of(buffer@) == (match r {
            Some(v) => Some(v@),
            None => None,
        }),
{
    match rexif::parse_buffer_quiet(buffer).0 {
        Ok(data) => Some(
            data.entries.into_iter().map(|e| (e.tag == rexif::ExifTag::Orientation, e.value.to_i64(0))).collect(),
        ),
        Err(_) => None,
    }
}

/// An entry that asks for a rotation: an orientation tag other than 0 or 1.
pub open spec fn rotating_entry(e: (bool, Option<i64>)) -> bool {
    e.0 && e.1 is Some && e.1->0 != 0 && e.1->0 != 1
}

pub open spec fn rotation_needed(explicit: bool, entries: Option<Seq<(bool, Option<i64>)>>) -> bool {
    explicit || (entries is Some && exists|i: int|
        0 <= i < entries->0.len() && rotating_entry(#[trigger] entries->0[i]))
}

proof fn lemma_entry_found(es: Seq<(bool, Option<i64>)>, i: int)
    requires
        0 <= i < es.len(),
        rotating_entry(es[i]),
    ensures
        rotation_needed(false, Some(es)),
{
    let e: Option<Seq<(bool, Option<i64>)>> = Some(es);
    assert(e->0[i] == es[i]);
}

/// Whether decoding must allow a rotation: an explicit rotation was asked
/// for, or the parsed metadata holds a non-identity orientation.
pub fn rotation_needed_from(explicit: bool, entries: &Option<Vec<(bool, Option<i64>)>>) -> (r: bool)
    ensures
        r == rotation_needed(explicit, match entries {
            Some(v) => Some(v@),
            None => None,
        }),
{
    if explicit {
        return true;
    }
    match entries {
        None => false,
        Some(es) => {
            let mut i: usize = 0;
            while i < es.len()
                invariant
                    i <= es@.len(),
                    !explicit,
                    match entries {
                        Some(v) => v@ == es@,
                        None => false,
                    },
                    forall|j: int| 0 <= j < i ==> !rotating_entry(#[trigger] es@[j]),
                decreases es@.len() - i,
            {
                let (is_orientation, value) = es[i];
                if is_orientation {
                    match value {
                        Some(v) => {
                            if v != 0 && v != 1 {
                                assert(rotating_entry(es@[i as int]));
                                proof { lemma_entry_found(es@, i as int); }
                                return true;
                            }
                        },
                        None => {},
                    }
                }
                i = i + 1;
            }
            false
        },
    }
}

/// Decode access: sequential is a single pass; rotation correction needs random access.
#[derive(Clone, Copy, Debug, PartialEq, Eq)]
pub enum AccessMode {
    Sequential,
    Random,
}

/// Whether the source image needs rotation: asked for explicitly, or tagged so.
/// The metadata is read only where no rotation was asked for.
pub fn needs_rotation(rotation: &Option<Rotation>, buffer: &[u8]) -> (r: bool)
    ensures
        r == rotation_needed(rotation is Some, exif_entries_of(buffer@)),
{
    if rotation.is_some() {
        return true;
    }
    let entries = exif_entries(buffer);
    rotation_needed_from(false, &entries)
}

/// The access mode to decode the source image with.
pub fn decode_access(rotation: &Option<Rotation>, buffer: &[u8]) -> (r: AccessMode)
    ensures
        r == (if rotation_needed(rotation is Some, exif_entries_of(buffer@)) {
            AccessMode::Random
        } else {
            AccessMode::Sequential
        }),
{
    if needs_rotation(rotation, buffer) {
        AccessMode::Random
    } else {
        AccessMode::Sequential
    }
}

} // verus!
