//! Pointer samples, and how a raw motion report is read into one.

use vstd::prelude::*;

verus! {

/// Where the pointer is, in whole pixels, and whether the drag button is
/// held.
#[derive(Clone, Copy, Debug, PartialEq, Eq, Structural)]
pub struct PointerSample {
    pub absolute_x: i16,
    pub absolute_y: i16,
    pub drag_engaged: bool,
}

/// A motion report that does not have the expected layout. Its sample is
/// dropped: the tick goes on without it.
#[derive(Clone, Copy, Debug, PartialEq, Eq, Structural)]
pub enum ProtocolDecodeError {
    /// The report carries no button mask.
    MissingButtonMask,
}

/// Number of fractional bits in a reported coordinate.
pub const FRACTION_BITS: u32 = 16;

/// The button that has to be held for motion to count as a drag.
pub const DRAG_BUTTON: u32 = 9;

/// The whole pixel that a fixed-point coordinate with 16 fractional bits
/// lies in: the coordinate divided by 65536, rounded down.
pub open spec fn pixel_of(raw: i32) -> int {
    raw as int / 65536
}

/// Whether the bit of the drag button is set in the first word of a button
/// mask. Button `n` is bit `n`, so the drag button has the value 512.
pub open spec fn drag_button_held(word: u32) -> bool {
    (word as int / 512) % 2 == 1
}

/// The sample that a motion report with these coordinates and this button
/// mask stands for, if it has one.
pub open spec fn decoded(root_x: i32, root_y: i32, button_mask: Seq<u32>) -> Result<
    PointerSample,
    ProtocolDecodeError,
> {
    if button_mask.len() == 0 {
        Err(ProtocolDecodeError::MissingButtonMask)
    } else {
        Ok(
            PointerSample {
                absolute_x: pixel_of(root_x) as i16,
                absolute_y: pixel_of(root_y) as i16,
                drag_engaged: drag_button_held(button_mask[0]),
            },
        )
    }
}

/// Rescales a fixed-point coordinate to whole pixels.
pub fn to_pixel(raw: i32) -> (pixel: i16)
    ensures
        pixel == pixel_of(raw),
{
    let shifted: i32 = raw >> FRACTION_BITS;
    assert(-32768 <= (raw >> 16u32) <= 32767 && (raw >> 16u32) as int == raw as int / 65536)
        by (bit_vector);
    shifted as i16
}

/// Tells whether the drag button is held, from the first word of a button
/// mask.
pub fn is_drag_button_held(word: u32) -> (held: bool)
    ensures
        held == drag_button_held(word),
{
    assert((word & (1u32 << 9u32) != 0) == ((word as int / 512) % 2 == 1)) by (bit_vector);
    word & (1u32 << DRAG_BUTTON) != 0
}

/// Reads a motion report: the two root coordinates in fixed point, and the
/// button mask. Fails exactly when the button mask is empty.
pub fn decode_motion(root_x: i32, root_y: i32, button_mask: &[u32]) -> (sample: Result<
    PointerSample,
    ProtocolDecodeError,
>)
    ensures
        sample == decoded(root_x, root_y, button_mask@),
{
    if button_mask.len() == 0 {
        return Err(ProtocolDecodeError::MissingButtonMask);
    }
    Ok(
        PointerSample {
            absolute_x: to_pixel(root_x),
            absolute_y: to_pixel(root_y),
            drag_engaged: is_drag_button_held(button_mask[0]),
        },
    )
}

/// A decoded coordinate is the pixel itself: every fixed-point coordinate
/// lies in a pixel that fits the sample.
pub proof fn lemma_pixel_in_range(raw: i32)
    ensures
        i16::MIN <= pixel_of(raw) <= i16::MAX,
        pixel_of(raw) * 65536 <= raw < (pixel_of(raw) + 1) * 65536,
{
}

} // verus!
