use vstd::prelude::*;

verus! {

/// Why a captured frame could not be converted.
#[derive(Debug, Clone, Copy, PartialEq, Eq, Structural)]
pub enum ConvertError {
    /// The buffer does not hold exactly four bytes for each pixel of the geometry.
    LengthMismatch,
}

/// The frame as it goes on the wire: for every pixel `i` of `frame`, stored as
/// blue, green, red and a fourth byte at `4 * i`, the red, green and blue bytes.
pub open spec fn rgb_of(frame: Seq<u8>, pixels: nat) -> Seq<u8> {
    Seq::new(pixels * 3, |k: int| frame[4 * (k / 3) + 2 - k % 3])
}

/// Reorders a four-byte-per-pixel capture (blue, green, red, padding) of a
/// `width` by `height` display into three bytes per pixel (red, green, blue),
/// raster order kept.
pub fn convert(frame: &[u8], width: usize, height: usize) -> (r: Result<Vec<u8>, ConvertError>)
    ensures
        frame@.len() == width * height * 4 <==> r is Ok,
        r matches Ok(out) ==> out@ == rgb_of(frame@, (width * height) as nat),
        r matches Ok(out) ==> out@.len() == width * height * 3,
{
    let len: usize = frame.len();
    let pixels: usize = match width.checked_mul(height) {
        Some(p) => p,
        None => {
            proof {
                assert(width * height * 4 > usize::MAX) by (nonlinear_arith)
                    requires width * height > usize::MAX;
                assert(frame@.len() == len);
            }
            return Err(ConvertError::LengthMismatch);
        },
    };
    if pixels > usize::MAX / 4 {
        proof {
            assert(pixels * 4 > usize::MAX) by (nonlinear_arith)
                requires pixels > usize::MAX / 4;
            assert(frame@.len() == len);
        }
        return Err(ConvertError::LengthMismatch);
    }
    if len != pixels * 4 {
        return Err(ConvertError::LengthMismatch);
    }
    let mut out: Vec<u8> = Vec::with_capacity(pixels * 3);
    let mut i: usize = 0;
    while i < pixels
        invariant
            i <= pixels,
            pixels == width * height,
            frame@.len() == pixels * 4,
            pixels * 4 <= usize::MAX,
            out@.len() == i * 3,
            forall|k: int| 0 <= k < i * 3 ==> #[trigger] out@[k] == frame@[4 * (k / 3) + 2 - k % 3],
        decreases pixels - i,
    {
        proof {
            assert(i * 4 + 3 < pixels * 4) by (nonlinear_arith)
                requires i < pixels;
        }
        let offset: usize = i * 4;
        let b = frame[offset];
        let g = frame[offset + 1];
        let red = frame[offset + 2];
        out.push(red);
        out.push(g);
        out.push(b);
        proof {
            assert forall|k: int| 0 <= k < (i + 1) * 3 implies #[trigger] out@[k] == frame@[4 * (k / 3) + 2 - k % 3] by {
                if k >= i * 3 {
                    assert(k / 3 == i as int) by (nonlinear_arith)
                        requires i * 3 <= k < (i + 1) * 3;
                }
            }
        }
        i = i + 1;
    }
    assert(out@ =~= rgb_of(frame@, (width * height) as nat));
    Ok(out)
}

/// Converting swaps the channels: for each pixel the output holds the third,
/// second and first byte of the input's four, and the output has three bytes
/// for each pixel.
pub proof fn lemma_channel_swap(frame: Seq<u8>, pixels: nat)
    requires
        frame.len() == pixels * 4,
    ensures
        rgb_of(frame, pixels).len() == pixels * 3,
        forall|i: int| 0 <= i < pixels ==> {
            &&& #[trigger] rgb_of(frame, pixels)[3 * i] == frame[4 * i + 2]
            &&& rgb_of(frame, pixels)[3 * i + 1] == frame[4 * i + 1]
            &&& rgb_of(frame, pixels)[3 * i + 2] == frame[4 * i]
        },
{
    assert forall|i: int| 0 <= i < pixels implies {
        &&& #[trigger] rgb_of(frame, pixels)[3 * i] == frame[4 * i + 2]
        &&& rgb_of(frame, pixels)[3 * i + 1] == frame[4 * i + 1]
        &&& rgb_of(frame, pixels)[3 * i + 2] == frame[4 * i]
    } by {
        assert((3 * i) / 3 == i && (3 * i) % 3 == 0);
        assert((3 * i + 1) / 3 == i && (3 * i + 1) % 3 == 1);
        assert((3 * i + 2) / 3 == i && (3 * i + 2) % 3 == 2);
    }
}

/// Converting is deterministic: the same captured bytes of the same geometry
/// give byte-identical output each time.
pub proof fn lemma_convert_deterministic(first: Seq<u8>, second: Seq<u8>, pixels: nat)
    requires
        first == second,
    ensures
        rgb_of(first, pixels) == rgb_of(second, pixels),
{
}

} // verus!
