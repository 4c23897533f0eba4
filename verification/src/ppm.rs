use crate::canvas::Canvas;
use crate::rgb::Rgb;
use vstd::prelude::*;

verus! {

/// The shortest base-10 ASCII rendering of `n`: most significant digit
/// first, no sign, no leading zero except for `n == 0` itself.
pub open spec fn decimal_bytes(n: nat) -> Seq<u8>
    decreases n,
{
    if n < 10 {
        seq![(n + 48) as u8]
    } else {
        decimal_bytes(n / 10).push((n % 10 + 48) as u8)
    }
}

/// The P6 header for a `width` by `height` image with maximum channel value
/// 255: the ASCII bytes of `"P6 {width} {height} 255\n"`, space-separated,
/// ending in a single line feed.
pub open spec fn header_bytes(width: nat, height: nat) -> Seq<u8> {
    seq![80u8, 54u8, 32u8] + decimal_bytes(width) + seq![32u8] + decimal_bytes(height) + seq![
        32u8,
        50u8,
        53u8,
        53u8,
        10u8,
    ]
}

/// The P6 body for the given row-major pixel sequence: three bytes per
/// pixel in (red, green, blue) order, no padding and no separators.
pub open spec fn body_bytes(pixels: Seq<Rgb>) -> Seq<u8>
    decreases pixels.len(),
{
    if pixels.len() == 0 {
        Seq::empty()
    } else {
        body_bytes(pixels.drop_last()) + seq![
            pixels.last().r,
            pixels.last().g,
            pixels.last().b,
        ]
    }
}

/// The body holds exactly three bytes for each pixel.
pub proof fn lemma_body_bytes_len(pixels: Seq<Rgb>)
    ensures
        body_bytes(pixels).len() == 3 * pixels.len(),
    decreases pixels.len(),
{
    if pixels.len() > 0 {
        lemma_body_bytes_len(pixels.drop_last());
    }
}

/// PPM body byte mapping: the pixel at row-major index `i` occupies bytes
/// `3 * i`, `3 * i + 1` and `3 * i + 2` of the body, holding its red, green
/// and blue channels in that order.
pub proof fn lemma_body_byte_mapping(pixels: Seq<Rgb>, i: int)
    requires
        0 <= i < pixels.len(),
    ensures
        body_bytes(pixels).len() == 3 * pixels.len(),
        body_bytes(pixels)[3 * i] == pixels[i].r,
        body_bytes(pixels)[3 * i + 1] == pixels[i].g,
        body_bytes(pixels)[3 * i + 2] == pixels[i].b,
    decreases pixels.len(),
{
    lemma_body_bytes_len(pixels);
    if i < pixels.len() - 1 {
        lemma_body_byte_mapping(pixels.drop_last(), i);
    }
}

/// Renders `n` in base 10 as ASCII digit bytes.
fn decimal(n: usize) -> (digits: Vec<u8>)
    ensures
        digits@ == decimal_bytes(n as nat),
    decreases n,
{
    if n < 10 {
        let mut digits: Vec<u8> = Vec::new();
        digits.push((n as u8) + 48);
        digits
    } else {
        let mut digits = decimal(n / 10);
        digits.push(((n % 10) as u8) + 48);
        digits
    }
}

/// A canvas serialized into the binary P6 Portable Pixmap format: the ASCII
/// header followed by the raw pixel bytes, as one owned buffer.
pub struct PPM {
    content: Vec<u8>,
}

impl View for PPM {
    type V = Seq<u8>;

    /// The encoded image as a byte sequence.
    closed spec fn view(&self) -> Seq<u8> {
        self.content@
    }
}

impl PPM {
    /// Encodes `canvas`: the header of `header_bytes` followed by the body
    /// of `body_bytes`, nothing else.
    pub fn new(canvas: &Canvas<Rgb>) -> (ppm: PPM)
        requires
            canvas.wf(),
        ensures
            ppm@ == header_bytes(canvas.spec_width() as nat, canvas.spec_height() as nat)
                + body_bytes(canvas@),
    {
        let mut content = PPM::create_header(canvas);
        let mut body = PPM::create_body(canvas);
        content.append(&mut body);
        PPM { content }
    }

    /// Builds the ASCII header `"P6 {width} {height} 255\n"`.
    pub fn create_header(canvas: &Canvas<Rgb>) -> (header: Vec<u8>)
        ensures
            header@ == header_bytes(canvas.spec_width() as nat, canvas.spec_height() as nat),
    {
        let mut header: Vec<u8> = Vec::new();
        header.push(80);
        header.push(54);
        header.push(32);
        let mut width_digits = decimal(canvas.width());
        header.append(&mut width_digits);
        header.push(32);
        let mut height_digits = decimal(canvas.height());
        header.append(&mut height_digits);
        header.push(32);
        header.push(50);
        header.push(53);
        header.push(53);
        header.push(10);
        proof {
            assert(header@ =~= header_bytes(
                canvas.spec_width() as nat,
                canvas.spec_height() as nat,
            ));
        }
        header
    }

    /// Builds the raw pixel bytes: each pixel of the canvas, in row-major
    /// order, as its three channels.
    pub fn create_body(canvas: &Canvas<Rgb>) -> (body: Vec<u8>)
        requires
            canvas.wf(),
        ensures
            body@ == body_bytes(canvas@),
    {
        let pixels = canvas.content();
        let total = pixels.len();
        let mut body: Vec<u8> = Vec::new();
        let mut done: usize = 0;
        while done < total
            invariant
                done <= total,
                total == pixels@.len(),
                pixels@ == canvas@,
                body@ == body_bytes(canvas@.take(done as int)),
            decreases total - done,
        {
            let pixel = pixels[done];
            body.push(pixel.r);
            body.push(pixel.g);
            body.push(pixel.b);
            proof {
                let next = canvas@.take(done + 1);
                assert(next.drop_last() =~= canvas@.take(done as int));
                assert(next.last() == canvas@[done as int]);
                assert(body@ =~= body_bytes(next));
            }
            done = done + 1;
        }
        proof {
            assert(canvas@.take(total as int) =~= canvas@);
        }
        body
    }

    /// A copy of the encoded byte buffer.
    pub fn get(&self) -> (content: Vec<u8>)
        ensures
            content@ == self@,
    {
        let content = self.content.clone();
        proof {
            assert(content@ =~= self@);
        }
        content
    }
}

/// In a full encoding, the pixel at `(x, y)` of the canvas occupies the
/// three bytes starting at offset `header.len() + 3 * (x + y * width)`,
/// holding its red, green and blue channels in that order.
///
/// `buffer` mirrors the contract of `PPM::new`: the header followed by the
/// body.
pub proof fn lemma_encoding_pixel_bytes(canvas: Canvas<Rgb>, buffer: Seq<u8>, x: nat, y: nat)
    requires
        canvas.wf(),
        x < canvas.spec_width(),
        y < canvas.spec_height(),
        buffer == header_bytes(canvas.spec_width() as nat, canvas.spec_height() as nat)
            + body_bytes(canvas@),
    ensures
        ({
            let offset = header_bytes(
                canvas.spec_width() as nat,
                canvas.spec_height() as nat,
            ).len() + 3 * (x + y * canvas.spec_width());
            let pixel = canvas@[x + y * canvas.spec_width() as int];
            &&& buffer.len() == header_bytes(
                canvas.spec_width() as nat,
                canvas.spec_height() as nat,
            ).len() + 3 * canvas@.len()
            &&& buffer[offset as int] == pixel.r
            &&& buffer[offset + 1] == pixel.g
            &&& buffer[offset + 2] == pixel.b
        }),
{
    let width = canvas.spec_width() as int;
    let height = canvas.spec_height() as int;
    let i = x + y * width;
    assert(x + y * width < width * height) by (nonlinear_arith)
        requires
            0 <= x < width,
            0 <= y < height,
    ;
    lemma_body_byte_mapping(canvas@, i);
}

/// Encoding is deterministic: the byte buffer is a pure function of the
/// canvas dimensions and pixel sequence, so encoding the same canvas twice
/// yields byte-identical output.
pub proof fn lemma_encoding_deterministic(canvas: Canvas<Rgb>, first: Seq<u8>, second: Seq<u8>)
    requires
        first == header_bytes(canvas.spec_width() as nat, canvas.spec_height() as nat)
            + body_bytes(canvas@),
        second == header_bytes(canvas.spec_width() as nat, canvas.spec_height() as nat)
            + body_bytes(canvas@),
    ensures
        first == second,
{
}

} // verus!
